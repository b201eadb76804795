use cloudydesk_privacy::win_gif_overlay::{
    create_fallback_frames, decode_gif, frames_from_decoded, get_gif_url, load_privacy_frames,
    rgba_to_bgra, DecodedFrame, FramePump, GifFrame, GifOverlayPrivacyMode, DEFAULT_GIF_URL,
};
use image::codecs::gif::GifEncoder;
use image::{Delay, Frame, Rgba, RgbaImage};

fn frame_with_delay(delay_ms: u64) -> GifFrame {
    GifFrame { width: 1, height: 1, pixels: vec![0, 0, 0, 255], delay_ms }
}

fn encode_animation(delays: &[u32]) -> Vec<u8> {
    let mut out = Vec::new();
    {
        let mut enc = GifEncoder::new(&mut out);
        let frames: Vec<Frame> = delays
            .iter()
            .map(|d| {
                let img = RgbaImage::from_pixel(3, 2, Rgba([0, 0, 0, 255]));
                Frame::from_parts(img, 0, 0, Delay::from_numer_denom_ms(*d, 1))
            })
            .collect();
        enc.encode_frames(frames).unwrap();
    }
    out
}

#[test]
fn three_frame_animation_advances_within_bounds() {
    let frames = vec![frame_with_delay(100), frame_with_delay(200), frame_with_delay(150)];
    let mut pump = FramePump::new(0);
    let mut advances = 0;
    let mut now = 0u64;
    while now < 1000 {
        now += 16;
        let before = pump.frame_index;
        if pump.on_animate(&frames, now) {
            advances += 1;
            assert_eq!(pump.frame_index, (before + 1) % 3);
            assert_eq!(pump.last_advance_ms, now);
        } else {
            assert_eq!(pump.frame_index, before);
        }
    }
    assert!(advances >= 2 && advances <= 11, "advances = {}", advances);
}

#[test]
fn frame_does_not_advance_before_its_delay() {
    let frames = vec![frame_with_delay(100), frame_with_delay(200)];
    let mut pump = FramePump::new(1000);
    assert!(!pump.on_animate(&frames, 1099));
    assert_eq!(pump, FramePump { frame_index: 0, last_advance_ms: 1000 });
    assert!(pump.on_animate(&frames, 1100));
    assert_eq!(pump, FramePump { frame_index: 1, last_advance_ms: 1100 });
    assert!(!pump.on_animate(&frames, 1299));
    assert!(pump.on_animate(&frames, 1300));
    assert_eq!(pump.frame_index, 0);
    // a clock that goes back never advances
    assert!(!pump.on_animate(&frames, 5));
    // no frames: nothing happens
    let mut idle = FramePump::new(0);
    assert!(!idle.on_animate(&Vec::new(), 10_000));
    assert_eq!(idle, FramePump::new(0));
}

#[test]
fn unreachable_url_uses_fallback_gradient() {
    let (frames, fallback) = load_privacy_frames(None);
    assert!(fallback);
    assert_eq!(frames.len(), 4);
    for f in &frames {
        assert_eq!((f.width, f.height, f.delay_ms), (800, 600, 250));
        assert_eq!(f.pixels.len(), 800 * 600 * 4);
    }
}

#[test]
fn undecodable_bytes_use_fallback() {
    let (frames, fallback) = load_privacy_frames(Some(&b"not a gif at all"[..]));
    assert!(fallback);
    assert_eq!(frames.len(), 4);
    assert!(decode_gif(&b"GIF89a"[..]).is_none());
}

#[test]
fn fallback_pixels_follow_the_gradient() {
    let frames = create_fallback_frames();
    // frame 1, x = 10, y = 20
    let i = (20 * 800 + 10) * 4;
    assert_eq!(&frames[1].pixels[i..i + 4], &[80, 70, 60, 255]);
    // frame 3, x = 799, y = 599: wraps modulo 256
    let j = (599 * 800 + 799) * 4;
    assert_eq!(
        &frames[3].pixels[j..j + 4],
        &[((799 + 599 + 150) % 256) as u8, ((599 + 150) % 256) as u8, ((799 + 150) % 256) as u8, 255]
    );
    assert_eq!(&frames[0].pixels[0..4], &[0, 0, 0, 255]);
}

#[test]
fn decoded_gif_keeps_delays_and_size() {
    let data = encode_animation(&[100, 200, 150]);
    let frames = decode_gif(&data).unwrap();
    assert_eq!(frames.len(), 3);
    let delays: Vec<u64> = frames.iter().map(|f| f.delay_ms).collect();
    assert_eq!(delays, vec![100, 200, 150]);
    for f in &frames {
        assert_eq!((f.width, f.height), (3, 2));
        assert_eq!(f.pixels.len(), 3 * 2 * 4);
        assert_eq!(f.pixels[3], 255);
    }
    let (loaded, fallback) = load_privacy_frames(Some(&data[..]));
    assert!(!fallback);
    assert_eq!(loaded.len(), 3);
}

#[test]
fn short_delays_are_raised_to_fifty_ms() {
    let data = encode_animation(&[10, 0]);
    let frames = decode_gif(&data).unwrap();
    assert_eq!(frames.iter().map(|f| f.delay_ms).collect::<Vec<_>>(), vec![50, 50]);
}

#[test]
fn decoded_frames_become_premultiplied_bgra() {
    let decoded = vec![
        DecodedFrame { width: 2, height: 1, rgba: vec![10, 20, 30, 255, 200, 100, 50, 128], delay_numer: 300, delay_denom: 2 },
        DecodedFrame { width: 1, height: 1, rgba: vec![1, 2, 3, 4, 9], delay_numer: 7, delay_denom: 0 },
    ];
    let frames = frames_from_decoded(decoded);
    assert_eq!(frames[0].pixels, vec![30, 20, 10, 255, 25, 50, 100, 128]);
    assert_eq!(frames[0].delay_ms, 150);
    assert_eq!((frames[0].width, frames[0].height), (2, 1));
    assert_eq!(frames[1].pixels, vec![0, 0, 0, 4]);
    assert_eq!(frames[1].delay_ms, 50);
    assert_eq!(rgba_to_bgra(&vec![0, 0, 255, 0]), vec![0, 0, 0, 0]);
}

#[test]
fn gif_url_override() {
    assert_eq!(get_gif_url(None), DEFAULT_GIF_URL);
    assert_eq!(get_gif_url(Some("http://127.0.0.1:9/x.gif".to_string())), "http://127.0.0.1:9/x.gif");
}

#[test]
fn gif_overlay_mode_basics() {
    let mut m = GifOverlayPrivacyMode::new("privacy_mode_impl_gif_overlay");
    assert!(GifOverlayPrivacyMode::is_available());
    assert!(!m.is_async_privacy_mode());
    assert_eq!(m.get_impl_key(), "privacy_mode_impl_gif_overlay");
    let plan = m.clear();
    assert_eq!(plan.hide_worker, None);
    assert_eq!(m.pre_conn_id(), -1);
}
