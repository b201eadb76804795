use vstd::prelude::*;
use image::AnimationDecoder;
use crate::overlay::{
    cleanup_actions, flags_clear, flags_wf, OverlayAction, OverlayController, OverlayFlags,
};
use crate::privacy_mode::{
    check_off_conn_id, check_on_conn_id, fresh_mode, make_turn_off_plan, mode_turn_off,
    mode_turn_on, ModeView, PrivacyError, PrivacyModeKind, PrivacyModeState, TurnOffPlan,
    INVALID_PRIVACY_MODE_CONN_ID,
};

verus! {

/// Window class of the animated overlay, stable so that diagnostic tools can find it.
pub const PRIVACY_WINDOW_CLASS: &'static str = "CloudyDeskGifPrivacyWindow";

/// Title of the animated overlay window.
pub const PRIVACY_WINDOW_TITLE: &'static str = "CloudyDesk GIF Privacy Overlay";

/// Animation shown when no other is configured.
pub const DEFAULT_GIF_URL: &'static str =
    "https://pub-0da0e6fe0ffe41779cf062b414ef44cc.r2.dev/ersz9j91woa01.gif";

/// Environment variable that overrides `DEFAULT_GIF_URL`.
pub const GIF_URL_ENV_VAR: &'static str = "CLOUDYDESK_PRIVACY_GIF_URL";

/// Shortest time a frame stays on screen, in milliseconds.
pub const MIN_FRAME_DELAY_MS: u64 = 50;

/// Period of the animation tick posted to the worker, in milliseconds (about 60 Hz).
pub const ANIMATION_TICK_MS: u64 = 16;

/// Period of the z-order watchdog, in milliseconds.
pub const ZORDER_ENFORCER_INTERVAL_MS: u64 = 50;

/// Size, length and pace of the gradient animation used when none could be loaded.
pub const FALLBACK_WIDTH: u32 = 800;
pub const FALLBACK_HEIGHT: u32 = 600;
pub const FALLBACK_FRAME_COUNT: usize = 4;
pub const FALLBACK_DELAY_MS: u64 = 250;

/// One frame of the overlay animation: pre-multiplied BGRA pixels, row by
/// row, and how long it stays on screen.
pub struct GifFrame {
    pub width: u32,
    pub height: u32,
    pub pixels: Vec<u8>,
    pub delay_ms: u64,
}

/// A frame as the decoder hands it out: straight RGBA pixels and a delay of
/// `delay_numer / delay_denom` milliseconds.
pub struct DecodedFrame {
    pub width: u32,
    pub height: u32,
    pub rgba: Vec<u8>,
    pub delay_numer: u32,
    pub delay_denom: u32,
}

/// The frames that decoding the GIF stream `data` gives, as (width, height,
/// RGBA bytes, delay numerator, delay denominator); `None` when it does not
/// decode.
pub uninterp spec fn gif_decoding(data: Seq<u8>) -> Option<Seq<(u32, u32, Seq<u8>, u32, u32)>>;

/// A decoded frame as plain values.
pub open spec fn decoded_view(f: DecodedFrame) -> (u32, u32, Seq<u8>, u32, u32) {
    (f.width, f.height, f.rgba@, f.delay_numer, f.delay_denom)
}

/// image's decoding error, which `decode_gif_stream` hands back as it is;
/// the library only tells failure from success.
#[verifier::external_type_specification]
#[verifier::external_body]
pub struct ExImageError(image::ImageError);

/// Relies on image's `GifDecoder::new` and `AnimationDecoder::into_frames`:
/// every frame of the stream composited onto the canvas as RGBA, with its
/// delay as a millisecond ratio; the outcome depends on the bytes alone.
#[verifier::external_body]
fn decode_gif_stream(data: &[u8]) -> (r: Result<Vec<DecodedFrame>, image::ImageError>)
    ensures
        r is Ok <==> gif_decoding(data@) is Some,
        r is Ok ==> r->Ok_0@.map_values(|f: DecodedFrame| decoded_view(f)) == gif_decoding(
            data@,
        )->Some_0,
{
    let decoder = image::codecs::gif::GifDecoder::new(std::io::Cursor::new(data))?;
    let frames = decoder.into_frames().collect_frames()?;
    Ok(frames.into_iter().map(|f| {
        let (delay_numer, delay_denom) = f.delay().numer_denom_ms();
        let img = f.into_buffer();
        DecodedFrame { width: img.width(), height: img.height(), rgba: img.into_raw(), delay_numer, delay_denom }
    }).collect())
}

/// `c` scaled by the opacity `a`.
pub open spec fn premultiplied(c: u8, a: u8) -> u8 {
    (c as int * a as int / 255) as u8
}

/// Byte `i` of the pre-multiplied BGRA image made from the RGBA bytes `rgba`.
pub open spec fn bgra_byte(rgba: Seq<u8>, i: int) -> u8 {
    let p = i / 4;
    let a = rgba[4 * p + 3];
    if i % 4 == 0 {
        premultiplied(rgba[4 * p + 2], a)
    } else if i % 4 == 1 {
        premultiplied(rgba[4 * p + 1], a)
    } else if i % 4 == 2 {
        premultiplied(rgba[4 * p], a)
    } else {
        a
    }
}

/// Whether `bgra` is the pre-multiplied BGRA form of the whole pixels of `rgba`.
pub open spec fn is_bgra_of(bgra: Seq<u8>, rgba: Seq<u8>) -> bool {
    &&& bgra.len() == 4 * (rgba.len() / 4)
    &&& forall|i: int| 0 <= i < bgra.len() ==> #[trigger] bgra[i] == bgra_byte(rgba, i)
}

/// A frame's delay in milliseconds, never under `MIN_FRAME_DELAY_MS`.
pub open spec fn frame_delay(numer: u32, denom: u32) -> u64 {
    let d: int = if denom == 0 { 0 } else { numer as int / denom as int };
    if d < MIN_FRAME_DELAY_MS { MIN_FRAME_DELAY_MS } else { d as u64 }
}

/// Whether `g` is the overlay frame made from the decoded frame `d`.
pub open spec fn frame_from(g: GifFrame, d: (u32, u32, Seq<u8>, u32, u32)) -> bool {
    &&& g.width == d.0
    &&& g.height == d.1
    &&& is_bgra_of(g.pixels@, d.2)
    &&& g.delay_ms == frame_delay(d.3, d.4)
}

/// Whether `gs` are the overlay frames made, one for one, from `ds`.
pub open spec fn frames_from(gs: Seq<GifFrame>, ds: Seq<(u32, u32, Seq<u8>, u32, u32)>) -> bool {
    &&& gs.len() == ds.len()
    &&& forall|i: int| 0 <= i < gs.len() ==> frame_from(#[trigger] gs[i], ds[i])
}

fn premultiply(c: u8, a: u8) -> (r: u8)
    ensures
        r == premultiplied(c, a),
{
    let cc: u32 = c as u32;
    let aa: u32 = a as u32;
    assert(cc * aa <= 255 * 255) by (nonlinear_arith)
        requires
            cc <= 255,
            aa <= 255,
    ;
    let v: u32 = cc * aa / 255;
    v as u8
}

/// Turns straight RGBA bytes into pre-multiplied BGRA; trailing bytes that
/// make no whole pixel are dropped.
pub fn rgba_to_bgra(rgba: &Vec<u8>) -> (r: Vec<u8>)
    ensures
        is_bgra_of(r@, rgba@),
{
    let len = rgba.len();
    let n = len / 4;
    let mut out: Vec<u8> = Vec::new();
    let mut p: usize = 0;
    while p < n
        invariant
            len == rgba@.len(),
            n == len / 4,
            0 <= p <= n,
            out@.len() == 4 * p,
            forall|i: int| 0 <= i < out@.len() ==> #[trigger] out@[i] == bgra_byte(rgba@, i),
        decreases n - p,
    {
        assert(4 * p + 4 <= len) by (nonlinear_arith)
            requires
                p < n,
                n == len / 4,
        ;
        let base = 4 * p;
        let a = rgba[base + 3];
        out.push(premultiply(rgba[base + 2], a));
        out.push(premultiply(rgba[base + 1], a));
        out.push(premultiply(rgba[base], a));
        out.push(a);
        assert forall|i: int| 0 <= i < out@.len() implies #[trigger] out@[i] == bgra_byte(
            rgba@,
            i,
        ) by {
            if i >= 4 * p {
                assert(i / 4 == p as int);
            }
        }
        p = p + 1;
    }
    out
}

fn delay_ms_of(numer: u32, denom: u32) -> (r: u64)
    ensures
        r == frame_delay(numer, denom),
{
    let d: u64 = if denom == 0 {
        0
    } else {
        (numer / denom) as u64
    };
    if d < MIN_FRAME_DELAY_MS {
        MIN_FRAME_DELAY_MS
    } else {
        d
    }
}

/// Makes overlay frames from decoded ones: pixels to pre-multiplied BGRA,
/// delays in milliseconds raised to `MIN_FRAME_DELAY_MS`.
pub fn frames_from_decoded(decoded: Vec<DecodedFrame>) -> (r: Vec<GifFrame>)
    ensures
        frames_from(r@, decoded@.map_values(|f: DecodedFrame| decoded_view(f))),
{
    let ghost ds = decoded@.map_values(|f: DecodedFrame| decoded_view(f));
    let mut out: Vec<GifFrame> = Vec::new();
    let mut i: usize = 0;
    while i < decoded.len()
        invariant
            ds == decoded@.map_values(|f: DecodedFrame| decoded_view(f)),
            0 <= i <= decoded@.len(),
            out@.len() == i,
            forall|j: int| 0 <= j < i ==> frame_from(#[trigger] out@[j], ds[j]),
        decreases decoded@.len() - i,
    {
        let d = &decoded[i];
        let g = GifFrame {
            width: d.width,
            height: d.height,
            pixels: rgba_to_bgra(&d.rgba),
            delay_ms: delay_ms_of(d.delay_numer, d.delay_denom),
        };
        out.push(g);
        i = i + 1;
    }
    out
}

/// Decodes a GIF stream into overlay frames; `None` when it does not decode.
pub fn decode_gif(data: &[u8]) -> (r: Option<Vec<GifFrame>>)
    ensures
        r is Some <==> gif_decoding(data@) is Some,
        r is Some ==> frames_from(r->Some_0@, gif_decoding(data@)->Some_0),
{
    match decode_gif_stream(data) {
        Ok(decoded) => Some(frames_from_decoded(decoded)),
        Err(_) => None,
    }
}

/// Byte `i` of fallback frame `k`: pixel `i / 4` at column `x`, row `y` is
/// blue `(x + y + 50k) % 256`, green `(y + 50k) % 256`, red `(x + 50k) % 256`,
/// opaque.
pub open spec fn fallback_byte(k: int, i: int) -> u8 {
    let p = i / 4;
    let x = p % (FALLBACK_WIDTH as int);
    let y = p / (FALLBACK_WIDTH as int);
    if i % 4 == 0 {
        ((x + y + 50 * k) % 256) as u8
    } else if i % 4 == 1 {
        ((y + 50 * k) % 256) as u8
    } else if i % 4 == 2 {
        ((x + 50 * k) % 256) as u8
    } else {
        255u8
    }
}

/// Whether `g` is fallback frame `k`.
pub open spec fn is_fallback_frame(g: GifFrame, k: int) -> bool {
    &&& g.width == FALLBACK_WIDTH
    &&& g.height == FALLBACK_HEIGHT
    &&& g.delay_ms == FALLBACK_DELAY_MS
    &&& g.pixels@.len() == 4 * FALLBACK_WIDTH * FALLBACK_HEIGHT
    &&& forall|i: int| 0 <= i < g.pixels@.len() ==> #[trigger] g.pixels@[i] == fallback_byte(k, i)
}

/// Whether `gs` is the fallback animation.
pub open spec fn is_fallback(gs: Seq<GifFrame>) -> bool {
    &&& gs.len() == FALLBACK_FRAME_COUNT
    &&& forall|k: int| 0 <= k < gs.len() ==> is_fallback_frame(#[trigger] gs[k], k)
}

fn fallback_frame(k: u32) -> (r: GifFrame)
    requires
        k < 4,
    ensures
        is_fallback_frame(r, k as int),
{
    let total: usize = 480000;
    let mut pixels: Vec<u8> = Vec::new();
    let mut p: usize = 0;
    while p < total
        invariant
            k < 4,
            total == FALLBACK_WIDTH * FALLBACK_HEIGHT,
            0 <= p <= total,
            pixels@.len() == 4 * p,
            forall|i: int| 0 <= i < pixels@.len() ==> #[trigger] pixels@[i] == fallback_byte(k as int, i),
        decreases total - p,
    {
        let x: u32 = (p % 800) as u32;
        let y: u32 = (p / 800) as u32;
        let shift: u32 = k * 50;
        pixels.push(((x + y + shift) % 256) as u8);
        pixels.push(((y + shift) % 256) as u8);
        pixels.push(((x + shift) % 256) as u8);
        pixels.push(255);
        assert forall|i: int| 0 <= i < pixels@.len() implies #[trigger] pixels@[i] == fallback_byte(
            k as int,
            i,
        ) by {
            if i >= 4 * p {
                assert(i / 4 == p as int);
            }
        }
        p = p + 1;
    }
    GifFrame { width: FALLBACK_WIDTH, height: FALLBACK_HEIGHT, pixels, delay_ms: FALLBACK_DELAY_MS }
}

/// The animation used when none could be loaded: four 800x600 gradient
/// frames, shifted by 50 per frame, each shown 250 ms.
pub fn create_fallback_frames() -> (r: Vec<GifFrame>)
    ensures
        is_fallback(r@),
{
    let mut frames: Vec<GifFrame> = Vec::new();
    let mut k: u32 = 0;
    while k < 4
        invariant
            0 <= k <= 4,
            frames@.len() == k,
            forall|j: int| 0 <= j < k ==> is_fallback_frame(#[trigger] frames@[j], j),
        decreases 4 - k,
    {
        frames.push(fallback_frame(k));
        k = k + 1;
    }
    frames
}

/// The animation the overlay shows, from the downloaded bytes (`None`: the
/// download failed): the decoded frames when the bytes decode to at least
/// one frame, the fallback animation otherwise; `r.1` tells whether the
/// fallback was used.
pub fn load_privacy_frames(downloaded: Option<&[u8]>) -> (r: (Vec<GifFrame>, bool))
    ensures
        (match downloaded {
            Some(data) => match gif_decoding(data@) {
                Some(ds) => if ds.len() > 0 {
                    frames_from(r.0@, ds) && !r.1
                } else {
                    is_fallback(r.0@) && r.1
                },
                None => is_fallback(r.0@) && r.1,
            },
            None => is_fallback(r.0@) && r.1,
        }),
{
    match downloaded {
        Some(data) => match decode_gif(data) {
            Some(frames) => {
                if frames.len() > 0 {
                    (frames, false)
                } else {
                    (create_fallback_frames(), true)
                }
            },
            None => (create_fallback_frames(), true),
        },
        None => (create_fallback_frames(), true),
    }
}

/// Every frame of a loaded animation stays at least `MIN_FRAME_DELAY_MS` on screen.
pub open spec fn delays_at_least_min(gs: Seq<GifFrame>) -> bool {
    forall|i: int| 0 <= i < gs.len() ==> (#[trigger] gs[i]).delay_ms >= MIN_FRAME_DELAY_MS
}

/// Decoded frames are never shown for less than `MIN_FRAME_DELAY_MS`, and
/// neither are fallback frames.
pub proof fn loaded_delays_at_least_min(gs: Seq<GifFrame>, ds: Seq<(u32, u32, Seq<u8>, u32, u32)>)
    ensures
        frames_from(gs, ds) ==> delays_at_least_min(gs),
        is_fallback(gs) ==> delays_at_least_min(gs),
{
    if frames_from(gs, ds) {
        assert forall|i: int| 0 <= i < gs.len() implies (#[trigger] gs[i]).delay_ms
            >= MIN_FRAME_DELAY_MS by {
            assert(frame_from(gs[i], ds[i]));
        }
    }
    if is_fallback(gs) {
        assert forall|i: int| 0 <= i < gs.len() implies (#[trigger] gs[i]).delay_ms
            >= MIN_FRAME_DELAY_MS by {
            assert(is_fallback_frame(gs[i], i));
        }
    }
}

/// The URL of the animation: the environment override when set, else the default.
pub fn get_gif_url(env_override: Option<String>) -> (r: String)
    ensures
        r@ == (match env_override {
            Some(s) => s@,
            None => DEFAULT_GIF_URL@,
        }),
{
    match env_override {
        Some(s) => s,
        None => String::from_str(DEFAULT_GIF_URL),
    }
}

/// Which frame is on screen, and when it came up (milliseconds on a
/// monotonic clock).
#[derive(Clone, Copy, Debug, PartialEq, Eq, Structural)]
pub struct FramePump {
    pub frame_index: usize,
    pub last_advance_ms: u64,
}

/// The pump after an animation tick at `now_ms` over frames with `delays`:
/// once the frame on screen has been up for its delay, the next one (wrapping
/// round) comes up now; otherwise nothing changes.
pub open spec fn pump_after_tick(p: FramePump, delays: Seq<u64>, now_ms: u64) -> FramePump {
    if tick_advances(p, delays, now_ms) {
        FramePump {
            frame_index: ((p.frame_index + 1) % (delays.len() as int)) as usize,
            last_advance_ms: now_ms,
        }
    } else {
        p
    }
}

/// Whether a tick at `now_ms` brings up the next frame: the frame on screen
/// has been up for its delay.
pub open spec fn tick_advances(p: FramePump, delays: Seq<u64>, now_ms: u64) -> bool {
    delays.len() > 0 && now_ms >= p.last_advance_ms && now_ms - p.last_advance_ms
        >= delays[p.frame_index as int]
}

/// The delays of `frames`.
pub open spec fn delays_of(frames: Seq<GifFrame>) -> Seq<u64> {
    frames.map_values(|g: GifFrame| g.delay_ms)
}

impl FramePump {
    /// The first frame, up since `now_ms`.
    pub fn new(now_ms: u64) -> (r: Self)
        ensures
            r.frame_index == 0,
            r.last_advance_ms == now_ms,
    {
        FramePump { frame_index: 0, last_advance_ms: now_ms }
    }

    /// Handles ANIMATE at `now_ms`; `true` when the next frame came up and the
    /// window is to be painted again.
    pub fn on_animate(&mut self, frames: &Vec<GifFrame>, now_ms: u64) -> (r: bool)
        requires
            frames@.len() == 0 || old(self).frame_index < frames@.len(),
        ensures
            *final(self) == pump_after_tick(*old(self), delays_of(frames@), now_ms),
            r == tick_advances(*old(self), delays_of(frames@), now_ms),
            frames@.len() == 0 || final(self).frame_index < frames@.len(),
    {
        let n = frames.len();
        if n == 0 {
            return false;
        }
        let i = self.frame_index;
        if now_ms >= self.last_advance_ms && now_ms - self.last_advance_ms >= frames[i].delay_ms {
            self.frame_index = (i + 1) % n;
            self.last_advance_ms = now_ms;
            true
        } else {
            false
        }
    }
}

/// A frame advances one step at a time, wrapping round, and never before the
/// frame on screen has been up for its delay.
pub proof fn frame_advance_respects_delay(p: FramePump, delays: Seq<u64>, now_ms: u64)
    requires
        p.frame_index < delays.len() <= usize::MAX,
    ensures
        tick_advances(p, delays, now_ms) ==> pump_after_tick(p, delays, now_ms).frame_index == (
        p.frame_index + 1) % (delays.len() as int) && now_ms >= p.last_advance_ms
            + delays[p.frame_index as int],
        !tick_advances(p, delays, now_ms) ==> pump_after_tick(p, delays, now_ms) == p,
        now_ms < p.last_advance_ms + delays[p.frame_index as int] ==> pump_after_tick(
            p,
            delays,
            now_ms,
        ) == p,
{
}

/// The z-order watchdog re-asserts the overlay at least every 100 ms.
pub proof fn zorder_watchdog_within_100ms()
    ensures
        ZORDER_ENFORCER_INTERVAL_MS <= 100,
{
}

/// Privacy mode through a full-screen animated top-most window, excluded
/// from capture, with input hooks that let only synthetic input through and
/// a watchdog that keeps it on top.
pub struct GifOverlayPrivacyMode {
    pub impl_key: String,
    pub conn_id: i32,
    pub controller: Option<OverlayController>,
}

impl GifOverlayPrivacyMode {
    /// The state of this back-end.
    pub open spec fn mode_view(&self) -> ModeView {
        ModeView { kind: PrivacyModeKind::GifOverlay, conn_id: self.conn_id, controller: self.controller }
    }

    /// A back-end registered under `impl_key` that nobody holds.
    pub fn new(impl_key: &str) -> (r: Self)
        ensures
            r.impl_key@ == impl_key@,
            r.mode_view() == fresh_mode(PrivacyModeKind::GifOverlay),
    {
        GifOverlayPrivacyMode {
            impl_key: String::from_str(impl_key),
            conn_id: INVALID_PRIVACY_MODE_CONN_ID,
            controller: None,
        }
    }

    /// This back-end works on every supported system.
    pub fn is_available() -> (r: bool)
        ensures
            r,
    {
        true
    }

    /// Turning on completes before the call returns.
    pub fn is_async_privacy_mode(&self) -> (r: bool)
        ensures
            !r,
    {
        false
    }

    /// The connection holding the mode, or `INVALID_PRIVACY_MODE_CONN_ID`.
    pub fn pre_conn_id(&self) -> (r: i32)
        ensures
            r == self.conn_id,
    {
        self.conn_id
    }

    /// The key this back-end was created under.
    pub fn get_impl_key(&self) -> (r: &str)
        ensures
            r@ == self.impl_key@,
    {
        self.impl_key.as_str()
    }

    /// Turns the mode on for `conn_id`. `activation` is the worker that took
    /// SHOW, or why starting it or posting failed; it is only consulted when
    /// the mode is free (`check_on_conn_id` gives `Ok(false)`).
    pub fn turn_on_privacy(
        &mut self,
        conn_id: i32,
        activation: Result<OverlayController, PrivacyError>,
    ) -> (r: Result<bool, PrivacyError>)
        ensures
            (final(self).mode_view(), r) == mode_turn_on(old(self).mode_view(), conn_id, activation),
            final(self).impl_key == old(self).impl_key,
    {
        match check_on_conn_id(self.conn_id, conn_id) {
            Err(e) => Err(e),
            Ok(true) => Ok(true),
            Ok(false) => match activation {
                Err(e) => Err(e),
                Ok(c) => {
                    self.controller = Some(c);
                    self.conn_id = conn_id;
                    Ok(true)
                },
            },
        }
    }

    /// Turns the mode off for `conn_id`, publishing `state` if given; returns
    /// the OS work owed (HIDE to the worker).
    pub fn turn_off_privacy(&mut self, conn_id: i32, state: Option<PrivacyModeState>) -> (r: Result<
        TurnOffPlan,
        PrivacyError,
    >)
        ensures
            (final(self).mode_view(), r) == mode_turn_off(old(self).mode_view(), conn_id, state),
            final(self).impl_key == old(self).impl_key,
    {
        check_off_conn_id(self.conn_id, conn_id)?;
        let plan = make_turn_off_plan(PrivacyModeKind::GifOverlay, self.controller, conn_id, state);
        self.conn_id = INVALID_PRIVACY_MODE_CONN_ID;
        self.controller = None;
        Ok(plan)
    }

    /// Turns the mode off on behalf of its holder, publishing nothing.
    pub fn clear(&mut self) -> (r: TurnOffPlan)
        ensures
            (final(self).mode_view(), Ok::<TurnOffPlan, PrivacyError>(r)) == mode_turn_off(
                old(self).mode_view(),
                old(self).conn_id,
                None,
            ),
            final(self).impl_key == old(self).impl_key,
    {
        let conn_id = self.conn_id;
        let plan = make_turn_off_plan(PrivacyModeKind::GifOverlay, self.controller, conn_id, None);
        self.conn_id = INVALID_PRIVACY_MODE_CONN_ID;
        self.controller = None;
        plan
    }
}

/// The animated overlay works on every supported system.
pub fn is_supported() -> (r: bool)
    ensures
        r,
{
    true
}

/// Stops the z-order watchdog: its task ends at its next round.
pub fn stop_zorder_enforcer(flags: &mut OverlayFlags)
    ensures
        *final(flags) == (OverlayFlags { zorder_enforcer_running: false, ..*old(flags) }),
{
    flags.zorder_enforcer_running = false;
}

/// Teardown when the session closes: the worker to send SHUTDOWN to and
/// join, if one was started, and the steps that leave no hook, no replaced
/// system cursor and no hidden cursor behind. Every flag is clear afterwards
/// (the watchdog stopped too) and the worker is forgotten.
pub fn cleanup_on_session_close(
    flags: &mut OverlayFlags,
    controller: &mut Option<OverlayController>,
) -> (r: (Option<u32>, Vec<OverlayAction>))
    requires
        flags_wf(*old(flags)),
    ensures
        r.0 == (match *old(controller) {
            Some(c) => match c.state {
                Some(s) => Some(s.thread_id),
                None => None,
            },
            None => None,
        }),
        r.1@ == cleanup_actions(*old(flags)),
        flags_clear(*final(flags)),
        flags_wf(*final(flags)),
        *final(controller) is None,
{
    let worker = match controller {
        Some(c) => c.thread_id(),
        None => None,
    };
    *controller = None;
    let actions = flags.cleanup();
    (worker, actions)
}

/// Start-up teardown, whatever an earlier session left; the same as
/// `cleanup_on_session_close`.
pub fn init_cleanup(
    flags: &mut OverlayFlags,
    controller: &mut Option<OverlayController>,
) -> (r: (Option<u32>, Vec<OverlayAction>))
    requires
        flags_wf(*old(flags)),
    ensures
        r.0 == (match *old(controller) {
            Some(c) => match c.state {
                Some(s) => Some(s.thread_id),
                None => None,
            },
            None => None,
        }),
        r.1@ == cleanup_actions(*old(flags)),
        flags_clear(*final(flags)),
        flags_wf(*final(flags)),
        *final(controller) is None,
{
    cleanup_on_session_close(flags, controller)
}

/// Teardown on demand, whatever state the overlay is in; the same as
/// `cleanup_on_session_close`.
pub fn emergency_cleanup(
    flags: &mut OverlayFlags,
    controller: &mut Option<OverlayController>,
) -> (r: (Option<u32>, Vec<OverlayAction>))
    requires
        flags_wf(*old(flags)),
    ensures
        r.0 == (match *old(controller) {
            Some(c) => match c.state {
                Some(s) => Some(s.thread_id),
                None => None,
            },
            None => None,
        }),
        r.1@ == cleanup_actions(*old(flags)),
        flags_clear(*final(flags)),
        flags_wf(*final(flags)),
        *final(controller) is None,
{
    cleanup_on_session_close(flags, controller)
}

} // verus!
