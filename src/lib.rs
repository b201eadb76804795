pub mod conf_text;
pub mod privacy_mode;
pub mod overlay;
pub mod win_direct_overlay;
pub mod win_gif_overlay;
pub mod win_separate_desktop;
pub mod registry;
pub mod license;
pub mod core_main;
