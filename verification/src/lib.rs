//! Audio taps and the notification hook of a browser runtime on the Chromium Embedded Framework.
//!
//! `audio_tap_registry` keeps, for each browser, the newest audio of its pages and the subscriber of
//! its stream. `render_process_handler` and `cef_helper` decide what the hook that stands in for
//! `window.Notification` does, in the runtime and in the standalone helper process.

pub mod audio_channel;
pub mod audio_tap_calls;
pub mod audio_tap_laws;
pub mod audio_tap_registry;
pub mod cef_helper;
pub mod decimal;
pub mod downmix;
pub mod let_go;
pub mod notification;
pub mod notification_hook;
pub mod notification_laws;
pub mod render_process_handler;
pub mod ring_buffer;
pub mod subscriber;
pub mod web_origin;
pub mod web_origin_laws;
