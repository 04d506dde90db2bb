//! A session runtime for serving a full-screen terminal application to
//! remote clients over a raw transport: terminal capability negotiation,
//! keystroke decoding, an output bridge that buffers rendered bytes into
//! outbound data frames, a per-session frame scheduler with suspend and
//! resume, and the session handler's protocol decisions.

pub mod action;
pub mod app;
pub mod backend;
pub mod hostip;
pub mod keycode;
pub mod landing;
pub mod ssh;
pub mod strutil;
pub mod terminal;
pub mod tui;
