use vstd::prelude::*;

pub mod window_id;
pub mod gl_common;
pub mod events;
pub mod win32;
pub mod window_parameters;
pub mod sdl;
pub mod x11;
pub mod macos;
pub mod event_receiver;
pub mod redraw;
pub mod nsgl;
pub mod wgl;
pub mod web;
pub mod single_value_channel;
pub mod application_messages;
