//! Backend logic of a League of Legends clip tool: recording state, event
//! de-duplication, ffmpeg replay-buffer planning, OBS WebSocket messages,
//! capture-device listing and saved-clip ordering.
#![allow(non_snake_case)]

pub mod text;
pub mod scan;
pub mod devices;
pub mod status;
pub mod events;
pub mod settings;
pub mod clock;
pub mod ffmpeg;
pub mod obs;
pub mod notify;
pub mod videos;
pub mod lol;
pub mod db;
