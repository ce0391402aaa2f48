//! Core logic of the Sonic Flow music player: playlists with shuffle and
//! repeat, audio format detection, display formatting, metadata mapping,
//! shader source preparation, the shader engine and visual effects, and
//! performance advice.

pub mod time;
pub mod text;
pub mod paths;
pub mod format;
pub mod shuffle;
pub mod clock;
pub mod playlist;
pub mod playlist_laws;
pub mod utils;
pub mod duration_text;
pub mod scan;
pub mod strops;
pub mod shader_types;
pub mod compiler;
pub mod errors;
pub mod tags;
pub mod numparse;
pub mod metadata;
pub mod performance;
pub mod frame_history;
pub mod renderer;
pub mod engine;
pub mod blending;
pub mod effects;
pub mod effects_manager;
pub mod control;
pub mod controller;
pub mod player_thread;
pub mod decoding;
