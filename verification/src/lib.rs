//! Conversion between animated GIF and MP4 through FFmpeg: the decisions that
//! the command-line tool makes before it starts FFmpeg, with their contracts.

pub mod text;
pub mod paths;
pub mod media;
pub mod converter;
pub mod ffmpeg;
pub mod cli;
