//! The commands the tool accepts, as plain data. Reading them from the
//! command line is left to the program around this library.

use vstd::prelude::*;
use crate::converter::ConversionOptions;

verus! {

/// A parsed command line.
#[derive(Debug, PartialEq, Eq)]
pub struct Cli {
    pub command: CliCommand,
}

/// The subcommands.
#[derive(Debug, PartialEq, Eq)]
pub enum CliCommand {
    /// Convert one file, GIF to MP4 or MP4 to GIF.
    Convert {
        input_path: String,
        output_path: Option<String>,
        frames_per_second: u32,
        output_width: Option<u32>,
        constant_rate_factor: u8,
    },
    /// Convert every media file matching a glob pattern.
    Batch {
        pattern: String,
        output_dir: Option<String>,
        frames_per_second: u32,
        output_width: Option<u32>,
        constant_rate_factor: u8,
    },
    /// Check that FFmpeg can be found and run.
    Doctor,
}

impl CliCommand {
    /// The conversion options a command carries; `None` for `Doctor`.
    pub fn conversion_options(&self) -> (res: Option<ConversionOptions>)
        ensures
            match self {
                CliCommand::Convert { frames_per_second, output_width, constant_rate_factor, .. }
                | CliCommand::Batch { frames_per_second, output_width, constant_rate_factor, .. } =>
                    res == Some(ConversionOptions {
                        frames_per_second: *frames_per_second,
                        output_width: *output_width,
                        constant_rate_factor: *constant_rate_factor,
                    }),
                CliCommand::Doctor => res is None,
            },
    {
        match self {
            CliCommand::Convert { frames_per_second, output_width, constant_rate_factor, .. } => Some(ConversionOptions {
                frames_per_second: *frames_per_second,
                output_width: *output_width,
                constant_rate_factor: *constant_rate_factor,
            }),
            CliCommand::Batch { frames_per_second, output_width, constant_rate_factor, .. } => Some(ConversionOptions {
                frames_per_second: *frames_per_second,
                output_width: *output_width,
                constant_rate_factor: *constant_rate_factor,
            }),
            CliCommand::Doctor => None,
        }
    }
}

} // verus!
