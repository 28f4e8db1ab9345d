//! Launch arguments.

use vstd::prelude::*;

verus! {

/// The arguments of one launch.
#[derive(Clone, Debug, PartialEq, Eq)]
pub struct CLIArguments {
    /// Path of pipeline configuration file to operate with.
    pub file: String,
    /// Dumps a default configuration into the given file.
    pub default: bool,
    /// Parses the configuration and builds textures, but does not output any
    /// files.
    pub dryrun: bool,
}

/// What a launch does.
#[derive(Clone, Copy, Debug, PartialEq, Eq, Structural)]
pub enum Command {
    /// Write the default configuration to the file and stop.
    WriteDefault,
    /// Run the pipeline that the file describes.
    Run {
        /// Whether the run leaves the outputs unwritten.
        dryrun: bool,
    },
}

impl CLIArguments {
    /// What the arguments ask for: the default configuration where it is
    /// requested, whatever else is set, and a run of the pipeline otherwise.
    pub fn command(&self) -> (command: Command)
        ensures
            command == if self.default {
                Command::WriteDefault
            } else {
                (Command::Run { dryrun: self.dryrun })
            },
    {
        if self.default {
            Command::WriteDefault
        } else {
            Command::Run { dryrun: self.dryrun }
        }
    }
}

} // verus!
