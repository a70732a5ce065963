//! The command-line surface, as plain data.
//!
//! The unverified shell parses arguments into these types (through its
//! own derive-carrying copies) and dispatches on them; here they are
//! bare values that contracts can speak about.

use vstd::prelude::*;
use crate::text::base_url_for;

verus! {

/// Global options and the selected command.
#[derive(Debug, PartialEq)]
pub struct Cli {
    /// Use the local server instead of production.
    pub local: bool,
    /// Output raw machine-oriented JSON, with no human status replacement.
    pub porcelain: bool,
    /// The selected command.
    pub command: Commands,
}

/// The top-level commands.
#[derive(Debug, PartialEq)]
pub enum Commands {
    /// Animation-related operations.
    Animations { action: AnimationCommands },
}

/// The animation operations.
#[derive(Debug, PartialEq)]
pub enum AnimationCommands {
    /// Retrieve one animation, or list all of them when `id` is absent.
    Get { id: Option<String> },
    /// Generate a new animation.
    Generate {
        prompt: String,
        block: bool,
        output_file: Option<String>,
        input_image: Option<String>,
        model_id: Option<u32>,
        model_name: Option<String>,
        silent: bool,
        duration: u32,
    },
    /// Display instructions for cropping an animation result.
    Crop { animation_result_id: Option<String> },
    /// Regenerate an animation from an existing animation identifier.
    Regenerate { animation_id: String },
}

impl Cli {
    /// The base endpoint this invocation talks to.
    pub fn base_url(&self) -> (s: &'static str)
        ensures
            self.local ==> s@ == "http://localhost:8000"@,
            !self.local ==> s@ == "https://gametorch.app"@,
    {
        base_url_for(self.local)
    }
}

} // verus!
