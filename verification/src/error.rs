//! What can go wrong in a run, and at which stage.

use vstd::prelude::*;

verus! {

/// The stages of a run, in the order in which they are passed.
#[derive(Clone, Copy, Debug, PartialEq, Eq, Structural)]
pub enum Stage {
    /// Obtaining the bearer token.
    Auth,
    /// Fetching the alarm records.
    Fetch,
    /// Writing the page.
    Write,
}

/// Why no token was obtained.
#[derive(Clone, Copy, Debug, PartialEq, Eq, Structural)]
pub enum AuthError {
    /// The token endpoint gave no response.
    Unreachable,
    /// The token endpoint answered with a status outside 200..=299.
    Status { status: u16 },
    /// The body is not a JSON object with a string member `token`.
    Body,
    /// The token holds a character that no header value may hold.
    Unsendable,
}

/// Why a body of the data endpoint was not read as an envelope.
#[derive(Clone, Copy, Debug, PartialEq, Eq, Structural)]
pub enum DecodeError {
    /// The body is not a JSON text.
    Syntax,
    /// The document is not an object with a list member `results`.
    MissingResults,
    /// The list `results` is empty.
    EmptyResults,
    /// A result set is not an object with a list member `data`, or one of its
    /// items is not a record.
    Malformed,
}

/// Why a run was abandoned.
#[derive(Clone, Copy, Debug, PartialEq, Eq, Structural)]
pub enum PipelineError {
    /// No token was obtained.
    Auth(AuthError),
    /// The data endpoint gave no response.
    Transport,
    /// The data endpoint answered with a status outside 200..=299.
    Upstream { status: u16 },
    /// The data endpoint's body was not read as an envelope.
    Decode(DecodeError),
    /// The sink refused the page.
    Sink,
}

impl PipelineError {
    /// The stage at which a run fails with this error.
    pub open spec fn stage_of(self) -> Stage {
        match self {
            PipelineError::Auth(_) => Stage::Auth,
            PipelineError::Transport => Stage::Fetch,
            PipelineError::Upstream { .. } => Stage::Fetch,
            PipelineError::Decode(_) => Stage::Fetch,
            PipelineError::Sink => Stage::Write,
        }
    }

    /// The stage at which a run fails with this error.
    pub fn stage(&self) -> (stage: Stage)
        ensures
            stage == self.stage_of(),
    {
        match self {
            PipelineError::Auth(_) => Stage::Auth,
            PipelineError::Transport => Stage::Fetch,
            PipelineError::Upstream { .. } => Stage::Fetch,
            PipelineError::Decode(_) => Stage::Fetch,
            PipelineError::Sink => Stage::Write,
        }
    }
}

} // verus!
