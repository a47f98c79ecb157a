use vstd::prelude::*;

verus! {

#[verifier::external_type_specification]
#[verifier::external_body]
pub struct ExIoError(std::io::Error);

/// Why a thread of the engine failed.
#[derive(Debug)]
pub enum ThreadError {
    /// Spawning or running the thread failed in the operating system.
    IO(std::io::Error),
    /// Anything else, described.
    Other(String),
}

} // verus!
