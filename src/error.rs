use vstd::prelude::*;

verus! {

/// Why a generation run stops before it writes anything.
#[derive(Clone, Copy, Debug, PartialEq, Eq, Structural)]
pub enum SetupError {
    /// The chunk size is zero.
    ZeroChunkSize,
    /// The phase-1 transcript, with `2^phase1_powers` powers, is smaller than
    /// the ceremony size.
    InsufficientTranscript { phase1_powers: usize, ceremony_size: usize },
}

} // verus!
