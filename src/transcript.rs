use vstd::prelude::*;

use crate::chunks::{chunk_count, planned_chunk, plan_chunks, ChunkRange};
use crate::error::SetupError;
use crate::sizing::{ceremony_size, ConstraintCounts};

verus! {

/// `2^k`.
pub open spec fn pow2(k: nat) -> nat
    decreases k,
{
    if k == 0 {
        1
    } else {
        2 * pow2((k - 1) as nat)
    }
}

proof fn lemma_pow2_monotone(a: nat, b: nat)
    requires
        a <= b,
    ensures
        pow2(a) <= pow2(b),
    decreases b,
{
    if a < b {
        lemma_pow2_monotone(a, (b - 1) as nat);
    }
}

/// A transcript of `2^phase1_powers` powers is enough for a ceremony of
/// `ceremony_size` powers.
pub open spec fn transcript_suffices(phase1_powers: nat, ceremony_size: nat) -> bool {
    pow2(phase1_powers) >= ceremony_size
}

/// Checks, from the transcript's declared exponent alone, that it holds
/// `ceremony_size` powers.
pub fn check_transcript(phase1_powers: usize, ceremony_size: usize) -> (r: Result<(), SetupError>)
    ensures
        r is Ok <==> transcript_suffices(phase1_powers as nat, ceremony_size as nat),
        r is Err ==> r == Err::<(), SetupError>(
            SetupError::InsufficientTranscript { phase1_powers, ceremony_size },
        ),
{
    let mut available: usize = 1;
    let mut k: usize = 0;
    while k < phase1_powers && available < ceremony_size && available <= usize::MAX / 2
        invariant
            available as nat == pow2(k as nat),
            k <= phase1_powers,
        decreases phase1_powers - k,
    {
        available = available * 2;
        k = k + 1;
    }
    proof {
        lemma_pow2_monotone(k as nat, phase1_powers as nat);
        if k < phase1_powers && available < ceremony_size {
            lemma_pow2_monotone((k + 1) as nat, phase1_powers as nat);
        }
    }
    if k == phase1_powers && available < ceremony_size {
        Err(SetupError::InsufficientTranscript { phase1_powers, ceremony_size })
    } else {
        Ok(())
    }
}

/// What a generation run works from: the ceremony size of the circuit and the
/// chunks that cover it.
#[derive(Clone, Debug)]
pub struct GenerationPlan {
    pub ceremony_size: usize,
    pub chunks: Vec<ChunkRange>,
}

/// Decides, before any transcript access or output, whether a run can go
/// ahead: a zero chunk size is refused first, then a transcript too small for
/// the circuit's ceremony size; otherwise the plan holds that size and its
/// chunks.
pub fn plan_generation(counts: &ConstraintCounts, phase1_powers: usize, chunk_size: usize) -> (r:
    Result<GenerationPlan, SetupError>)
    requires
        counts.fits(),
    ensures
        chunk_size == 0 <==> r == Err::<GenerationPlan, SetupError>(SetupError::ZeroChunkSize),
        r matches Err(SetupError::InsufficientTranscript { phase1_powers: p, ceremony_size: s })
            ==> p == phase1_powers && counts.is_ceremony_size(s as nat) && !transcript_suffices(
            p as nat,
            s as nat,
        ),
        chunk_size > 0 ==> (r is Ok <==> (forall|s: nat|
            #[trigger] counts.is_ceremony_size(s) ==> transcript_suffices(phase1_powers as nat, s))),
        r matches Ok(plan) ==> {
            &&& counts.is_ceremony_size(plan.ceremony_size as nat)
            &&& transcript_suffices(phase1_powers as nat, plan.ceremony_size as nat)
            &&& plan.chunks@.len() == chunk_count(plan.ceremony_size as nat, chunk_size as nat)
            &&& forall|i: int|
                0 <= i < plan.chunks@.len() ==> plan.chunks@[i] == planned_chunk(
                    plan.ceremony_size as nat,
                    chunk_size as nat,
                    i as nat,
                )
        },
{
    if chunk_size == 0 {
        return Err(SetupError::ZeroChunkSize);
    }
    let size = ceremony_size(counts);
    match check_transcript(phase1_powers, size) {
        Err(e) => Err(e),
        Ok(()) => match plan_chunks(size, chunk_size) {
            Ok(chunks) => Ok(GenerationPlan { ceremony_size: size, chunks }),
            Err(e) => Err(e),
        },
    }
}

} // verus!
