use vstd::prelude::*;
use vstd::string::StringExecFns;

verus! {

/// The pairing curve that a ceremony runs over.
#[derive(Debug, Clone, Copy, PartialEq, Eq, Structural)]
pub enum CurveKind {
    Bls12_377,
    BW6,
}

/// Whether contributions cover the whole parameter set or one chunk at a time.
#[derive(Clone, PartialEq, Eq, Debug, Copy, Structural)]
pub enum ContributionMode {
    Full,
    Chunked,
}

/// The settings of a generation run.
#[derive(Debug, Clone)]
pub struct NewOpts {
    pub help: bool,
    /// The total number of coefficients, in powers of two, created by phase 1.
    pub phase1_size: u32,
    /// The challenge file name to be created.
    pub output: String,
    /// The elliptic curve to use.
    pub curve_type: CurveKind,
    /// The contribution mode.
    pub contribution_mode: ContributionMode,
    /// The chunk size.
    pub chunk_size: usize,
    /// The size of batches to process.
    pub batch_size: usize,
    /// Whether the inner (`"true"`) or the outer circuit is set up.
    pub is_inner: String,
    /// The stem of the emitted parameter files.
    pub challenge_fname: String,
    /// The stem of the emitted hash file.
    pub challenge_hash_fname: String,
    /// The response file to verify.
    pub response_fname: String,
    /// The new challenge file generated in response.
    pub new_challenge_fname: String,
    /// The phase-1 transcript file.
    pub phase1_fname: String,
    /// The exponent of the phase-1 transcript's size: it holds
    /// `2^phase1_powers` powers.
    pub phase1_powers: usize,
    /// The number of validators.
    pub num_validators: usize,
    /// The number of epochs.
    pub num_epochs: usize,
}

/// What `str::to_lowercase` makes of a string.
pub uninterp spec fn lower_of(s: Seq<char>) -> Seq<char>;

/// Relies on `str::to_lowercase`: the result is a function of the characters
/// alone, and the empty string stays empty.
#[verifier::external_body]
fn lowercase(s: &str) -> (r: String)
    ensures
        r@ == lower_of(s@),
        s@.len() == 0 ==> r@.len() == 0,
{
    s.to_lowercase()
}

/// The curve that a lower-case name denotes, if any.
pub open spec fn curve_named(name: Seq<char>) -> Option<CurveKind> {
    if name == "bls12_377"@ {
        Some(CurveKind::Bls12_377)
    } else if name == "bw6"@ {
        Some(CurveKind::BW6)
    } else {
        None
    }
}

/// The contribution mode that a lower-case name denotes, if any.
pub open spec fn contribution_mode_named(name: Seq<char>) -> Option<ContributionMode> {
    if name == "full"@ {
        Some(ContributionMode::Full)
    } else if name == "chunked"@ {
        Some(ContributionMode::Chunked)
    } else {
        None
    }
}

/// The message given for a curve name that is not supported.
pub open spec fn unsupported_curve_message() -> Seq<char> {
    "unsupported curve."@
}

/// The message given for a contribution mode that is not supported.
pub open spec fn unsupported_mode_message() -> Seq<char> {
    "unsupported contribution mode. Currently supported: full, chunked"@
}

/// Reads a curve from its already lower-cased name.
pub fn curve_from_lowercase(name: &String) -> (r: Result<CurveKind, String>)
    ensures
        match curve_named(name@) {
            Some(k) => r == Ok::<CurveKind, String>(k),
            None => r matches Err(e) && e@ == unsupported_curve_message(),
        },
{
    let bls = String::from_str("bls12_377");
    let bw6 = String::from_str("bw6");
    proof {
        reveal_strlit("bls12_377");
        reveal_strlit("bw6");
    }
    if *name == bls {
        Ok(CurveKind::Bls12_377)
    } else if *name == bw6 {
        Ok(CurveKind::BW6)
    } else {
        proof {
            reveal_strlit("unsupported curve.");
        }
        Err(String::from_str("unsupported curve."))
    }
}

/// Reads a curve from its name, in any case.
pub fn curve_from_str(src: &str) -> (r: Result<CurveKind, String>)
    ensures
        match curve_named(lower_of(src@)) {
            Some(k) => r == Ok::<CurveKind, String>(k),
            None => r matches Err(e) && e@ == unsupported_curve_message(),
        },
{
    curve_from_lowercase(&lowercase(src))
}

/// Reads a contribution mode from its already lower-cased name.
pub fn contribution_mode_from_lowercase(name: &String) -> (r: Result<ContributionMode, String>)
    ensures
        match contribution_mode_named(name@) {
            Some(m) => r == Ok::<ContributionMode, String>(m),
            None => r matches Err(e) && e@ == unsupported_mode_message(),
        },
{
    let full = String::from_str("full");
    let chunked = String::from_str("chunked");
    proof {
        reveal_strlit("full");
        reveal_strlit("chunked");
    }
    if *name == full {
        Ok(ContributionMode::Full)
    } else if *name == chunked {
        Ok(ContributionMode::Chunked)
    } else {
        proof {
            reveal_strlit("unsupported contribution mode. Currently supported: full, chunked");
        }
        Err(String::from_str("unsupported contribution mode. Currently supported: full, chunked"))
    }
}

/// Reads a contribution mode from its name, in any case.
pub fn contribution_mode_from_str(src: &str) -> (r: Result<ContributionMode, String>)
    ensures
        match contribution_mode_named(lower_of(src@)) {
            Some(m) => r == Ok::<ContributionMode, String>(m),
            None => r matches Err(e) && e@ == unsupported_mode_message(),
        },
{
    contribution_mode_from_lowercase(&lowercase(src))
}

} // verus!
