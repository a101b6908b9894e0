use vstd::prelude::*;
use vstd::string::StringExecFns;

verus! {

/// The decimal digit `d`.
pub open spec fn digit_char(d: nat) -> char {
    if d == 0 {
        '0'
    } else if d == 1 {
        '1'
    } else if d == 2 {
        '2'
    } else if d == 3 {
        '3'
    } else if d == 4 {
        '4'
    } else if d == 5 {
        '5'
    } else if d == 6 {
        '6'
    } else if d == 7 {
        '7'
    } else if d == 8 {
        '8'
    } else {
        '9'
    }
}

/// `n` written in decimal, without leading zeros.
pub open spec fn decimal(n: nat) -> Seq<char>
    decreases n,
{
    if n < 10 {
        seq![digit_char(n)]
    } else {
        decimal(n / 10) + seq![digit_char(n % 10)]
    }
}

/// `<stem>.full`: the file of the full parameter set.
pub open spec fn full_name(stem: Seq<char>) -> Seq<char> {
    stem + ".full"@
}

/// `<stem>.query`: the file of the query parameters, or of the hash.
pub open spec fn query_name(stem: Seq<char>) -> Seq<char> {
    stem + ".query"@
}

/// `<stem>.<index>`: the file of one chunk.
pub open spec fn chunk_name(stem: Seq<char>, index: nat) -> Seq<char> {
    stem + "."@ + decimal(index)
}

/// The chunk manifest of the first `n` chunks: each chunk's file name on a
/// line of its own, in index order.
pub open spec fn manifest_text(stem: Seq<char>, n: nat) -> Seq<char>
    decreases n,
{
    if n == 0 {
        Seq::empty()
    } else {
        manifest_text(stem, (n - 1) as nat) + chunk_name(stem, (n - 1) as nat) + "\n"@
    }
}

/// The name of the chunk manifest file, the fixed hand-off name that the next
/// stage of the ceremony reads.
pub open spec fn manifest_name() -> Seq<char> {
    "phase1"@
}

fn digit_str(d: usize) -> (r: &'static str)
    requires
        d < 10,
    ensures
        r@ == seq![digit_char(d as nat)],
{
    proof {
        reveal_strlit("0");
        reveal_strlit("1");
        reveal_strlit("2");
        reveal_strlit("3");
        reveal_strlit("4");
        reveal_strlit("5");
        reveal_strlit("6");
        reveal_strlit("7");
        reveal_strlit("8");
        reveal_strlit("9");
    }
    if d == 0 {
        "0"
    } else if d == 1 {
        "1"
    } else if d == 2 {
        "2"
    } else if d == 3 {
        "3"
    } else if d == 4 {
        "4"
    } else if d == 5 {
        "5"
    } else if d == 6 {
        "6"
    } else if d == 7 {
        "7"
    } else if d == 8 {
        "8"
    } else {
        "9"
    }
}

/// Appends `n` in decimal to `out`.
pub fn push_decimal(out: &mut String, n: usize)
    ensures
        final(out)@ == old(out)@ + decimal(n as nat),
    decreases n,
{
    if n >= 10 {
        push_decimal(out, n / 10);
    }
    out.append(digit_str(n % 10));
}

/// The file name of the full parameter set.
pub fn full_file_name(stem: &str) -> (r: String)
    ensures
        r@ == full_name(stem@),
{
    proof {
        reveal_strlit(".full");
    }
    String::from_str(stem).concat(".full")
}

/// The file name of the query parameters; with the hash stem, that of the hash.
pub fn query_file_name(stem: &str) -> (r: String)
    ensures
        r@ == query_name(stem@),
{
    proof {
        reveal_strlit(".query");
    }
    String::from_str(stem).concat(".query")
}

/// The file name of chunk `index`.
pub fn chunk_file_name(stem: &str, index: usize) -> (r: String)
    ensures
        r@ == chunk_name(stem@, index as nat),
{
    proof {
        reveal_strlit(".");
    }
    let mut name = String::from_str(stem).concat(".");
    push_decimal(&mut name, index);
    name
}

/// The text of the chunk manifest for `num_chunks` chunks.
pub fn chunk_manifest(stem: &str, num_chunks: usize) -> (r: String)
    ensures
        r@ == manifest_text(stem@, num_chunks as nat),
{
    proof {
        reveal_strlit("\n");
    }
    let mut text = String::new();
    let mut i: usize = 0;
    while i < num_chunks
        invariant
            i <= num_chunks,
            text@ == manifest_text(stem@, i as nat),
        decreases num_chunks - i,
    {
        let name = chunk_file_name(stem, i);
        text.append(name.as_str());
        text.append("\n");
        i = i + 1;
    }
    text
}

/// The name of the chunk manifest file.
pub fn manifest_file_name() -> (r: String)
    ensures
        r@ == manifest_name(),
{
    proof {
        reveal_strlit("phase1");
    }
    String::from_str("phase1")
}

/// What BLAKE2b-512 makes of a byte string.
pub uninterp spec fn blake2b_512(bytes: Seq<u8>) -> Seq<u8>;

/// Relies on `blake2::Blake2b` (BLAKE2b with a 64-byte output) through
/// `digest::Digest::digest`: the digest of the bytes, 64 bytes long.
#[verifier::external_body]
fn blake2b_digest(bytes: &Vec<u8>) -> (r: Vec<u8>)
    ensures
        r@ == blake2b_512(bytes@),
        r@.len() == 64,
{
    <blake2::Blake2b as blake2::Digest>::digest(bytes.as_slice()).to_vec()
}

/// The names and derived contents of every file that a run emits, besides
/// the serialized parameters themselves.
#[derive(Clone, Debug)]
pub struct ContributionFiles {
    pub full_name: String,
    pub query_name: String,
    pub chunk_names: Vec<String>,
    pub manifest_name: String,
    pub manifest: String,
    pub hash_name: String,
    pub hash: Vec<u8>,
}

/// Lays out a run's outputs: `<challenge>.full`, `<challenge>.query`,
/// `<challenge>.<i>` for each chunk, the chunk manifest, and
/// `<hash_stem>.query` holding the hash of the full parameters' bytes.
pub fn contribution_files(challenge: &str, hash_stem: &str, full: &Vec<u8>, num_chunks: usize) -> (r:
    ContributionFiles)
    ensures
        r.full_name@ == full_name(challenge@),
        r.query_name@ == query_name(challenge@),
        r.chunk_names@.len() == num_chunks,
        forall|i: int|
            0 <= i < num_chunks ==> (#[trigger] r.chunk_names@[i])@ == chunk_name(
                challenge@,
                i as nat,
            ),
        r.manifest_name@ == manifest_name(),
        r.manifest@ == manifest_text(challenge@, num_chunks as nat),
        r.hash_name@ == query_name(hash_stem@),
        r.hash@ == blake2b_512(full@),
        r.hash@.len() == 64,
{
    let mut chunk_names: Vec<String> = Vec::new();
    let mut i: usize = 0;
    while i < num_chunks
        invariant
            i <= num_chunks,
            chunk_names@.len() == i,
            forall|j: int|
                0 <= j < i ==> (#[trigger] chunk_names@[j])@ == chunk_name(challenge@, j as nat),
        decreases num_chunks - i,
    {
        chunk_names.push(chunk_file_name(challenge, i));
        i = i + 1;
    }
    ContributionFiles {
        full_name: full_file_name(challenge),
        query_name: query_file_name(challenge),
        chunk_names,
        manifest_name: manifest_file_name(),
        manifest: chunk_manifest(challenge, num_chunks),
        hash_name: query_file_name(hash_stem),
        hash: blake2b_digest(full),
    }
}

} // verus!
