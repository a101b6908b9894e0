use blake2::{Blake2b, Digest};
use setup2::chunks::{plan_chunks, ChunkRange};
use setup2::error::SetupError;
use setup2::modes::{contribution_mode_from_str, curve_from_str, ContributionMode, CurveKind};
use setup2::outputs::{
    chunk_file_name, chunk_manifest, contribution_files, full_file_name, manifest_file_name,
    push_decimal, query_file_name,
};
use setup2::sizing::{ceremony_size, ConstraintCounts};
use setup2::transcript::{check_transcript, plan_generation};

fn counts(public: usize, private: usize, constraints: usize) -> ConstraintCounts {
    ConstraintCounts {
        num_public_variables: public,
        num_private_variables: private,
        num_constraints: constraints,
    }
}

fn range(index: usize, start: usize, end: usize) -> ChunkRange {
    ChunkRange { index, start, end }
}

#[test]
fn ceremony_size_rounds_variables_up() {
    assert_eq!(ceremony_size(&counts(2, 2, 3)), 8);
}

#[test]
fn ceremony_size_keeps_exact_power() {
    assert_eq!(ceremony_size(&counts(1, 2, 4)), 4);
    assert_eq!(ceremony_size(&counts(0, 0, 1024)), 1024);
}

#[test]
fn ceremony_size_follows_constraints() {
    assert_eq!(ceremony_size(&counts(1, 1, 1000)), 1024);
    assert_eq!(ceremony_size(&counts(1, 1, 1025)), 2048);
}

#[test]
fn ceremony_size_of_empty_circuit() {
    assert_eq!(ceremony_size(&counts(0, 0, 0)), 1);
}

#[test]
fn ceremony_size_is_least_power_for_many_counts() {
    for public in 0..20usize {
        for constraints in 0..70usize {
            let c = counts(public, 3, constraints);
            let s = ceremony_size(&c);
            let required = std::cmp::max(constraints, public + 3 + 1);
            assert!(s.is_power_of_two());
            assert!(s >= required);
            assert!(s == 1 || s / 2 < required);
        }
    }
}

#[test]
fn plan_of_thousand_by_256() {
    let plan = plan_chunks(1000, 256).unwrap();
    assert_eq!(
        plan,
        vec![range(0, 0, 256), range(1, 256, 512), range(2, 512, 768), range(3, 768, 1000)]
    );
}

#[test]
fn plan_with_even_division() {
    let plan = plan_chunks(512, 256).unwrap();
    assert_eq!(plan, vec![range(0, 0, 256), range(1, 256, 512)]);
}

#[test]
fn plan_with_chunk_at_least_total() {
    assert_eq!(plan_chunks(8, 8).unwrap(), vec![range(0, 0, 8)]);
    assert_eq!(plan_chunks(8, 100).unwrap(), vec![range(0, 0, 8)]);
}

#[test]
fn plan_of_empty_range() {
    assert_eq!(plan_chunks(0, 4).unwrap(), vec![]);
}

#[test]
fn plan_refuses_zero_chunk_size() {
    assert_eq!(plan_chunks(16, 0), Err(SetupError::ZeroChunkSize));
}

#[test]
fn plan_near_usize_max() {
    let plan = plan_chunks(usize::MAX, usize::MAX / 2 + 1).unwrap();
    assert_eq!(
        plan,
        vec![range(0, 0, usize::MAX / 2 + 1), range(1, usize::MAX / 2 + 1, usize::MAX)]
    );
}

#[test]
fn plans_partition_their_range() {
    for total in 0..60usize {
        for chunk_size in 1..20usize {
            let plan = plan_chunks(total, chunk_size).unwrap();
            assert_eq!(plan.len(), (total + chunk_size - 1) / chunk_size);
            let mut next = 0;
            for (i, c) in plan.iter().enumerate() {
                assert_eq!(c.index, i);
                assert_eq!(c.start, next);
                assert!(c.end > c.start);
                if i + 1 < plan.len() {
                    assert_eq!(c.end - c.start, chunk_size);
                }
                next = c.end;
            }
            assert_eq!(next, total);
        }
    }
}

#[test]
fn transcript_too_small() {
    assert_eq!(
        check_transcript(3, 16),
        Err(SetupError::InsufficientTranscript { phase1_powers: 3, ceremony_size: 16 })
    );
}

#[test]
fn transcript_large_enough() {
    assert_eq!(check_transcript(4, 16), Ok(()));
    assert_eq!(check_transcript(3, 8), Ok(()));
    assert_eq!(check_transcript(0, 1), Ok(()));
    assert_eq!(check_transcript(0, 2), Err(SetupError::InsufficientTranscript {
        phase1_powers: 0,
        ceremony_size: 2
    }));
}

#[test]
fn transcript_with_huge_exponent() {
    assert_eq!(check_transcript(64, usize::MAX), Ok(()));
    assert_eq!(check_transcript(200, usize::MAX), Ok(()));
    assert_eq!(check_transcript(63, 1usize << 63), Ok(()));
    assert_eq!(
        check_transcript(62, (1usize << 62) + 1),
        Err(SetupError::InsufficientTranscript { phase1_powers: 62, ceremony_size: (1usize << 62) + 1 })
    );
}

#[test]
fn generation_fails_on_small_transcript() {
    let c = counts(1, 1, 16);
    assert_eq!(ceremony_size(&c), 16);
    assert_eq!(
        plan_generation(&c, 3, 4).map(|p| p.ceremony_size),
        Err(SetupError::InsufficientTranscript { phase1_powers: 3, ceremony_size: 16 })
    );
}

#[test]
fn generation_refuses_zero_chunk_size_first() {
    let c = counts(1, 1, 16);
    assert_eq!(plan_generation(&c, 3, 0).map(|p| p.ceremony_size), Err(SetupError::ZeroChunkSize));
}

#[test]
fn generation_plan_covers_ceremony() {
    let plan = plan_generation(&counts(2, 2, 3), 3, 3).unwrap();
    assert_eq!(plan.ceremony_size, 8);
    assert_eq!(plan.chunks, vec![range(0, 0, 3), range(1, 3, 6), range(2, 6, 8)]);
}

#[test]
fn curves_by_name() {
    assert_eq!(curve_from_str("bls12_377"), Ok(CurveKind::Bls12_377));
    assert_eq!(curve_from_str("BLS12_377"), Ok(CurveKind::Bls12_377));
    assert_eq!(curve_from_str("bw6"), Ok(CurveKind::BW6));
    assert_eq!(curve_from_str("Bw6"), Ok(CurveKind::BW6));
    assert_eq!(curve_from_str("bn254"), Err("unsupported curve.".to_string()));
    assert_eq!(curve_from_str(""), Err("unsupported curve.".to_string()));
}

#[test]
fn contribution_modes_by_name() {
    assert_eq!(contribution_mode_from_str("full"), Ok(ContributionMode::Full));
    assert_eq!(contribution_mode_from_str("FULL"), Ok(ContributionMode::Full));
    assert_eq!(contribution_mode_from_str("Chunked"), Ok(ContributionMode::Chunked));
    assert_eq!(
        contribution_mode_from_str("partial"),
        Err("unsupported contribution mode. Currently supported: full, chunked".to_string())
    );
}

#[test]
fn decimal_rendering() {
    let mut s = String::from("n=");
    push_decimal(&mut s, 0);
    assert_eq!(s, "n=0");
    let mut t = String::new();
    push_decimal(&mut t, 1234567890);
    assert_eq!(t, "1234567890");
    let mut u = String::new();
    push_decimal(&mut u, usize::MAX);
    assert_eq!(u, usize::MAX.to_string());
}

#[test]
fn file_names() {
    assert_eq!(full_file_name("challenge"), "challenge.full");
    assert_eq!(query_file_name("challenge"), "challenge.query");
    assert_eq!(chunk_file_name("challenge", 0), "challenge.0");
    assert_eq!(chunk_file_name("challenge", 12), "challenge.12");
    assert_eq!(manifest_file_name(), "phase1");
}

#[test]
fn manifest_lists_chunks_in_order() {
    assert_eq!(chunk_manifest("challenge", 3), "challenge.0\nchallenge.1\nchallenge.2\n");
    assert_eq!(chunk_manifest("challenge", 0), "");
}

#[test]
fn emitted_hash_matches_full_bytes() {
    let full: Vec<u8> = (0..200u32).map(|i| (i * 7 % 256) as u8).collect();
    let files = contribution_files("challenge", "challenge.verified.hash", &full, 2);
    let expected = Blake2b::digest(&full).to_vec();
    assert_eq!(files.hash, expected);
    assert_eq!(files.hash.len(), 64);
    assert_ne!(files.hash, full);
    assert_eq!(files.full_name, "challenge.full");
    assert_eq!(files.query_name, "challenge.query");
    assert_eq!(files.chunk_names, vec!["challenge.0".to_string(), "challenge.1".to_string()]);
    assert_eq!(files.manifest_name, "phase1");
    assert_eq!(files.manifest, "challenge.0\nchallenge.1\n");
    assert_eq!(files.hash_name, "challenge.verified.hash.query");
}

#[test]
fn hash_of_empty_parameters() {
    let files = contribution_files("c", "h", &Vec::new(), 0);
    assert_eq!(files.hash, Blake2b::digest(&[]).to_vec());
    assert_eq!(files.hash.len(), 64);
    assert!(files.chunk_names.is_empty());
    assert_eq!(files.manifest, "");
}
