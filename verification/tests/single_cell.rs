use signature_rs::{compute_hash_vectorized, compute_signature_3x3};

const DEFAULT_SEED: u64 = 67890;

#[test]
fn test_compute_signature_3x3() {
    let source: [u32; 9] = [1u32, 2, 3, 4, 5, 6, 7, 8, 9];
    let signature: u64 = compute_signature_3x3(Some(&source), DEFAULT_SEED);
    assert_ne!(signature, 0);
}

#[test]
fn test_identical_inputs_produce_same_signature() {
    let source1: [u32; 9] = [1u32, 2, 3, 4, 5, 6, 7, 8, 9];
    let source2: [u32; 9] = [1u32, 2, 3, 4, 5, 6, 7, 8, 9];

    let sig1: u64 = compute_signature_3x3(Some(&source1), DEFAULT_SEED);
    let sig2: u64 = compute_signature_3x3(Some(&source2), DEFAULT_SEED);

    assert_eq!(sig1, sig2);
}

#[test]
fn test_different_seeds_produce_different_signatures() {
    let source: [u32; 9] = [1u32, 2, 3, 4, 5, 6, 7, 8, 9];

    let sig1: u64 = compute_signature_3x3(Some(&source), 12345);
    let sig2: u64 = compute_signature_3x3(Some(&source), 54321);

    assert_ne!(sig1, sig2);
}

#[test]
fn single_cell_has_its_exact_value() {
    let source: [u32; 9] = [1, 2, 3, 4, 5, 6, 7, 8, 9];
    assert_eq!(compute_signature_3x3(Some(&source), DEFAULT_SEED), 0x6e1fe37ccb5f6f34);
    assert_eq!(compute_signature_3x3(Some(&source), 12345), 0xde1ed303ea6a7ab5);
    assert_eq!(compute_signature_3x3(Some(&source), 54321), 0xe02e12742badf4bd);
}

#[test]
fn single_cell_reads_the_samples_row_by_row() {
    let source: [u32; 9] = [10, 20, 30, 40, 50, 60, 70, 80, 90];
    let direct: u64 = compute_hash_vectorized(10, 20, 30, 40, 50, 60, 70, 80, 90, 7);
    assert_eq!(compute_signature_3x3(Some(&source), 7), direct);
}

#[test]
fn single_cell_without_a_neighborhood_is_zero() {
    assert_eq!(compute_signature_3x3(None, 0), 0);
    assert_eq!(compute_signature_3x3(None, 1), 0);
    assert_eq!(compute_signature_3x3(None, DEFAULT_SEED), 0);
    assert_eq!(compute_signature_3x3(None, 12345), 0);
    assert_eq!(compute_signature_3x3(None, u64::MAX), 0);
}

#[test]
fn single_cell_is_repeatable_on_one_buffer() {
    let source: [u32; 9] = [5, 4, 3, 2, 1, 0, 9, 8, 7];
    let first: u64 = compute_signature_3x3(Some(&source), 99);
    let second: u64 = compute_signature_3x3(Some(&source), 99);
    let third: u64 = compute_signature_3x3(Some(&source), 99);
    assert_eq!(first, second);
    assert_eq!(second, third);
}

#[test]
fn single_cell_tells_swapped_corners_apart() {
    let plain: [u32; 9] = [1, 2, 3, 4, 5, 6, 7, 8, 9];
    let swapped: [u32; 9] = [9, 2, 3, 4, 5, 6, 7, 8, 1];
    assert_ne!(
        compute_signature_3x3(Some(&plain), DEFAULT_SEED),
        compute_signature_3x3(Some(&swapped), DEFAULT_SEED)
    );
}
