use netbench::stats::{bandwidth_of, summarize};
use netbench::transfer::{
    default_payload_sizes, finish_transfer, zero_payload, SizeRun, TransferError,
    DEFAULT_ITERATIONS, MIB, QUIESCENCE_DELAY_MILLIS,
};

#[test]
fn run_constants() {
    assert_eq!(MIB, 1024 * 1024);
    assert_eq!(DEFAULT_ITERATIONS, 5);
    assert_eq!(QUIESCENCE_DELAY_MILLIS, 100);
    assert_eq!(default_payload_sizes(), vec![MIB, 2 * MIB, 5 * MIB, 10 * MIB]);
}

#[test]
fn zero_payload_has_exact_size() {
    let p = zero_payload(5);
    assert_eq!(p, vec![0u8; 5]);
    assert_eq!(zero_payload(0).len(), 0);
    assert_eq!(zero_payload(1_048_576).len(), 1_048_576);
}

#[test]
fn finish_transfer_on_good_ack() {
    let ack = b"received".to_vec();
    let t = finish_transfer(1_048_576, 2_000_000_000, &ack).unwrap();
    assert_eq!(t.payload_size, 1_048_576);
    assert_eq!(t.elapsed_nanos, 2_000_000_000);
    assert_eq!(t.bandwidth.num, 1_048_576 * 8000);
    assert_eq!(t.bandwidth.den, 2_000_000_000);
}

#[test]
fn finish_transfer_rejects_any_other_ack() {
    let wrong = b"Received".to_vec();
    assert_eq!(
        finish_transfer(1_048_576, 2_000_000_000, &wrong),
        Err(TransferError::AckMismatch)
    );
    let short = b"receive".to_vec();
    assert_eq!(
        finish_transfer(1_048_576, 2_000_000_000, &short),
        Err(TransferError::AckMismatch)
    );
    let empty = Vec::new();
    assert_eq!(
        finish_transfer(1_048_576, 2_000_000_000, &empty),
        Err(TransferError::AckMismatch)
    );
}

#[test]
fn one_mib_five_iterations_yields_five_samples() {
    // One payload size, five iterations: exactly five bandwidth samples,
    // reduced to a summary.
    let mut run = SizeRun::new(MIB, DEFAULT_ITERATIONS);
    // Elapsed intervals with a coarse tick, so the exact common
    // denominator of the mean stays within a u128 fraction.
    let elapsed = [1_000u64, 2_000, 4_000, 5_000, 8_000];
    for nanos in elapsed {
        assert!(!run.is_complete());
        let sample = bandwidth_of(MIB, nanos).unwrap();
        run.record(sample);
    }
    assert!(run.is_complete());
    assert_eq!(run.samples.len(), 5);
    assert!(!run.needs_delay());

    let s = run.summarize().unwrap();
    // The slowest transfer is the minimum bandwidth, the fastest the maximum.
    assert_eq!(s.minimum, bandwidth_of(MIB, 8_000).unwrap());
    assert_eq!(s.maximum, bandwidth_of(MIB, 1_000).unwrap());

    // Removing one sample changes the average but keeps min <= avg <= max.
    let mut fewer = run.samples.clone();
    fewer.pop();
    let s4 = summarize(&fewer).unwrap();
    assert!(s.average.num * s4.average.den != s4.average.num * s.average.den);
    assert!(
        (s4.minimum.num as u128) * s4.average.den <= s4.average.num * (s4.minimum.den as u128)
    );
    assert!(
        s4.average.num * (s4.maximum.den as u128) <= (s4.maximum.num as u128) * s4.average.den
    );
}

#[test]
fn quiescence_delay_between_but_not_after_last() {
    let mut run = SizeRun::new(MIB, 3);
    let sample = bandwidth_of(MIB, 1_000).unwrap();
    run.record(sample);
    assert!(run.needs_delay());
    run.record(sample);
    assert!(run.needs_delay());
    run.record(sample);
    assert!(!run.needs_delay());
    assert!(run.is_complete());
}
