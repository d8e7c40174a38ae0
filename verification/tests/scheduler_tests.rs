use orientation_telemetry::direction::Direction;
use orientation_telemetry::payload::PAYLOAD_LEN;
use orientation_telemetry::payload::TelemetryRecord;
use orientation_telemetry::payload::decode_payload;
use orientation_telemetry::payload::encode_payload;
use orientation_telemetry::scheduler::DrainOutcome;
use orientation_telemetry::scheduler::SampleOutcome;
use orientation_telemetry::scheduler::SampleScheduler;
use orientation_telemetry::scheduler::SensorError;
use orientation_telemetry::vector::RawSample;
use orientation_telemetry::vector::UnitVector;

fn eastward() -> RawSample {
    // Sensor y maps to board x, so this reading tilts the board east.
    RawSample { x: 0, y: 16384, z: 0 }
}

fn expect_sampled(r: SampleOutcome) -> (Option<Direction>, bool) {
    match r {
        SampleOutcome::Sampled { direction, stored } => (direction, stored),
        other => panic!("expected a classified sample, got {:?}", other),
    }
}

#[test]
fn one_retry_recovers_without_a_dropped_sample() {
    let mut s = SampleScheduler::new(1);

    // First attempt fails; the policy of one retry asks for another read
    // and the annunciator is not touched.
    let r = s.produce_sample(Err(SensorError));
    assert!(matches!(r, SampleOutcome::Retry));

    // The second attempt succeeds: the sample is classified, shown and
    // stored, so nothing was dropped and no output glitch occurred.
    let (direction, stored) = expect_sampled(s.produce_sample(Ok(eastward())));
    assert_eq!(direction, Some(Direction::East));
    assert!(stored);
    assert_eq!(s.attempt_drain(), DrainOutcome::Drained { len: PAYLOAD_LEN });
}

#[test]
fn exhausted_retry_budget_escalates() {
    let mut s = SampleScheduler::new(1);
    assert!(matches!(s.produce_sample(Err(SensorError)), SampleOutcome::Retry));
    assert!(matches!(s.produce_sample(Err(SensorError)), SampleOutcome::Fatal));

    let mut s = SampleScheduler::new(0);
    assert!(matches!(s.produce_sample(Err(SensorError)), SampleOutcome::Fatal));
}

#[test]
fn a_success_resets_the_retry_budget() {
    let mut s = SampleScheduler::new(1);
    assert!(matches!(s.produce_sample(Err(SensorError)), SampleOutcome::Retry));
    expect_sampled(s.produce_sample(Ok(eastward())));
    // The budget is whole again after the success.
    assert!(matches!(s.produce_sample(Err(SensorError)), SampleOutcome::Retry));
    assert!(matches!(s.produce_sample(Err(SensorError)), SampleOutcome::Fatal));
}

#[test]
fn degenerate_reading_is_skipped_not_fatal() {
    let mut s = SampleScheduler::new(1);
    let r = s.produce_sample(Ok(RawSample { x: 0, y: 0, z: 0 }));
    assert!(matches!(r, SampleOutcome::Skipped));
    assert_eq!(s.attempt_drain(), DrainOutcome::Idle);
}

#[test]
fn a_flat_sample_is_shown_as_flat_and_still_recorded() {
    let mut s = SampleScheduler::new(0);
    let (direction, stored) = expect_sampled(s.produce_sample(Ok(RawSample { x: 0, y: 0, z: 16384 })));
    assert_eq!(direction, None);
    assert!(stored);
}

#[test]
fn backpressure_drops_the_fifth_record_silently() {
    let mut s = SampleScheduler::new(0);
    for _ in 0..4 {
        let (_, stored) = expect_sampled(s.produce_sample(Ok(eastward())));
        assert!(stored);
    }
    // The ring holds 64 bytes now; the next record does not fit and is
    // dropped without an error.
    let (direction, stored) = expect_sampled(s.produce_sample(Ok(eastward())));
    assert_eq!(direction, Some(Direction::East));
    assert!(!stored);

    // Draining frees the space again.
    assert_eq!(s.attempt_drain(), DrainOutcome::Drained { len: 64 });
    let (_, stored) = expect_sampled(s.produce_sample(Ok(eastward())));
    assert!(stored);
}

#[test]
fn idle_drain_is_not_an_error() {
    let mut s = SampleScheduler::new(3);
    assert_eq!(s.attempt_drain(), DrainOutcome::Idle);
    assert_eq!(s.attempt_drain(), DrainOutcome::Idle);
}

#[test]
fn payload_round_trips_through_the_record_schema() {
    let u = UnitVector { x: 800, y: -600, z: 0 };
    let bytes = encode_payload(&u, Some(Direction::SouthEast));
    assert_eq!(bytes.len(), PAYLOAD_LEN);
    let rec: TelemetryRecord = decode_payload(&bytes).unwrap();
    assert_eq!(rec.unit, u);
    assert_eq!(rec.direction, Some(Direction::SouthEast));

    let flat = UnitVector { x: 0, y: 0, z: 1000 };
    let bytes = encode_payload(&flat, None);
    assert_eq!(bytes[0], 8);
    let rec = decode_payload(&bytes).unwrap();
    assert_eq!(rec.unit, flat);
    assert_eq!(rec.direction, None);
}

#[test]
fn payload_encoding_is_the_documented_layout() {
    let u = UnitVector { x: 0, y: 0, z: 1000 };
    let bytes = encode_payload(&u, None);
    // Biased components: 0 becomes 1000, 1000 becomes 2000, little endian.
    assert_eq!(
        bytes,
        vec![8, 232, 3, 232, 3, 208, 7, 0, 0, 0, 0, 0, 0, 0, 0, 0]
    );
}

#[test]
fn malformed_payloads_are_rejected() {
    assert!(decode_payload(&vec![0u8; 15]).is_none());
    assert!(decode_payload(&vec![0u8; 17]).is_none());
    let mut bad_code = encode_payload(&UnitVector { x: 0, y: 0, z: 1000 }, None);
    bad_code[0] = 9;
    assert!(decode_payload(&bad_code).is_none());
    let mut bad_component = encode_payload(&UnitVector { x: 0, y: 0, z: 1000 }, None);
    bad_component[1] = 255;
    bad_component[2] = 255;
    assert!(decode_payload(&bad_component).is_none());
}
