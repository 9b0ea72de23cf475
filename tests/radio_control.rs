use radio_control::vehicle::{normalize_raw, CHANNEL_COUNT, MAX_RAW, SIMULATED_SAMPLE};
use radio_control::{
    ChannelAddressing, DisconnectedRadio, PollChannels, PollData, RadioControlError, RadioError,
    Ratio, VehicleRadio,
};

// The simulated backends report synthetic values, not readings from hardware.

fn value(r: Ratio) -> f64 {
    r.numerator as f64 / r.denominator as f64
}

#[test]
fn enumeration_and_poll_on_reference_backend() {
    let radio = VehicleRadio::new(());
    assert_eq!(radio.number_of_channels(), Ok(8));
    assert_eq!(radio.poll_raw_data(&0), Ok(1234));
    let n = radio.poll_normalized_data(&0).unwrap();
    assert_eq!(n, Ratio { numerator: 1234, denominator: 65535 });
    assert!((value(n) - 1234.0 / 65535.0).abs() < 1e-9);
    assert!((value(n) - 0.01883).abs() < 1e-5);
}

#[test]
fn constants_of_reference_backend() {
    assert_eq!(CHANNEL_COUNT, 8);
    assert_eq!(SIMULATED_SAMPLE, 1234);
    assert_eq!(MAX_RAW, u16::MAX);
}

#[test]
fn set_channel_succeeds_and_changes_no_poll() {
    let mut radio = VehicleRadio::new(());
    let before: Vec<_> = (0..10usize).map(|c| radio.poll_raw_data(&c)).collect();
    for handle in [0usize, 3, 7, 8, 1000, usize::MAX] {
        assert_eq!(radio.set_channel(&handle), Ok(()));
        let after: Vec<_> = (0..10usize).map(|c| radio.poll_raw_data(&c)).collect();
        assert_eq!(before, after);
    }
}

#[test]
fn disconnected_backend_fails_enumeration_and_consumer_stops() {
    let radio = DisconnectedRadio::new(());
    let mut polls = 0usize;
    let outcome = match radio.number_of_channels() {
        Ok(n) => {
            for c in 0..n {
                polls += 1;
                let _ = radio.poll_raw_data(&c);
            }
            Ok(n)
        }
        Err(e) => Err(e),
    };
    assert_eq!(outcome, Err(RadioControlError::CommunicationError));
    assert_eq!(polls, 0);
}

#[test]
fn disconnected_backend_rejects_selection_and_polls() {
    let mut radio = DisconnectedRadio::new(5u8);
    assert_eq!(radio.set_channel(&0), Err(RadioControlError::CommunicationError));
    assert_eq!(radio.poll_raw_data(&0), Err(RadioControlError::DataError));
    assert_eq!(radio.poll_normalized_data(&0), Err(RadioControlError::DataError));
}

#[test]
fn out_of_range_handle_is_data_error() {
    let radio = VehicleRadio::new(());
    let n = radio.number_of_channels().unwrap();
    for handle in [n, n + 1, 100, usize::MAX] {
        assert_eq!(radio.poll_raw_data(&handle), Err(RadioControlError::DataError));
        assert_eq!(radio.poll_normalized_data(&handle), Err(RadioControlError::DataError));
    }
    assert_eq!(radio.poll_raw_data(&(n - 1)), Ok(1234));
}

#[test]
fn raw_and_normalized_polls_agree() {
    let radio = VehicleRadio::new(());
    for c in 0..12usize {
        match (radio.poll_raw_data(&c), radio.poll_normalized_data(&c)) {
            (Ok(raw), Ok(n)) => assert_eq!(n, normalize_raw(raw)),
            (Err(a), Err(b)) => assert_eq!(a.kind(), b.kind()),
            other => panic!("polls disagree on channel {}: {:?}", c, other),
        }
    }
}

#[test]
fn normalization_divides_by_max_raw() {
    for raw in [0u16, 1, 1234, 32768, 65534, 65535] {
        let n = normalize_raw(raw);
        assert_eq!(n.numerator, raw);
        assert_eq!(n.denominator, 65535);
        assert!((value(n) - raw as f64 / 65535.0).abs() < 1e-12);
    }
    assert_eq!(value(normalize_raw(0)), 0.0);
    assert_eq!(value(normalize_raw(65535)), 1.0);
}

#[test]
fn normalization_is_monotonic() {
    let raws = [0u16, 1, 2, 1000, 1234, 40000, 65534, 65535];
    for w in raws.windows(2) {
        assert!(value(normalize_raw(w[0])) <= value(normalize_raw(w[1])));
    }
}

#[test]
fn enumeration_is_idempotent() {
    let radio = VehicleRadio::new(());
    let first = radio.number_of_channels();
    let second = radio.number_of_channels();
    assert_eq!(first, second);
    assert_eq!(second, Ok(8));
}

#[test]
fn error_kinds_and_retry_policy() {
    assert!(RadioControlError::CommunicationError.is_retryable());
    assert!(!RadioControlError::DataError.is_retryable());
    assert!(!RadioControlError::HardwareError.is_retryable());
    for e in [
        RadioControlError::CommunicationError,
        RadioControlError::DataError,
        RadioControlError::HardwareError,
    ] {
        assert_eq!(e.kind(), e);
    }
}

#[test]
fn backend_owns_its_device() {
    let radio = VehicleRadio::new(String::from("receiver"));
    assert_eq!(radio.device_ref(), "receiver");
    assert_eq!(radio.into_device(), "receiver");
}
