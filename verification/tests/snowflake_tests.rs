use snowflake_id::EpochRegister;
use snowflake_id::Snowflake;
use snowflake_id::SnowflakeError;

#[test]
fn test_error_messages() {
    let clock_err = SnowflakeError::ClockBackwards;
    assert_eq!(
        clock_err.message(),
        "Clock moved backwards, time drift detected"
    );

    let arg_err = SnowflakeError::InvalidArgument("test message".into());
    assert_eq!(arg_err.message(), "Invalid argument: test message");

    let lock_err = SnowflakeError::PoisonedLock;
    assert_eq!(lock_err.message(), "Mutex lock poisoned due to thread panic");
}

#[test]
fn test_error_source() {
    let err = SnowflakeError::ClockBackwards;
    assert!(err.source().is_none());
}

#[test]
fn test_invalid_arguments() {
    match Snowflake::new(32, 0) {
        Err(SnowflakeError::InvalidArgument(msg)) => {
            assert!(msg.contains("must be between 0 and 31"))
        }
        _ => panic!("Should return InvalidArgument error"),
    }

    match Snowflake::new(0, 32) {
        Err(SnowflakeError::InvalidArgument(msg)) => {
            assert!(msg.contains("must be between 0 and 31"))
        }
        _ => panic!("Should return InvalidArgument error"),
    }
}

#[test]
fn test_valid_identity_bounds() {
    assert!(Snowflake::new(31, 31).is_ok());
    assert!(Snowflake::new(0, 0).is_ok());
    assert!(Snowflake::new(32, 0).is_err());
    assert!(Snowflake::new(0, 32).is_err());
}

#[test]
fn test_sequence_rollover() {
    let mut generator = Snowflake::new(1, 1).unwrap();
    let frozen_now: u64 = 42;

    for expected_sequence in 0..4096u64 {
        let id = generator.next_id_at(frozen_now, 0).unwrap();
        assert_eq!(id & 0xFFF, expected_sequence);
    }
    assert_eq!(generator.last_timestamp(), frozen_now);
    assert_eq!(generator.sequence(), 4095);

    // The sequence space of this millisecond is exhausted; the generator must
    // wait for the next millisecond boundary, after which the sequence
    // restarts at zero.
    let id = generator.next_id_at(frozen_now + 1, 0).unwrap();
    assert_eq!(id & 0xFFF, 0);
    assert_eq!(generator.last_timestamp(), frozen_now + 1);
}

#[test]
fn test_clock_regression() {
    let mut generator = Snowflake::new(2, 3).unwrap();
    let first = generator.next_id_at(100, 0).unwrap();

    let regressed = generator.next_id_at(99, 0);
    assert!(matches!(regressed, Err(SnowflakeError::ClockBackwards)));
    assert_eq!(generator.last_timestamp(), 100);
    assert_eq!(generator.sequence(), 0);

    let recovered = generator.next_id_at(101, 0).unwrap();
    assert!(recovered > first);
    assert_eq!(generator.last_timestamp(), 101);
}

#[test]
fn test_epoch_round_trip() {
    let mut register = EpochRegister::new();
    register.set_epoch("2021-01-01T00:00:00Z").unwrap();
    let epoch = register.get_epoch();
    assert_eq!(epoch, 1609459200000);

    // One second past the epoch: the decoded timestamp delta is 1000 ms.
    let mut generator = Snowflake::new(1, 1).unwrap();
    let id = generator.next_id_at(epoch + 1000, epoch).unwrap();
    assert_eq!(id >> 22, 1000);
}

#[test]
fn test_bit_field_decode() {
    let mut generator = Snowflake::new(5, 7).unwrap();
    let mut ids = Vec::new();
    ids.push(generator.next_id_at(1_700_000_000_000, 1_600_000_000_000).unwrap());
    ids.push(generator.next_id_at(1_700_000_000_000, 1_600_000_000_000).unwrap());
    ids.push(generator.next_id_at(1_700_000_000_500, 1_600_000_000_000).unwrap());
    for id in ids {
        assert_eq!((id >> 17) & 0x1F, 5);
        assert_eq!((id >> 12) & 0x1F, 7);
        assert!(id & 0xFFF <= 4095);
    }
}

#[test]
fn test_default_epoch() {
    let register = EpochRegister::new();
    assert_eq!(register.get_epoch(), 1609459200000);
}

#[test]
fn test_set_epoch_rejects_malformed() {
    let mut register = EpochRegister::new();
    let result = register.set_epoch("not a timestamp");
    assert!(result.is_err());
    assert_eq!(
        result.unwrap_err().message(),
        "malformed RFC3339 timestamp"
    );
    // The register is unchanged by the failed call.
    assert_eq!(register.get_epoch(), 1609459200000);
}

#[test]
fn test_set_epoch_known_values() {
    let mut register = EpochRegister::new();
    register.set_epoch("1970-01-01T00:00:01Z").unwrap();
    assert_eq!(register.get_epoch(), 1000);
    register.set_epoch("2021-01-01T00:00:00+00:00").unwrap();
    assert_eq!(register.get_epoch(), 1609459200000);
}

#[test]
fn test_pack_exact_value() {
    // (1000 << 22) | (5 << 17) | (7 << 12) | 12
    assert_eq!(snowflake_id::layout::pack_id(1000, 5, 7, 12), 4194988044);
}

#[test]
fn test_set_epoch_before_unix_epoch() {
    // One second before the Unix epoch parses to -1000 ms and is stored
    // reinterpreted modulo 2^64.
    let mut register = EpochRegister::new();
    register.set_epoch("1969-12-31T23:59:59Z").unwrap();
    assert_eq!(register.get_epoch(), u64::MAX - 999);
}

#[test]
fn test_next_id_real_clock() {
    let register = EpochRegister::new();
    let mut generator = Snowflake::new(3, 4).unwrap();
    let a = generator.next_id(&register).unwrap();
    let b = generator.next_id(&register).unwrap();
    assert!(b > a);
    assert_eq!((a >> 17) & 0x1F, 3);
    assert_eq!((a >> 12) & 0x1F, 4);
    // The wall clock lies after the 2021 default epoch, so the timestamp
    // delta field is nonzero.
    assert!(a >> 22 > 0);
}

#[test]
fn test_uniqueness_and_monotonicity() {
    let register = EpochRegister::new();
    let mut generator = Snowflake::new(0, 0).unwrap();
    let mut previous = generator.next_id(&register).unwrap();
    for _ in 0..10000 {
        let id = generator.next_id(&register).unwrap();
        assert!(id > previous);
        previous = id;
    }
}
