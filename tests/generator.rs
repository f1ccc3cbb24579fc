use snowflake::generator::{decompose, Generator, IdError, IdParts, EPOCH};

/// Asks again while the current millisecond's sequence is spent.
fn next_blocking(generator: &mut Generator) -> Result<i64, IdError> {
    loop {
        match generator.next_id() {
            Err(IdError::SequenceExhausted) => continue,
            r => return r,
        }
    }
}

#[test]
fn it_works() {
    let mut generator = Generator::new(0, 0);
    let id1 = next_blocking(&mut generator).unwrap();
    let id2 = next_blocking(&mut generator).unwrap();
    println!("id1: {}, id2: {}", id1, id2);
    assert_ne!(id1, id2);
}

#[test]
fn it_really_works() {
    let mut generator = Generator::new(1, 1);
    let mut set = std::collections::HashSet::<i64>::new();

    for _ in 0..1_000_000 {
        let id = next_blocking(&mut generator).unwrap();
        println!("id = {}", id);
        set.insert(id);
    }

    assert_eq!(set.len(), 1_000_000)
}

#[test]
fn fixed_clock_scenario() {
    let mut generator = Generator::new(1, 1);
    let first = generator.next_id_at(EPOCH + 1000).unwrap();
    assert_eq!(first, (1000 << 22) | (1 << 17) | (1 << 12) | 0);
    let second = generator.next_id_at(EPOCH + 1000).unwrap();
    assert_eq!(second, (1000 << 22) | (1 << 17) | (1 << 12) | 1);
}

#[test]
fn clock_regression_keeps_state() {
    let mut generator = Generator::new(3, 2);
    let first = generator.next_id_at(EPOCH + 500).unwrap();
    assert_eq!(generator.next_id_at(EPOCH + 499), Err(IdError::ClockRegression));
    assert_eq!(generator.next_id_at(EPOCH + 499), Err(IdError::ClockRegression));
    let second = generator.next_id_at(EPOCH + 500).unwrap();
    assert_eq!(second, first + 1);
}

#[test]
fn clock_outside_window() {
    let mut generator = Generator::new(0, 0);
    assert_eq!(generator.next_id_at(EPOCH - 1), Err(IdError::ClockOutOfRange));
    assert_eq!(generator.next_id_at(EPOCH + (1i64 << 41)), Err(IdError::ClockOutOfRange));
    assert_eq!(generator.next_id_at(EPOCH + (1i64 << 41) - 1), Ok(((1i64 << 41) - 1) << 22));
    assert_eq!(generator.next_id_at(EPOCH), Err(IdError::ClockRegression));
}

#[test]
fn sequence_wraps_to_next_millisecond() {
    let mut generator = Generator::new(2, 7);
    let t = EPOCH + 123_456;
    for expected in 0..4096i64 {
        let id = generator.next_id_at(t).unwrap();
        let parts = decompose(id);
        assert_eq!(parts.timestamp_offset, 123_456);
        assert_eq!(parts.sequence, expected);
    }
    assert_eq!(generator.next_id_at(t), Err(IdError::SequenceExhausted));
    assert_eq!(generator.next_id_at(t), Err(IdError::SequenceExhausted));
    let id = generator.next_id_at(t + 1).unwrap();
    let parts = decompose(id);
    assert_eq!(parts.timestamp_offset, 123_457);
    assert_eq!(parts.sequence, 0);
}

#[test]
fn ids_increase_on_a_moving_clock() {
    let mut generator = Generator::new(31, 31);
    let mut last = -1i64;
    let times = [EPOCH, EPOCH, EPOCH + 1, EPOCH + 5, EPOCH + 5, EPOCH + 5, EPOCH + 90];
    for t in times {
        let id = generator.next_id_at(t).unwrap();
        assert!(id > last);
        last = id;
    }
}

#[test]
fn layout_round_trip() {
    let mut generator = Generator::new(17, 9);
    let id = generator.next_id_at(EPOCH + 77).unwrap();
    generator.next_id_at(EPOCH + 77).unwrap();
    let id2 = generator.next_id_at(EPOCH + 77).unwrap();
    assert_eq!(
        decompose(id),
        IdParts { timestamp_offset: 77, node_id: 17, datacenter_id: 9, sequence: 0 }
    );
    assert_eq!(
        decompose(id2),
        IdParts { timestamp_offset: 77, node_id: 17, datacenter_id: 9, sequence: 2 }
    );
    assert_eq!(generator.node_id(), 17);
    assert_eq!(generator.datacenter_id(), 9);
}

#[test]
fn live_clock_ids_decompose() {
    let mut generator = Generator::new(4, 5);
    let id = next_blocking(&mut generator).unwrap();
    let parts = decompose(id);
    assert!(parts.timestamp_offset > 0);
    assert_eq!(parts.node_id, 4);
    assert_eq!(parts.datacenter_id, 5);
}

#[test]
fn error_messages() {
    assert_eq!(IdError::ClockRegression.message(), "it appears that time is moving backwards");
    assert!(!IdError::ClockOutOfRange.message().is_empty());
    assert!(!IdError::SequenceExhausted.message().is_empty());
}
