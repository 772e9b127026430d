use ssh_probe::throughput::{
    bytes_per_second, upload_chunk, Direction, StopReason, ThroughputEvent, ThroughputMeter,
    ThroughputStep, CHUNK_SIZE, TARGET_BYTES,
};

#[test]
fn upload_stops_at_target() {
    let mut m = ThroughputMeter::new(Direction::Upload, TARGET_BYTES);
    let mut chunks = 0;
    while !m.is_done() {
        let step = m.on_event(ThroughputEvent::Transferred(CHUNK_SIZE as u64));
        chunks += 1;
        if chunks < 100 {
            assert_eq!(step, ThroughputStep::Continue);
        } else {
            assert_eq!(step, ThroughputStep::Stop(StopReason::TargetReached));
        }
    }
    assert_eq!(chunks, 100);
    assert_eq!(m.transferred(), 409_600);
}

#[test]
fn download_ends_on_empty_read() {
    let mut m = ThroughputMeter::new(Direction::Download, TARGET_BYTES);
    assert_eq!(m.on_event(ThroughputEvent::Transferred(1000)), ThroughputStep::Continue);
    assert_eq!(
        m.on_event(ThroughputEvent::Transferred(0)),
        ThroughputStep::Stop(StopReason::EndOfStream)
    );
    assert!(m.is_done());
    assert_eq!(m.transferred(), 1000);
}

#[test]
fn upload_zero_write_continues() {
    let mut m = ThroughputMeter::new(Direction::Upload, 10);
    assert_eq!(m.on_event(ThroughputEvent::Transferred(0)), ThroughputStep::Continue);
    assert!(!m.is_done());
}

#[test]
fn tick_changes_nothing() {
    let mut m = ThroughputMeter::new(Direction::Download, 10);
    m.on_event(ThroughputEvent::Transferred(4));
    assert_eq!(m.on_event(ThroughputEvent::Tick), ThroughputStep::Continue);
    assert_eq!(m.transferred(), 4);
}

#[test]
fn cancel_stops_probe() {
    let mut m = ThroughputMeter::new(Direction::Upload, TARGET_BYTES);
    m.on_event(ThroughputEvent::Transferred(4096));
    assert_eq!(
        m.on_event(ThroughputEvent::Cancelled),
        ThroughputStep::Stop(StopReason::Cancelled)
    );
    assert!(m.is_done());
    assert_eq!(m.transferred(), 4096);
}

#[test]
fn transferred_saturates() {
    let mut m = ThroughputMeter::new(Direction::Upload, u64::MAX);
    m.on_event(ThroughputEvent::Transferred(u64::MAX - 1));
    assert_eq!(
        m.on_event(ThroughputEvent::Transferred(5)),
        ThroughputStep::Stop(StopReason::TargetReached)
    );
    assert_eq!(m.transferred(), u64::MAX);
}

#[test]
fn zero_target_is_done_at_once() {
    assert!(ThroughputMeter::new(Direction::Upload, 0).is_done());
}

#[test]
fn rate_in_bytes_per_second() {
    assert_eq!(bytes_per_second(409_600, 2_000_000), Some(204_800));
    assert_eq!(bytes_per_second(1500, 500_000), Some(3000));
    assert_eq!(bytes_per_second(10, 3_000_000), Some(3));
    assert_eq!(bytes_per_second(10, 0), None);
    assert_eq!(bytes_per_second(u64::MAX, 1), Some(u64::MAX));
}

#[test]
fn upload_chunk_content() {
    let v = upload_chunk();
    assert_eq!(v.len(), 4096);
    assert_eq!(v[0], 0);
    assert_eq!(v[254], 254);
    assert_eq!(v[255], 0);
    assert_eq!(v[4095], (4095 % 255) as u8);
}
