use tuimodplayer::moment::{read_validate, MomentPublisher, MomentState};

fn snap(order: usize, row: usize) -> MomentState {
    MomentState { order, pattern: 0, row, speed: 6, tempo: 125 }
}

#[test]
fn publish_bumps_version_by_two() {
    let mut p = MomentPublisher::new();
    assert_eq!(p.read_version(), 0);
    p.publish(snap(1, 2));
    assert_eq!(p.read_version(), 2);
    assert_eq!(p.read(), snap(1, 2));
    p.publish(snap(3, 4));
    assert_eq!(p.read_version(), 4);
    assert_eq!(p.read(), snap(3, 4));
}

#[test]
fn validated_read_is_accepted_when_idle() {
    let mut p = MomentPublisher::new();
    p.publish(snap(7, 1));
    let v1 = p.read_version();
    let data = p.read();
    let v2 = p.read_version();
    assert!(read_validate(v1, v2));
    assert_eq!(data, snap(7, 1));
}

#[test]
fn read_overlapping_a_write_is_rejected() {
    let mut p = MomentPublisher::new();
    p.publish(snap(1, 1));

    // Reader samples the counter, then the writer completes a whole
    // publication before the second sample: versions differ.
    let v1 = p.read_version();
    p.publish(snap(2, 2));
    let v2 = p.read_version();
    assert!(!read_validate(v1, v2));

    // Reader lands in the middle of a write: the first sample is odd.
    p.begin_write();
    let v1 = p.read_version();
    let _torn = p.read();
    p.store(snap(3, 3));
    p.end_write();
    let v2 = p.read_version();
    assert!(!read_validate(v1, v2));

    // Write begins after the first sample: samples differ.
    let v1 = p.read_version();
    p.begin_write();
    p.store(snap(4, 4));
    let v2 = p.read_version();
    assert!(!read_validate(v1, v2));
    p.end_write();
}

#[test]
fn accepted_reads_meet_the_writer_invariant() {
    // One writer keeps order < order_count in every snapshot it stores; a
    // reader checks the invariant on every accepted read.
    let order_count = 8usize;
    let mut p = MomentPublisher::new();
    let mut accepted = 0;
    for i in 0..32usize {
        p.publish(snap(i % order_count, i));
        let v1 = p.read_version();
        let data = p.read();
        let v2 = p.read_version();
        if read_validate(v1, v2) {
            accepted += 1;
            assert!(data.order < order_count);
        }
    }
    assert_eq!(accepted, 32);
}

#[test]
fn default_moment_is_zeroed() {
    let m = MomentState::default();
    assert_eq!(m.order, 0);
    assert_eq!(m.pattern, 0);
    assert_eq!(m.row, 0);
    assert_eq!(m.speed, 0);
    assert_eq!(m.tempo, 0);
}
