use mem_snoop::enumerate::{
    enum_processes, pid_buffer, pid_buffer_bytes, PidQuery, INITIAL_PID_CAPACITY,
    MAX_PID_CAPACITY,
};

fn filled(capacity: usize, live: &[u32]) -> Vec<u32> {
    let mut buffer = pid_buffer(capacity);
    for (slot, pid) in buffer.iter_mut().zip(live.iter()) {
        *slot = *pid;
    }
    buffer
}

#[test]
fn buffer_bytes_are_four_per_identifier() {
    assert_eq!(pid_buffer_bytes(INITIAL_PID_CAPACITY), 4096);
    assert_eq!(pid_buffer_bytes(0), 0);
    assert_eq!(pid_buffer_bytes(MAX_PID_CAPACITY), 4194304);
}

#[test]
fn pid_buffer_is_zeroed_to_capacity() {
    let buffer = pid_buffer(1024);
    assert_eq!(buffer.len(), 1024);
    assert!(buffer.iter().all(|p| *p == 0));
}

#[test]
fn partial_reply_lists_only_reported_prefix() {
    let buffer = filled(8, &[4, 8, 12, 0, 0, 0, 0, 0]);
    assert_eq!(enum_processes(buffer, 12), PidQuery::Complete(vec![4, 8, 12]));
}

#[test]
fn partial_byte_count_rounds_down() {
    let buffer = filled(8, &[4, 8, 12]);
    assert_eq!(enum_processes(buffer, 11), PidQuery::Complete(vec![4, 8]));
}

#[test]
fn empty_reply_lists_nothing() {
    let buffer = pid_buffer(16);
    assert_eq!(enum_processes(buffer, 0), PidQuery::Complete(vec![]));
}

#[test]
fn full_buffer_asks_for_double_room() {
    let live: Vec<u32> = (1..=1024).collect();
    let buffer = filled(1024, &live);
    assert_eq!(enum_processes(buffer, 4096), PidQuery::Retry(2048));
}

#[test]
fn exact_boundary_reads_no_more_than_reported() {
    // N identifiers filling the whole buffer: first a retry, then exactly N.
    let live: Vec<u32> = (1..=1024).map(|i| i * 4).collect();
    let buffer = filled(1024, &live);
    let next = match enum_processes(buffer, 4096) {
        PidQuery::Retry(c) => c,
        other => panic!("expected a retry, got {:?}", other),
    };
    let mut bigger = filled(next, &live);
    bigger[1024] = 99999; // stale data past the reported end
    match enum_processes(bigger, 4096) {
        PidQuery::Complete(pids) => {
            assert_eq!(pids.len(), 1024);
            assert_eq!(pids, live);
        }
        other => panic!("expected a listing, got {:?}", other),
    }
}

#[test]
fn full_buffer_at_maximum_is_taken_as_is() {
    let buffer = filled(MAX_PID_CAPACITY, &[7, 9]);
    match enum_processes(buffer, (MAX_PID_CAPACITY * 4) as u32) {
        PidQuery::Complete(pids) => {
            assert_eq!(pids.len(), MAX_PID_CAPACITY);
            assert_eq!(&pids[..2], &[7, 9]);
        }
        other => panic!("expected a listing, got {:?}", other),
    }
}

#[test]
fn overstated_byte_count_never_reads_past_buffer() {
    let buffer = filled(4, &[1, 2]);
    let q = enum_processes(buffer, 400);
    assert_eq!(q, PidQuery::Retry(8));
    let buffer = filled(MAX_PID_CAPACITY, &[1, 2]);
    match enum_processes(buffer, u32::MAX) {
        PidQuery::Complete(pids) => assert_eq!(pids.len(), MAX_PID_CAPACITY),
        other => panic!("expected a listing, got {:?}", other),
    }
}

#[test]
fn empty_buffer_asks_for_initial_room() {
    assert_eq!(enum_processes(Vec::new(), 0), PidQuery::Retry(INITIAL_PID_CAPACITY));
}

#[test]
fn growth_stops_at_maximum() {
    let buffer = pid_buffer(MAX_PID_CAPACITY / 2 + 1);
    let bytes = ((MAX_PID_CAPACITY / 2 + 1) * 4) as u32;
    assert_eq!(enum_processes(buffer, bytes), PidQuery::Retry(MAX_PID_CAPACITY));
}
