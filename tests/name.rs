use mem_snoop::name::{
    module_base_name, name_buffer, NameError, NameQuery, INITIAL_NAME_CAPACITY,
    MAX_NAME_CAPACITY,
};

/// What the OS does: copy as much of `name` as fits and return the count.
fn os_writes(buffer: &mut Vec<u8>, name: &[u8]) -> u32 {
    let n = name.len().min(buffer.len());
    buffer[..n].copy_from_slice(&name[..n]);
    n as u32
}

#[test]
fn name_buffer_length_is_the_room() {
    let b = name_buffer(INITIAL_NAME_CAPACITY);
    assert_eq!(b.len(), 64);
    assert!(b.iter().all(|x| *x == 0));
}

#[test]
fn short_name_is_resolved() {
    let mut b = name_buffer(64);
    let n = os_writes(&mut b, b"notepad.exe");
    assert_eq!(module_base_name(b, n, 0), NameQuery::Resolved("notepad.exe".to_string()));
}

#[test]
fn zero_count_fails_with_last_error() {
    let b = name_buffer(64);
    assert_eq!(module_base_name(b, 0, 5), NameQuery::Failed(NameError::Os(5)));
}

#[test]
fn invalid_bytes_are_an_error_not_a_panic() {
    let mut b = name_buffer(64);
    let n = os_writes(&mut b, &[0x61, 0xff, 0xfe, 0x62]);
    assert_eq!(module_base_name(b, n, 0), NameQuery::Failed(NameError::Undecodable));
}

#[test]
fn long_name_is_not_capped_at_initial_room() {
    let long: Vec<u8> = std::iter::repeat(b'x').take(100).chain(b".exe".iter().copied()).collect();
    let mut capacity = INITIAL_NAME_CAPACITY;
    let mut rounds = 0;
    let name = loop {
        rounds += 1;
        let mut b = name_buffer(capacity);
        let n = os_writes(&mut b, &long);
        match module_base_name(b, n, 0) {
            NameQuery::Resolved(s) => break s,
            NameQuery::Retry(c) => capacity = c,
            NameQuery::Failed(e) => panic!("unexpected failure {:?}", e),
        }
    };
    assert_eq!(rounds, 2);
    assert_eq!(name.len(), 104);
    assert_eq!(name.as_bytes(), &long[..]);
}

#[test]
fn name_filling_buffer_exactly_asks_again() {
    let mut b = name_buffer(64);
    let n = os_writes(&mut b, &[b'a'; 64]);
    assert_eq!(module_base_name(b, n, 0), NameQuery::Retry(128));
}

#[test]
fn full_buffer_at_maximum_is_taken() {
    let mut b = name_buffer(MAX_NAME_CAPACITY);
    let n = os_writes(&mut b, &vec![b'z'; MAX_NAME_CAPACITY + 10]);
    match module_base_name(b, n, 0) {
        NameQuery::Resolved(s) => assert_eq!(s.len(), MAX_NAME_CAPACITY),
        other => panic!("expected a name, got {:?}", other),
    }
}

#[test]
fn reported_length_decides_not_terminator() {
    let mut b = name_buffer(64);
    os_writes(&mut b, b"abc.exe");
    assert_eq!(module_base_name(b, 3, 0), NameQuery::Resolved("abc".to_string()));
}

#[test]
fn multibyte_name_is_decoded() {
    let mut b = name_buffer(64);
    let n = os_writes(&mut b, "é.exe".as_bytes());
    assert_eq!(module_base_name(b, n, 0), NameQuery::Resolved("é.exe".to_string()));
}

#[test]
fn empty_buffer_asks_for_initial_name_room() {
    assert_eq!(module_base_name(Vec::new(), 3, 0), NameQuery::Retry(INITIAL_NAME_CAPACITY));
}
