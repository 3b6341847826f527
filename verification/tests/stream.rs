use vocab_train::store::{Store, ValueIter};

#[test]
fn yields_all_values_in_key_order() {
    let store = Store::new(vec![
        b"alpha".to_vec(),
        b"beta".to_vec(),
        b"gamma".to_vec(),
    ]);
    let mut it = ValueIter::new(&store, store.estimated_key_count());
    assert_eq!(it.next(), Some("alpha".to_string()));
    assert_eq!(it.next(), Some("beta".to_string()));
    assert_eq!(it.next(), Some("gamma".to_string()));
    assert_eq!(it.next(), None);
    assert_eq!(it.next(), None);
}

#[test]
fn empty_store_yields_nothing_immediately() {
    let store = Store::new(Vec::new());
    let mut it = ValueIter::new(&store, 0);
    assert_eq!(it.next(), None);
    assert_eq!(it.next(), None);
}

#[test]
fn invalid_utf8_is_replaced_not_an_error() {
    let store = Store::new(vec![
        vec![0xff],
        vec![b'h', 0xff, b'i'],
        vec![0xf0, 0x28, 0x8c, 0x28],
    ]);
    let mut it = ValueIter::new(&store, 3);
    assert_eq!(it.next(), Some("\u{FFFD}".to_string()));
    assert_eq!(it.next(), Some("h\u{FFFD}i".to_string()));
    assert_eq!(it.next(), Some("\u{FFFD}(\u{FFFD}(".to_string()));
    assert_eq!(it.next(), None);
}

#[test]
fn valid_utf8_round_trips_unchanged() {
    let store = Store::new(vec!["héllo wörld".as_bytes().to_vec()]);
    let mut it = ValueIter::new(&store, 1);
    assert_eq!(it.next(), Some("héllo wörld".to_string()));
    assert_eq!(it.next(), None);
}

#[test]
fn read_all_drains_the_stream() {
    let store = Store::new(vec![b"one".to_vec(), b"two".to_vec()]);
    let mut it = ValueIter::new(&store, 2);
    assert_eq!(it.read_all(), vec!["one".to_string(), "two".to_string()]);
    assert_eq!(it.next(), None);
    assert_eq!(it.read_all(), Vec::<String>::new());
}

#[test]
fn read_all_after_partial_iteration_yields_the_rest() {
    let store = Store::new(vec![b"one".to_vec(), b"two".to_vec(), b"three".to_vec()]);
    let mut it = ValueIter::new(&store, 3);
    assert_eq!(it.next(), Some("one".to_string()));
    assert_eq!(it.read_all(), vec!["two".to_string(), "three".to_string()]);
}

#[test]
fn size_hint_reports_the_advisory_estimate() {
    let store = Store::new(vec![b"a".to_vec()]);
    // The estimate is advisory: it need not match the true entry count.
    let it = ValueIter::new(&store, 42);
    assert_eq!(it.size_hint(), (0, Some(42)));
}

#[test]
fn estimated_key_count_is_exact_for_a_snapshot() {
    let store = Store::new(vec![b"a".to_vec(), b"b".to_vec()]);
    assert_eq!(store.estimated_key_count(), 2);
}
