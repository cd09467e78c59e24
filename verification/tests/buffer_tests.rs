use doorknob::buffers::SpeakerBufferStore;

const A: u32 = 5;
const B: u32 = 6;

#[test]
fn drain_of_an_absent_buffer_is_empty_and_silent() {
    let mut store = SpeakerBufferStore::new();
    assert_eq!(store.drain(A), Vec::<i16>::new());
    assert!(!store.has_buffer(A));
}

#[test]
fn append_creates_then_extends_in_order() {
    let mut store = SpeakerBufferStore::new();
    store.append(A, &vec![1, 2]);
    store.append(B, &vec![9]);
    store.append(A, &vec![3]);
    assert_eq!(store.buffered_len(A), 3);
    assert_eq!(store.buffered_len(B), 1);
    assert_eq!(store.drain(A), vec![1, 2, 3]);
}

#[test]
fn drain_is_the_turn_boundary() {
    let mut store = SpeakerBufferStore::new();
    store.append(A, &vec![1, 2]);
    let artifact = store.drain(A);
    assert_eq!(artifact, vec![1, 2]);
    assert_eq!(store.buffered_len(A), 0);
    // Samples appended after the drain form the next artifact alone.
    store.append(A, &vec![3]);
    assert_eq!(artifact, vec![1, 2]);
    assert_eq!(store.drain(A), vec![3]);
}

#[test]
fn flush_returns_only_nonempty_buffers_and_resets_all() {
    let mut store = SpeakerBufferStore::new();
    store.ensure_entry(A);
    store.append(B, &vec![7]);
    let flushed = store.flush_nonempty();
    assert_eq!(flushed, vec![(B, vec![7])]);
    assert!(store.has_buffer(A));
    assert!(store.has_buffer(B));
    assert_eq!(store.buffered_len(B), 0);
    assert!(store.flush_nonempty().is_empty());
}
