use tapevm::state::State;

#[test]
fn new_has_default_tape() {
    let st = State::new();
    assert_eq!(st.data.len(), 30000);
    assert!(st.data.iter().all(|&b| b == 0));
    assert_eq!(st.data_ptr, 0);
    assert!(st.ins.is_empty());
    assert_eq!(st.ins_ptr, 0);
}

#[test]
fn new_with_size_sets_tape_length() {
    let st = State::new_with_size(7);
    assert_eq!(st.data.len(), 7);
    assert!(st.data.iter().all(|&b| b == 0));
}

#[test]
fn push_appends_in_order() {
    let mut st = State::new_with_size(3);
    st.push(b"+-");
    st.push(b"<>");
    assert_eq!(st.ins, b"+-<>".to_vec());
    assert_eq!(st.ins_ptr, 0);
    assert_eq!(st.data_ptr, 0);
}
