use demo_sqlite::state::{InMemoryZoneState, InscriptionInfo, MsgId, ZoneState};

fn id(b: u8) -> MsgId {
    MsgId([b; 32])
}

fn info(b: u8, payload: &[u8]) -> InscriptionInfo {
    InscriptionInfo { this_msg: id(b), payload: payload.to_vec() }
}

fn ids(msgs: &[demo_sqlite::state::Msg]) -> Vec<u8> {
    msgs.iter().map(|m| m.msg_id.0[0]).collect()
}

#[test]
fn msg_id_comparison() {
    assert!(id(3).same_as(&id(3)));
    assert!(!id(3).same_as(&id(4)));
    let mut a = [7u8; 32];
    let b = [7u8; 32];
    a[31] = 8;
    assert!(!MsgId(a).same_as(&MsgId(b)));
}

#[test]
fn new_state_is_empty() {
    let s = InMemoryZoneState::new();
    assert!(s.published().is_empty());
    assert!(s.finalized().is_empty());
}

#[test]
fn published_messages_keep_submit_order() {
    let mut s = InMemoryZoneState::new();
    s.on_published(&info(1, b"a"));
    s.on_published(&info(2, b"b"));
    assert_eq!(ids(s.published()), vec![1, 2]);
    assert_eq!(s.published()[1].payload, b"b".to_vec());
    assert!(s.finalized().is_empty());
}

#[test]
fn finalizing_moves_published_to_finalized() {
    let mut s = InMemoryZoneState::new();
    s.on_published(&info(1, b"a"));
    s.on_published(&info(2, b"b"));
    s.on_finalized(&[info(2, b"b"), info(9, b"other")]);
    assert_eq!(ids(s.published()), vec![1]);
    assert_eq!(ids(s.finalized()), vec![2, 9]);
    assert_eq!(s.finalized()[1].payload, b"other".to_vec());
}

#[test]
fn finalized_is_deduplicated_by_id() {
    let mut s = InMemoryZoneState::new();
    s.on_finalized(&[info(5, b"first"), info(5, b"second")]);
    assert_eq!(ids(s.finalized()), vec![5]);
    assert_eq!(s.finalized()[0].payload, b"first".to_vec());
}

#[test]
fn replaying_backfill_is_harmless() {
    let batch = [info(1, b"x"), info(2, b"y"), info(3, b"z")];
    let mut s = InMemoryZoneState::new();
    s.on_published(&info(2, b"y"));
    s.on_published(&info(4, b"w"));
    s.on_finalized(&batch);
    let fin_once = ids(s.finalized());
    let pub_once = ids(s.published());
    s.on_finalized(&batch);
    assert_eq!(ids(s.finalized()), fin_once);
    assert_eq!(ids(s.published()), pub_once);
    assert_eq!(fin_once, vec![1, 2, 3]);
    assert_eq!(pub_once, vec![4]);
}

#[test]
fn duplicate_published_ids_leave_one_per_finalization() {
    let mut s = InMemoryZoneState::new();
    s.on_published(&info(7, b"a"));
    s.on_published(&info(7, b"b"));
    s.on_finalized(&[info(7, b"a")]);
    assert_eq!(ids(s.published()), vec![7]);
    assert_eq!(s.published()[0].payload, b"b".to_vec());
    // a second delivery of the same inscription takes out the other copy
    s.on_finalized(&[info(7, b"a")]);
    assert!(s.published().is_empty());
    assert_eq!(ids(s.finalized()), vec![7]);
}

#[test]
fn earlier_finalized_messages_stay_in_front() {
    let mut s = InMemoryZoneState::new();
    s.on_finalized(&[info(1, b"")]);
    s.on_finalized(&[info(3, b""), info(1, b""), info(2, b"")]);
    assert_eq!(ids(s.finalized()), vec![1, 3, 2]);
}

#[test]
fn inscription_copy_is_equal() {
    let i = info(6, b"payload");
    let c = i.duplicate();
    assert!(c.this_msg.same_as(&i.this_msg));
    assert_eq!(c.payload, i.payload);
}

#[test]
fn default_state_is_empty() {
    let s = InMemoryZoneState::default();
    assert!(s.published().is_empty());
    assert!(s.finalized().is_empty());
}
