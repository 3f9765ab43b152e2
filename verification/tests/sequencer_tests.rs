use demo_sqlite::sequencer::{
    batch_payload, channel_id_text, collect_inscriptions, handle_event, parse_node_url, parse_queue,
    signing_key_bytes, Event, FinalizedOp, FinalizedTx, SequencerError, ED25519_SECRET_KEY_SIZE,
};
use demo_sqlite::state::{InMemoryZoneState, InscriptionInfo, MsgId, ZoneState};

fn info(b: u8, payload: &[u8]) -> InscriptionInfo {
    InscriptionInfo { this_msg: MsgId([b; 32]), payload: payload.to_vec() }
}

#[test]
fn queue_lines_as_a_reader_yields_them() {
    let v = parse_queue(b"INSERT 1;\nINSERT 2;\r\nINSERT 3;").unwrap();
    assert_eq!(v, vec!["INSERT 1;", "INSERT 2;", "INSERT 3;"]);
    let v = parse_queue(b"a\n\nb\n").unwrap();
    assert_eq!(v, vec!["a", "", "b"]);
    assert!(parse_queue(b"").unwrap().is_empty());
    assert_eq!(parse_queue(b"\n").unwrap(), vec![""]);
    // a carriage return without a line feed after it stays
    assert_eq!(parse_queue(b"x\r").unwrap(), vec!["x\r"]);
    assert_eq!(parse_queue(b"x\r\r\n").unwrap(), vec!["x\r"]);
    assert_eq!(parse_queue("grüße\n".as_bytes()).unwrap(), vec!["grüße"]);
}

#[test]
fn a_line_that_is_not_utf8_stops_reading() {
    match parse_queue(b"ok\n\xff\xfe\nlater\n") {
        Err(SequencerError::Io(m)) => assert_eq!(m, "stream did not contain valid UTF-8"),
        _ => panic!("expected an I/O error"),
    }
}

#[test]
fn batch_joins_statements_with_line_feeds() {
    assert_eq!(batch_payload(&[]), None);
    let p = vec!["a;".to_string(), "b;".to_string()];
    assert_eq!(batch_payload(&p), Some(b"a;\nb;".to_vec()));
    assert_eq!(batch_payload(&["only".to_string()]), Some(b"only".to_vec()));
    assert_eq!(batch_payload(&["".to_string()]), Some(Vec::new()));
}

#[test]
fn drained_queue_becomes_its_content_without_final_line_feed() {
    let content = b"CREATE TABLE t(x);\nINSERT INTO t VALUES (1);\n";
    let pending = parse_queue(content).unwrap();
    assert_eq!(batch_payload(&pending).unwrap(), content[..content.len() - 1].to_vec());
}

#[test]
fn sequencer_error_messages() {
    assert_eq!(SequencerError::Url("x".to_string()).message(), "URL parse error: x");
    assert_eq!(SequencerError::Io("y".to_string()).message(), "IO error: y");
    assert_eq!(SequencerError::InscriptionTooLarge("z".to_string()).message(), "Inscription too large: z");
}

#[test]
fn inscriptions_are_collected_in_order() {
    let txs = vec![
        FinalizedTx { ops: vec![FinalizedOp::Other, FinalizedOp::Inscription(info(1, b"a"))] },
        FinalizedTx { ops: vec![] },
        FinalizedTx {
            ops: vec![FinalizedOp::Inscription(info(2, b"b")), FinalizedOp::Inscription(info(3, b"c"))],
        },
    ];
    let all = collect_inscriptions(&txs);
    let ids: Vec<u8> = all.iter().map(|i| i.this_msg.0[0]).collect();
    assert_eq!(ids, vec![1, 2, 3]);
    assert_eq!(all[2].payload, b"c".to_vec());
}

#[test]
fn blocks_processed_updates_state_and_asks_for_a_checkpoint() {
    let mut s = InMemoryZoneState::new();
    s.on_published(&info(2, b"b"));
    let ev = Event::BlocksProcessed {
        finalized: vec![FinalizedTx { ops: vec![FinalizedOp::Inscription(info(2, b"b")), FinalizedOp::Other] }],
    };
    assert!(handle_event(&ev, &mut s));
    assert!(s.published().is_empty());
    assert_eq!(s.finalized().len(), 1);
}

#[test]
fn other_events_change_nothing() {
    let mut s = InMemoryZoneState::new();
    s.on_published(&info(2, b"b"));
    for ev in [Event::Ready, Event::MempoolPending, Event::TurnNotification] {
        assert!(!handle_event(&ev, &mut s));
    }
    assert_eq!(s.published().len(), 1);
    assert!(s.finalized().is_empty());
}

#[test]
fn channel_id_is_lower_hex() {
    assert_eq!(channel_id_text(&[0x00, 0xab, 0x10, 0xff]), "00ab10ff");
    assert_eq!(channel_id_text(&[]), "");
    let id = [0x5au8; 32];
    assert_eq!(channel_id_text(&id), "5a".repeat(32));
}

#[test]
fn key_file_must_hold_exactly_one_key() {
    assert_eq!(ED25519_SECRET_KEY_SIZE, 32);
    let bytes: Vec<u8> = (0u8..32).collect();
    let key = signing_key_bytes(&bytes).unwrap();
    assert_eq!(key.to_vec(), bytes);
    assert!(signing_key_bytes(&bytes[..31]).is_none());
    assert!(signing_key_bytes(&[0u8; 33]).is_none());
}

#[test]
fn node_endpoint_must_be_a_url() {
    let url = parse_node_url("http://localhost:8080").unwrap();
    assert_eq!(url.as_str(), "http://localhost:8080/");
    match parse_node_url("not a url") {
        Err(SequencerError::Url(m)) => assert_eq!(m, "relative URL without a base"),
        _ => panic!("expected a URL error"),
    }
}
