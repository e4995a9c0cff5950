use frisquet_connect::config::{Area, Frisquet, Prog};
use frisquet_connect::connect::area::{connect_area1, retry_step, AreaMsg};
use frisquet_connect::connect::date::{connect_date, DateMsg};
use frisquet_connect::connect::pair::connect_association;
use frisquet_connect::connect::promiscuous::{Observation, Signature, Tracker};
use frisquet_connect::connect::sonde::{send_init, send_temperature, ExternalTemperatureInitReply, SetExternalTemperatureReplyMsg};
use frisquet_connect::connect::{build_cmd_frame, from_bytes, Cmd, ErrorKind};
use frisquet_connect::rf::test::TestClient;

fn paired() -> Frisquet {
    Frisquet {
        send_init: Some(false),
        network_id: Some([0x12, 0x34, 0x56, 0x78]),
        association_id: Some(0x12),
        request_id: Some(0x10),
    }
}

#[test]
fn handshake_captures_announce_and_replies_once() {
    // one announce: association 0x12, request 0xd4, network 0x12345678
    let mut rf = TestClient::new(vec!["0b008012d402410412345678".to_string()]);
    let a = connect_association(&mut rf, 0x7e).unwrap();
    assert_eq!(a.association_id, 0x12);
    assert_eq!(a.request_id, 0xd4);
    assert_eq!(a.network_id, [0x12, 0x34, 0x56, 0x78]);
    // exactly one reply frame: control is the announce's plus 0x80, the body
    // is the fixed version handshake
    assert_eq!(rf.sent().len(), 1);
    assert_eq!(
        hex::encode(&rf.sent()[0]),
        "0a807e12d4824101210102"
    );
}

#[test]
fn handshake_with_no_announce_fails_permanently() {
    let mut rf = TestClient::new(vec![]);
    let e = connect_association(&mut rf, 0x7e).unwrap_err();
    assert_eq!(e.error_kind(), ErrorKind::Timeout);
    assert_eq!(rf.sent().len(), 0);
}

#[test]
fn handshake_rejects_unexpected_control() {
    // same announce but control 0x03: a fatal protocol violation
    let mut rf = TestClient::new(vec!["0b008012d403410412345678".to_string()]);
    let e = connect_association(&mut rf, 0x7e).unwrap_err();
    assert_eq!(e.error_kind(), ErrorKind::ProtocolViolation);
}

#[test]
fn retry_policy_returns_to_canonical_sequence() {
    let mut cfg = paired();
    // three consecutive timeouts at request id 0x50
    let (r1, q1) = retry_step(0, 0x50, &mut cfg).unwrap();
    assert_eq!((r1, q1), (1, 0x51));
    let (r2, q2) = retry_step(r1, q1, &mut cfg).unwrap();
    assert_eq!((r2, q2), (2, 0x52));
    // the third timeout abandons the bumped id and draws the canonical next
    let (r3, q3) = retry_step(r2, q2, &mut cfg).unwrap();
    assert_eq!((r3, q3), (0, 0x14));
    assert_eq!(cfg.request_id, Some(0x14));
}

#[test]
fn correlator_returns_matching_date_reply() {
    let mut cfg = paired();
    // the query will use request id 0x14; script a non-matching frame after
    // (popped first) and the matching clock reply
    let reply = build_cmd_frame(
        0x80,
        0x7e,
        0x12,
        0x14,
        0x81,
        0x17,
        &DateMsg {
            len: 8,
            year: 0x23,
            month: 0x04,
            day: 0x05,
            hour: 0x11,
            minute: 0x31,
            second: 0x17,
            data: 0x28,
            weekday: 3,
        },
    )
    .unwrap();
    let other = build_cmd_frame(0x80, 0x7e, 0x12, 0x99, 0x81, 0x17, &Cmd { data: vec![1] }).unwrap();
    let mut rf = TestClient::new(vec![hex::encode(&reply), hex::encode(&other)]);
    let (meta, msg) = connect_date(&mut rf, &mut cfg).unwrap();
    assert_eq!(meta.request_id, 0x14);
    assert_eq!(msg.hour(), 11);
    assert_eq!(msg.minute(), 31);
    assert_eq!(cfg.request_id, Some(0x14));
    // the query frame went out once: a0 2b 00 04 under msg_type 0x03
    assert_eq!(rf.sent().len(), 1);
    assert_eq!(hex::encode(&rf.sent()[0]), "0a807e12140103a02b0004");
}

#[test]
fn probe_init_times_out_as_an_error() {
    let mut cfg = paired();
    let mut rf = TestClient::new(vec![]);
    let e = send_init(&mut rf, &mut cfg).unwrap_err();
    assert_eq!(e.error_kind(), ErrorKind::Timeout);
}

#[test]
fn promiscuous_tracks_and_spends_an_area_write() {
    let mut tracker = Tracker::new();
    // an untracked generic command with the area-write prefix
    let msg = AreaMsg {
        cmd: [0xa1, 0x54, 0x00, 0x18],
        cmd2: [0xa1, 0x54, 0x00, 0x18],
        len: 0x30,
        temp_comfort: 150,
        temp_reduced: 110,
        temp_frost: 30,
        mode: 5,
        unknow_mode: false,
        boost: false,
        unknown_mode2: 0,
        unknown_mode3: 1,
        derogation: false,
        confort: true,
        unknown_data: 0,
        sunday: [0; 6],
        monday: [0; 6],
        tuesday: [0; 6],
        wednesday: [0; 6],
        thursday: [0; 6],
        friday: [0; 6],
        saturday: [0; 6],
    };
    let frame = build_cmd_frame(0x7e, 0x80, 0x12, 0x40, 0x08, 0x17, &msg).unwrap();
    match tracker.observe(&frame) {
        Observation::Request { meta, sig } => {
            assert_eq!(meta.request_id, 0x40);
            assert_eq!(sig, Signature::AreaWrite);
        }
        other => panic!("unexpected observation: {:?}", other),
    }
    assert!(tracker.in_flight(0x40));

    // the next frame with the same request id is a raw acknowledgment and
    // spends the entry
    let ack = build_cmd_frame(0x80, 0x7e, 0x12, 0x40, 0x88, 0x17, &Cmd { data: vec![1, 2, 3] })
        .unwrap();
    match tracker.observe(&ack) {
        Observation::RawReply { meta, body } => {
            assert_eq!(meta.request_id, 0x40);
            assert_eq!(body, vec![1, 2, 3]);
        }
        other => panic!("unexpected observation: {:?}", other),
    }
    assert!(!tracker.in_flight(0x40));
}

#[test]
fn promiscuous_pairs_date_query_with_clock_reply() {
    let mut tracker = Tracker::new();
    // a date query (msg_type 0x03): its raw body becomes the signature
    let query = build_cmd_frame(
        0x7e,
        0x80,
        0x12,
        0x44,
        0x01,
        0x03,
        &Cmd { data: vec![0xa0, 0x2b, 0x00, 0x04] },
    )
    .unwrap();
    match tracker.observe(&query) {
        Observation::Request { sig, .. } => {
            assert_eq!(sig, Signature::Raw(vec![0xa0, 0x2b, 0x00, 0x04]));
        }
        other => panic!("unexpected observation: {:?}", other),
    }
    // the tracked reply decodes as the boiler's clock
    let reply = build_cmd_frame(
        0x80,
        0x7e,
        0x12,
        0x44,
        0x81,
        0x17,
        &DateMsg {
            len: 8,
            year: 0x23,
            month: 0x04,
            day: 0x05,
            hour: 0x11,
            minute: 0x31,
            second: 0x17,
            data: 0x28,
            weekday: 3,
        },
    )
    .unwrap();
    match tracker.observe(&reply) {
        Observation::DateReply { msg, .. } => {
            assert_eq!(msg.hour(), 11);
        }
        other => panic!("unexpected observation: {:?}", other),
    }
    assert!(!tracker.in_flight(0x44));
}

#[test]
fn promiscuous_ignores_other_traffic() {
    let mut tracker = Tracker::new();
    let frame = build_cmd_frame(0x08, 0x80, 0x12, 0x40, 0x08, 0x17, &Cmd { data: vec![] })
        .unwrap();
    assert_eq!(tracker.observe(&frame), Observation::NotOurs);
    assert_eq!(tracker.observe(&vec![1, 2, 3]), Observation::BadHeader);
}

#[test]
fn probe_init_sends_the_fixed_frame() {
    let mut cfg = paired();
    // acknowledgment for request id 0x14 from the hub to the probe
    let reply = build_cmd_frame(
        0x80,
        0x20,
        0x12,
        0x14,
        0x82,
        0x41,
        &ExternalTemperatureInitReply { data: vec![] },
    )
    .unwrap();
    let mut rf = TestClient::new(vec![hex::encode(&reply)]);
    let (_meta, _msg) = send_init(&mut rf, &mut cfg).unwrap();
    assert_eq!(rf.sent().len(), 1);
    assert_eq!(hex::encode(&rf.sent()[0]), "088020121401430000");
    assert_eq!(cfg.request_id, Some(0x14));
}

#[test]
fn temperature_report_sends_prefix_and_reading() {
    let mut cfg = paired();
    let reply = build_cmd_frame(
        0x80,
        0x20,
        0x12,
        0x14,
        0x81,
        0x17,
        &SetExternalTemperatureReplyMsg {
            len: 8,
            year: 0x23,
            month: 0x04,
            day: 0x05,
            hour: 0x11,
            minute: 0x31,
            second: 0x17,
            data: 0x28,
            weekday: 3,
        },
    )
    .unwrap();
    let mut rf = TestClient::new(vec![hex::encode(&reply)]);
    let (_meta, msg) = send_temperature(&mut rf, &mut cfg, 92).unwrap();
    assert_eq!(msg.weekday, 3);
    assert_eq!(rf.sent().len(), 1);
    assert_eq!(
        hex::encode(&rf.sent()[0]),
        "118020121401179c540004a029000102005c"
    );
}

#[test]
fn area_write_sends_the_assembled_programme() {
    let mut cfg = paired();
    let area = Area {
        comfort: 200,
        reduced: 160,
        frost: 80,
        mode: "comfort".to_string(),
        boost: false,
        override_mode: "none".to_string(),
        monday: vec![Prog {
            timeframe: "12h00-14h00".to_string(),
            mode: "comfort".to_string(),
        }],
        tuesday: vec![],
        wednesday: vec![],
        thursday: vec![],
        friday: vec![],
        saturday: vec![],
        sunday: vec![],
    };
    // the date query draws 0x14, the area write draws 0x18
    let date_reply = build_cmd_frame(
        0x80,
        0x7e,
        0x12,
        0x14,
        0x81,
        0x17,
        &DateMsg {
            len: 8,
            year: 0x23,
            month: 0x04,
            day: 0x05,
            hour: 0x11,
            minute: 0x31,
            second: 0x17,
            data: 0x28,
            weekday: 3,
        },
    )
    .unwrap();
    let ack = build_cmd_frame(0x80, 0x7e, 0x12, 0x18, 0x88, 0x17, &Cmd { data: vec![] }).unwrap();
    // popped last first: the date reply comes before the acknowledgment
    let mut rf = TestClient::new(vec![hex::encode(&ack), hex::encode(&date_reply)]);
    let (meta, _) = connect_area1(&mut rf, &mut cfg, &area).unwrap();
    assert_eq!(meta.request_id, 0x18);
    assert_eq!(cfg.request_id, Some(0x18));
    // the date query, then the programme frame
    assert_eq!(rf.sent().len(), 2);
    let (sent_meta, sent_msg): (frisquet_connect::connect::Metadata, AreaMsg) =
        from_bytes(&rf.sent()[1]).unwrap();
    assert_eq!(sent_meta.msg_type, 0x17);
    assert_eq!(sent_meta.control, 0x08);
    assert_eq!(sent_meta.to_addr, 0x80);
    assert_eq!(sent_meta.from_addr, 0x7e);
    assert_eq!(sent_msg.cmd, [0xa1, 0x54, 0x00, 0x18]);
    assert_eq!(sent_msg.cmd2, [0xa1, 0x54, 0x00, 0x18]);
    assert_eq!(sent_msg.len, 0x30);
    assert_eq!(sent_msg.temp_comfort, 150);
    assert_eq!(sent_msg.temp_reduced, 110);
    assert_eq!(sent_msg.temp_frost, 30);
    assert_eq!(sent_msg.mode, 0x06);
    assert_eq!(sent_msg.boost, false);
    assert_eq!(sent_msg.derogation, false);
    // mode "comfort", no override: the comfort flag follows the selector
    assert_eq!(sent_msg.confort, true);
    // monday 12h00-14h00: slots 24..28
    assert_eq!(sent_msg.monday, [0, 0, 0, 0x0f, 0, 0]);
    assert_eq!(sent_msg.sunday, [0; 6]);
}
