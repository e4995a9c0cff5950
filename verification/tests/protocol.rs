use frisquet_connect::connect::area::AreaMsg;
use frisquet_connect::connect::from_bytes;
use frisquet_connect::connect::pair::{AssociationCmd, AssociationMsg};
use frisquet_connect::connect::sonde::{
    ExternalTemperatureInitMsg, ExternalTemperatureInitReply, SetExternalTemperatureMsg,
    SetExternalTemperatureReplyMsg,
};
use frisquet_connect::connect::date::DateMsg;
use frisquet_connect::connect::{build_cmd_frame, filter, FrameDecodeError, Metadata};

#[test]
fn test_association_msg() {
    let payload = hex::decode("0b008012d402410412345678").unwrap();
    let (meta, data) = from_bytes(&payload).unwrap();
    let x: AssociationMsg = data;

    assert_eq!(
        meta,
        Metadata {
            length: 11,
            to_addr: 0,
            from_addr: 128,
            association_id: 18,
            request_id: 212,
            control: 0x02,
            msg_type: 0x41,
        }
    );
    assert_eq!(
        x,
        AssociationMsg {
            len: 4,
            network_id: [0x12, 0x34, 0x56, 0x78],
        }
    );
}

#[test]
fn test_association_reply() {
    let payload = hex::decode("0a80094914824101270002").unwrap();
    let (meta, data) = from_bytes(&payload).unwrap();
    let x: AssociationCmd = data;

    assert_eq!(
        meta,
        Metadata {
            length: 10,
            to_addr: 128,
            from_addr: 0x09,
            association_id: 73,
            request_id: 20,
            control: 0x02 + 0x80,
            msg_type: 0x41,
        }
    );
    assert_eq!(
        x,
        AssociationCmd {
            version: [0x01, 0x27, 0x00, 0x02]
        }
    );
}

#[test]
fn test_temperature_message() {
    let payload = hex::decode("118020ba4001179c540004a029000102005c").unwrap();
    let (meta, data) = from_bytes(&payload).unwrap();
    let x: SetExternalTemperatureMsg = data;

    assert_eq!(
        meta,
        Metadata {
            length: 17,
            to_addr: 128,
            from_addr: 32,
            association_id: 186,
            request_id: 64,
            control: 1,
            msg_type: 23,
        }
    );
    assert_eq!(
        x,
        SetExternalTemperatureMsg {
            data: [156, 84, 0, 4, 160, 41, 0, 1, 2],
            temperature: 92,
        }
    );
}

#[test]
fn test_announce_response() {
    let payload = hex::decode("06802020948241").unwrap();

    let (meta, data) = from_bytes(&payload).unwrap();
    let x: ExternalTemperatureInitReply = data;
    assert_eq!(
        meta,
        Metadata {
            length: 6,
            to_addr: 128,
            from_addr: 32,
            association_id: 32,
            request_id: 148,
            control: 130,
            msg_type: 65,
        }
    );
    assert_eq!(x, ExternalTemperatureInitReply { data: vec![] });
}

#[test]
fn test_set_temperature_response() {
    let payload = hex::decode("0f2080ba408117082304051131172803").unwrap();

    let (meta, data) = from_bytes(&payload).unwrap();
    let x: SetExternalTemperatureReplyMsg = data;
    assert_eq!(
        meta,
        Metadata {
            length: 15,
            to_addr: 32,
            from_addr: 128,
            association_id: 186,
            request_id: 64,
            control: 129,
            msg_type: 23,
        }
    );
    assert_eq!(
        x,
        SetExternalTemperatureReplyMsg {
            len: 8,
            year: 35,
            month: 4,
            day: 5,
            hour: 17,
            minute: 49,
            second: 23,
            data: 40,
            weekday: 3,
        }
    );
}

#[test]
fn test_init() {
    let payload = hex::decode("088020830001430000").unwrap();

    let (meta, data) = from_bytes(&payload).unwrap();

    let x: ExternalTemperatureInitMsg = data;
    assert_eq!(
        meta,
        Metadata {
            length: 8,
            to_addr: 128,
            from_addr: 32,
            association_id: 131,
            request_id: 0,
            control: 1,
            msg_type: 67,
        }
    );
    assert_eq!(x, ExternalTemperatureInitMsg { data: vec![0, 0] });
}

#[test]
fn round_trip_date_frame() {
    let msg = DateMsg {
        len: 8,
        year: 0x23,
        month: 0x12,
        day: 0x31,
        hour: 0x23,
        minute: 0x59,
        second: 0x07,
        data: 0,
        weekday: 7,
    };
    let frame = build_cmd_frame(0x80, 0x7e, 0x12, 0x40, 0x81, 0x17, &msg).unwrap();
    let (meta, back): (Metadata, DateMsg) = from_bytes(&frame).unwrap();
    assert_eq!(back, msg);
    assert_eq!(
        meta,
        Metadata {
            length: 15,
            to_addr: 0x7e,
            from_addr: 0x80,
            association_id: 0x12,
            request_id: 0x40,
            control: 0x81,
            msg_type: 0x17,
        }
    );
}

#[test]
fn round_trip_area_frame() {
    let msg = AreaMsg {
        cmd: [0xa1, 0x54, 0x00, 0x18],
        cmd2: [0xa1, 0x54, 0x00, 0x18],
        len: 0x30,
        temp_comfort: 150,
        temp_reduced: 110,
        temp_frost: 30,
        mode: 5,
        unknow_mode: false,
        boost: true,
        unknown_mode2: 0,
        unknown_mode3: 1,
        derogation: false,
        confort: true,
        unknown_data: 0,
        sunday: [0, 0, 0, 0, 0, 0],
        monday: [0xff, 0, 0, 0, 0, 0x80],
        tuesday: [0, 0, 0, 0, 0, 0],
        wednesday: [0, 0x0f, 0, 0, 0, 0],
        thursday: [0, 0, 0, 0, 0, 0],
        friday: [0, 0, 0, 0, 0, 0],
        saturday: [0, 0, 0, 0, 0, 0],
    };
    let frame = build_cmd_frame(0x7e, 0x80, 0x12, 0x44, 0x08, 0x17, &msg).unwrap();
    let (_meta, back): (Metadata, AreaMsg) = from_bytes(&frame).unwrap();
    assert_eq!(back, msg);
}

#[test]
fn negative_temperature_round_trip() {
    let msg = SetExternalTemperatureMsg {
        data: [0x9c, 0x54, 0x00, 0x04, 0xa0, 0x29, 0x00, 0x01, 0x02],
        temperature: -125,
    };
    let frame = build_cmd_frame(0x20, 0x80, 0xba, 0x40, 0x01, 0x17, &msg).unwrap();
    let (_meta, back): (Metadata, SetExternalTemperatureMsg) = from_bytes(&frame).unwrap();
    assert_eq!(back.temperature, -125);
}

#[test]
fn filter_matches_only_on_all_four_identifiers() {
    // from 0x80, to 0x7e, association 0x12, request 0x40
    let payload = hex::decode("0f7e8012408117082304051131172803").unwrap();
    assert_eq!(
        filter(&payload, 0x80, 0x7e, 0x12, 0x40).unwrap(),
        Some(&payload)
    );
    // a single mutated identifier yields no match
    assert_eq!(filter(&payload, 0x81, 0x7e, 0x12, 0x40).unwrap(), None);
    assert_eq!(filter(&payload, 0x80, 0x7f, 0x12, 0x40).unwrap(), None);
    assert_eq!(filter(&payload, 0x80, 0x7e, 0x13, 0x40).unwrap(), None);
    assert_eq!(filter(&payload, 0x80, 0x7e, 0x12, 0x41).unwrap(), None);
}

#[test]
fn filter_short_payload_is_error() {
    let payload = vec![0x0a, 0x80, 0x7e];
    assert!(filter(&payload, 0x80, 0x7e, 0x12, 0x40).is_err());
}

#[test]
fn decode_error_kinds() {
    // too short for a header
    let short = vec![1u8, 2, 3];
    assert_eq!(
        from_bytes::<DateMsg>(&short).unwrap_err(),
        FrameDecodeError::HeaderTooShort
    );
    // header length field disagrees with the frame size
    let mut frame = hex::decode("0f2080ba408117082304051131172803").unwrap();
    frame.push(0xab);
    assert_eq!(
        from_bytes::<SetExternalTemperatureReplyMsg>(&frame).unwrap_err(),
        FrameDecodeError::LengthMismatch
    );
    // body shorter than the layout
    let tiny = hex::decode("062080ba408117").unwrap();
    assert_eq!(
        from_bytes::<SetExternalTemperatureReplyMsg>(&tiny).unwrap_err(),
        FrameDecodeError::BodyTooShort
    );
    // body length field violates the message's own check
    let bad = hex::decode("0f2080ba408117092304051131172803").unwrap();
    assert_eq!(
        from_bytes::<SetExternalTemperatureReplyMsg>(&bad).unwrap_err(),
        FrameDecodeError::AssertFailed
    );
}

#[test]
fn bcd_date_getters() {
    let msg = DateMsg {
        len: 8,
        year: 0x23,
        month: 0x11,
        day: 0x30,
        hour: 0x19,
        minute: 0x45,
        second: 0x59,
        data: 0,
        weekday: 4,
    };
    assert_eq!(msg.year(), 23);
    assert_eq!(msg.month(), 11);
    assert_eq!(msg.day(), 30);
    assert_eq!(msg.hour(), 19);
    assert_eq!(msg.minute(), 45);
    assert_eq!(msg.second(), 59);
    assert_eq!(msg.weekday(), 4);
}

#[test]
fn payload_hex_renders_two_digits_per_byte() {
    let payload = vec![0xab, 0x01, 0x00, 0xff];
    assert_eq!(frisquet_connect::hexstr::payload_hex(&payload), "ab0100ff");
}

#[test]
fn oversized_body_is_rejected() {
    let cmd = frisquet_connect::connect::Cmd { data: vec![0u8; 250] };
    assert!(build_cmd_frame(0x7e, 0x80, 0x12, 0x40, 0x01, 0x03, &cmd).is_err());
}
