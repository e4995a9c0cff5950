use frisquet_connect::config::{time_index, time_indexes, to_mode_prog, Area, Frisquet, Prog};

fn entry(timeframe: &str, mode: &str) -> Prog {
    Prog {
        timeframe: timeframe.to_string(),
        mode: mode.to_string(),
    }
}

fn area_with_comfort(tenths: i32) -> Area {
    Area {
        comfort: tenths,
        reduced: 160,
        frost: 80,
        mode: "auto".to_string(),
        boost: false,
        override_mode: "none".to_string(),
        monday: vec![],
        tuesday: vec![],
        wednesday: vec![],
        thursday: vec![],
        friday: vec![],
        saturday: vec![],
        sunday: vec![],
    }
}

#[test]
fn time_index_half_hour_slots() {
    assert_eq!(time_index("12h30"), Ok(25));
    assert_eq!(time_index("00h00"), Ok(0));
    assert_eq!(time_index("23h30"), Ok(47));
}

#[test]
fn time_index_rejects_odd_minutes() {
    assert!(time_index("12h15").is_err());
    assert!(time_index("12h01").is_err());
    assert!(time_index("12h29").is_err());
}

#[test]
fn time_index_rejects_malformed_times() {
    assert!(time_index("24h00").is_err());
    assert!(time_index("h30").is_err());
    assert!(time_index("12h").is_err());
    assert!(time_index("12x30").is_err());
    assert!(time_index("1h2h30").is_err());
    assert!(time_index("ab h30").is_err());
}

#[test]
fn time_indexes_parses_ranges() {
    assert_eq!(time_indexes("12h00-14h30"), Ok((24, 29)));
    assert_eq!(time_indexes("22h00-00h00"), Ok((44, 48)));
    assert_eq!(time_indexes("00h00-00h00"), Ok((0, 0)));
}

#[test]
fn time_indexes_rejects_reversed_ranges() {
    assert!(time_indexes("14h30-12h00").is_err());
    assert!(time_indexes("12h00").is_err());
    assert!(time_indexes("12h00-13h00-14h00").is_err());
}

#[test]
fn comfort_timeframe_sets_its_slots() {
    // slots 24..28 (four half-hour slots): bits 0..4 of the fourth byte
    let mask = to_mode_prog(&vec![entry("12h00-14h00", "comfort")]).unwrap();
    assert_eq!(mask, [0, 0, 0, 0x0f, 0, 0]);
    // an end of 00h00 runs to the end of the day: slots 44..48
    let mask = to_mode_prog(&vec![entry("22h00-00h00", "comfort")]).unwrap();
    assert_eq!(mask, [0, 0, 0, 0, 0, 0xf0]);
    // "12h00-14h30" covers slots 24..29
    let mask = to_mode_prog(&vec![entry("12h00-14h30", "comfort")]).unwrap();
    assert_eq!(mask, [0, 0, 0, 0x1f, 0, 0]);
}

#[test]
fn reduced_entries_set_nothing() {
    let mask = to_mode_prog(&vec![entry("12h00-14h00", "reduced")]).unwrap();
    assert_eq!(mask, [0, 0, 0, 0, 0, 0]);
}

#[test]
fn unknown_mode_is_a_configuration_error() {
    assert!(to_mode_prog(&vec![entry("12h00-14h00", "boost")]).is_err());
    assert!(to_mode_prog(&vec![entry("12h00-25h00", "comfort")]).is_err());
}

#[test]
fn setpoint_bytes() {
    assert_eq!(area_with_comfort(200).comfort(), Ok(150));
    assert_eq!(area_with_comfort(50).comfort(), Ok(0));
    assert_eq!(area_with_comfort(305).comfort(), Ok(255));
}

#[test]
fn setpoint_out_of_range_is_rejected() {
    assert!(area_with_comfort(306).comfort().is_err());
    assert!(area_with_comfort(45).comfort().is_err());
    assert!(area_with_comfort(203).comfort().is_err());
}

#[test]
fn mode_codes() {
    let mut area = area_with_comfort(200);
    assert_eq!(area.mode(), Ok(0x05));
    assert_eq!(area.mode_is_auto(), Ok(true));
    assert_eq!(area.mode_is_comfort(), Ok(false));
    area.mode = "comfort".to_string();
    assert_eq!(area.mode(), Ok(0x06));
    assert_eq!(area.mode_is_comfort(), Ok(true));
    area.mode = "reduced".to_string();
    assert_eq!(area.mode(), Ok(0x07));
    area.mode = "frost".to_string();
    assert_eq!(area.mode(), Ok(0x08));
    area.mode = "warm".to_string();
    assert!(area.mode().is_err());
}

#[test]
fn override_codes() {
    let mut area = area_with_comfort(200);
    assert_eq!(area.comfort_override(), Ok(None));
    area.override_mode = "comfort".to_string();
    assert_eq!(area.comfort_override(), Ok(Some(true)));
    area.override_mode = "reduced".to_string();
    assert_eq!(area.comfort_override(), Ok(Some(false)));
    area.override_mode = "off".to_string();
    assert!(area.comfort_override().is_err());
}

#[test]
fn request_id_sequence_advances_by_four() {
    let mut f = Frisquet {
        send_init: None,
        network_id: Some([1, 2, 3, 4]),
        association_id: Some(0x12),
        request_id: Some(0xfe),
    };
    assert_eq!(f.next_req_id(), Ok(0x02)); // wraps at 256
    assert_eq!(f.next_req_id(), Ok(0x06));
    assert_eq!(f.request_id, Some(0x06));
}

#[test]
fn missing_pairing_values_are_errors() {
    let mut f = Frisquet {
        send_init: None,
        network_id: None,
        association_id: None,
        request_id: None,
    };
    assert!(f.network_id().is_err());
    assert!(f.association_id().is_err());
    assert!(f.next_req_id().is_err());
}
