use ttn_ingest::cursor::Cursor;
use ttn_ingest::health::HealthStatus;
use ttn_ingest::point::{FieldValue, Point};
use ttn_ingest::time::Timestamp;
use ttn_ingest::uplink::{
    build_network_point, build_signal_point, commit_uplink, points_at, prepare_uplink, DataRate,
    EndDeviceIds, GatewayIds, LoRaSettings, RxMetadata, Settings, TtnMessage, UplinkError,
    UplinkMessage, UplinkResult, WriteOutcome,
};

fn rx(gateway: &str, rssi: Option<i32>, snr: Option<f64>) -> RxMetadata {
    RxMetadata {
        gateway_ids: GatewayIds { gateway_id: gateway.to_string() },
        rssi,
        snr_bits: snr.map(f64::to_bits),
    }
}

fn settings(sf: Option<u8>, bw: Option<u32>) -> Option<Settings> {
    Some(Settings {
        data_rate: Some(DataRate {
            lora: Some(LoRaSettings { bandwidth: bw, spreading_factor: sf }),
        }),
    })
}

fn message(received_at: &str, uplink_message: UplinkMessage) -> TtnMessage {
    TtnMessage {
        result: UplinkResult {
            end_device_ids: EndDeviceIds { device_id: "van-1".to_string() },
            received_at: received_at.to_string(),
            uplink_message,
        },
    }
}

fn full() -> UplinkMessage {
    UplinkMessage {
        f_cnt: Some(17),
        decoded_payload: Some(
            serde_json::from_str(r#"{"device_type":"OrionXS","input_voltage":13.5}"#).unwrap(),
        ),
        rx_metadata: vec![
            rx("gw-a", Some(-110), Some(-7.5)),
            rx("gw-b", None, Some(1.0)),
            rx("gw-c", Some(-90), None),
            rx("gw-d", Some(-80), Some(9.25)),
        ],
        settings: settings(Some(7), Some(125_000)),
    }
}

fn bare() -> UplinkMessage {
    UplinkMessage { f_cnt: None, decoded_payload: None, rx_metadata: Vec::new(), settings: None }
}

fn describe(p: &Point) -> String {
    let mut text = p.measurement.clone();
    for t in &p.tags {
        text.push_str(&format!(",{}={}", t.name, t.value));
    }
    for f in &p.fields {
        let value = match &f.value {
            FieldValue::Float(bits) => format!("{}", f64::from_bits(*bits)),
            FieldValue::Int(n) => format!("{}i", n),
            FieldValue::Text(s) => s.clone(),
        };
        text.push_str(&format!(" {}={}", f.name, value));
    }
    text.push_str(&format!(" @{}", p.timestamp));
    text
}

#[test]
fn a_message_becomes_its_points_in_order() {
    let prepared = match prepare_uplink(&message("2024-01-02T03:04:05.000000006Z", full())) {
        Ok(p) => p,
        Err(_) => panic!("refused"),
    };
    assert_eq!(prepared.timestamp, Timestamp { secs: 1_704_164_645, nanos: 6 });
    assert!(prepared.needs_write());
    let described: Vec<String> = prepared.points.iter().map(describe).collect();
    assert_eq!(
        described,
        vec![
            "signal_quality,device_id=van-1,gateway_id=gw-a rssi=-110i snr=-7.5 @1704164645000000006",
            "signal_quality,device_id=van-1,gateway_id=gw-d rssi=-80i snr=9.25 @1704164645000000006",
            "network_info,device_id=van-1 f_cnt=17i spreading_factor=7i bandwidth=125000i @1704164645000000006",
            "orion_xs,device_id=van-1 input_voltage=13.5 @1704164645000000006",
        ]
    );
}

#[test]
fn an_offset_is_moved_to_utc() {
    let prepared = match prepare_uplink(&message("2024-01-02T03:04:05+02:00", bare())) {
        Ok(p) => p,
        Err(_) => panic!("refused"),
    };
    assert_eq!(prepared.timestamp, Timestamp { secs: 1_704_157_445, nanos: 0 });
    assert!(!prepared.needs_write());
}

#[test]
fn a_message_without_a_time_is_refused() {
    for text in ["", "yesterday", "2024-01-02T03:04:05", "2024-13-02T03:04:05Z", " 2024-01-02T03:04:05Z"]
    {
        match prepare_uplink(&message(text, full())) {
            Ok(_) => panic!("taken"),
            Err(e) => {
                assert_eq!(e, UplinkError::Timestamp);
                assert_eq!(e.message(), "Failed to parse timestamp");
            }
        }
    }
}

#[test]
fn a_known_device_without_readings_adds_no_point() {
    let mut uplink = bare();
    uplink.decoded_payload = Some(serde_json::from_str(r#"{"device_type":"VEBus"}"#).unwrap());
    let points = points_at(&message("", uplink), Timestamp { secs: 0, nanos: 0 });
    assert!(points.is_empty());
}

#[test]
fn the_network_point_needs_one_field() {
    let t = Timestamp { secs: 1, nanos: 0 };
    assert!(build_network_point("d", None, &None, t).is_none());
    assert!(build_network_point("d", None, &settings(None, None), t).is_none());
    assert!(build_network_point("d", None, &Some(Settings { data_rate: None }), t).is_none());
    let p = build_network_point("d", None, &settings(None, Some(4)), t).unwrap();
    assert_eq!(describe(&p), "network_info,device_id=d bandwidth=4i @1000000000");
    let p = build_network_point("d", Some(u32::MAX), &None, t).unwrap();
    assert_eq!(describe(&p), "network_info,device_id=d f_cnt=4294967295i @1000000000");
}

#[test]
fn a_reception_needs_both_values() {
    let t = Timestamp { secs: 0, nanos: 3 };
    assert!(build_signal_point("d", &rx("g", Some(1), None), t).is_none());
    assert!(build_signal_point("d", &rx("g", None, Some(1.0)), t).is_none());
    let p = build_signal_point("d", &rx("g", Some(i32::MIN), Some(0.5)), t).unwrap();
    assert_eq!(
        describe(&p),
        "signal_quality,device_id=d,gateway_id=g rssi=-2147483648i snr=0.5 @3"
    );
}

#[test]
fn every_point_has_a_field_and_no_name_twice() {
    let points = points_at(&message("", full()), Timestamp { secs: 9, nanos: 0 });
    for p in &points {
        assert!(!p.fields.is_empty());
        for (i, f) in p.fields.iter().enumerate() {
            assert!(p.fields[i + 1..].iter().all(|g| g.name != f.name));
        }
        for (i, t) in p.tags.iter().enumerate() {
            assert!(p.tags[i + 1..].iter().all(|u| u.name != t.name));
        }
        assert_eq!(p.tags[0].name, "device_id");
        assert_eq!(p.tags[0].value, "van-1");
        assert_eq!(p.timestamp, 9_000_000_000);
    }
    assert!(points.len() <= 6);
}

#[test]
fn a_written_uplink_moves_the_cursor_and_counts() {
    let mut health = HealthStatus::new(10);
    let mut cursor = Cursor::load(None);
    let t = Timestamp { secs: 1_704_164_645, nanos: 0 };
    let kept = commit_uplink(&mut health, &mut cursor, t, WriteOutcome::Written, 20);
    assert_eq!(kept, Ok(Some("2024-01-02T03:04:05+00:00".to_string())));
    assert_eq!(cursor.get(), Some(t));
    assert_eq!(health.messages_processed, 1);
    assert_eq!(health.last_message_time, Some(20));
    let kept = commit_uplink(&mut health, &mut cursor, t, WriteOutcome::Skipped, 30);
    assert_eq!(kept, Ok(None));
    assert_eq!(health.messages_processed, 2);
}

#[test]
fn a_failed_write_leaves_everything() {
    let mut health = HealthStatus::new(10);
    let mut cursor = Cursor::load(Some("2024-01-02T03:04:05Z"));
    let before = cursor.get();
    let t = Timestamp { secs: 1_900_000_000, nanos: 0 };
    let kept = commit_uplink(&mut health, &mut cursor, t, WriteOutcome::Failed, 20);
    assert_eq!(kept, Err(UplinkError::Write));
    assert_eq!(UplinkError::Write.message(), "Failed to write points to InfluxDB");
    assert_eq!(health, HealthStatus::new(10));
    assert_eq!(cursor.get(), before);
}
