use serde_json::Value;
use ttn_ingest::device::{
    build_device_point, build_known_point, build_unknown_point, device_type, read_field,
    unknown_device_type,
};
use ttn_ingest::device_table::{device_specs, find_device_spec, FieldType};
use ttn_ingest::point::{FieldValue, Point};
use ttn_ingest::time::Timestamp;

fn json(text: &str) -> Value {
    serde_json::from_str(text).unwrap()
}

fn at() -> Timestamp {
    Timestamp { secs: 1_700_000_000, nanos: 5 }
}

fn show(value: &FieldValue) -> String {
    match value {
        FieldValue::Float(bits) => format!("{:?}", f64::from_bits(*bits)),
        FieldValue::Int(n) => format!("{}i", n),
        FieldValue::Text(s) => format!("{:?}", s),
    }
}

fn fields(point: &Point) -> Vec<(String, String)> {
    point.fields.iter().map(|f| (f.name.clone(), show(&f.value))).collect()
}

fn tags(point: &Point) -> Vec<(String, String)> {
    point.tags.iter().map(|t| (t.name.clone(), t.value.clone())).collect()
}

fn pairs(expected: &[(&str, &str)]) -> Vec<(String, String)> {
    expected.iter().map(|(a, b)| (a.to_string(), b.to_string())).collect()
}

#[test]
fn battery_monitor_becomes_its_fields() {
    let decoded = json(
        r#"{"device_type":"BatteryMonitor","voltage":12.8,"current":-3,"soc":97.5,
            "consumed_ah":1.25,"rssi":-61,"other":7}"#,
    );
    let point = build_device_point("van", &decoded, at()).unwrap();
    assert_eq!(point.measurement, "battery_monitor");
    assert_eq!(tags(&point), pairs(&[("device_id", "van")]));
    assert_eq!(
        fields(&point),
        pairs(&[
            ("voltage", "12.8"),
            ("current", "-3.0"),
            ("soc", "97.5"),
            ("consumed_ah", "1.25"),
            ("device_rssi", "-61i"),
        ])
    );
    assert_eq!(point.timestamp, 1_700_000_000_000_000_005);
}

#[test]
fn members_of_another_type_are_left_out() {
    let decoded = json(
        r#"{"device_type":"SolarCharger","battery_voltage":"13","battery_current":null,
            "pv_power":12.5,"yield_today":18446744073709551615,"rssi":-70}"#,
    );
    let point = build_device_point("van", &decoded, at()).unwrap();
    assert_eq!(fields(&point), pairs(&[("device_rssi", "-70i")]));
}

#[test]
fn a_float_field_takes_any_number() {
    let decoded = json(r#"{"device_type":"BatterySense","voltage":18446744073709551615}"#);
    let point = build_device_point("van", &decoded, at()).unwrap();
    assert_eq!(fields(&point), pairs(&[("voltage", "1.8446744073709552e19")]));
}

#[test]
fn a_known_device_without_readings_has_no_point() {
    assert!(build_device_point("van", &json(r#"{"device_type":"Inverter"}"#), at()).is_none());
    assert!(build_device_point(
        "van",
        &json(r#"{"device_type":"Inverter","battery_voltage":"low"}"#),
        at()
    )
    .is_none());
}

#[test]
fn an_unknown_device_keeps_its_payload() {
    let decoded = json(r#"{"voltage": 1, "device_type" : "Toaster"}"#);
    let point = build_device_point("kitchen", &decoded, at()).unwrap();
    assert_eq!(point.measurement, "unknown_device");
    assert_eq!(tags(&point), pairs(&[("device_id", "kitchen"), ("device_type", "Toaster")]));
    assert_eq!(point.fields.len(), 1);
    assert_eq!(point.fields[0].name, "raw_json");
    match &point.fields[0].value {
        FieldValue::Text(s) => assert_eq!(s, r#"{"device_type":"Toaster","voltage":1}"#),
        _ => panic!("not text"),
    }
}

#[test]
fn a_payload_without_a_device_type_is_unknown() {
    for text in ["{}", "[1,2]", "3", r#"{"device_type":5}"#, "null"] {
        let point = build_device_point("d", &json(text), at()).unwrap();
        assert_eq!(tags(&point), pairs(&[("device_id", "d"), ("device_type", "unknown")]));
    }
}

#[test]
fn a_stamp_out_of_range_is_zero() {
    let far = Timestamp { secs: 253_402_300_000, nanos: 0 };
    let point = build_device_point("d", &json("{}"), far).unwrap();
    assert_eq!(point.timestamp, 0);
}

#[test]
fn the_table_has_every_device_once() {
    let table = device_specs();
    assert_eq!(table.len(), 12);
    assert_eq!(table.iter().map(|d| d.fields.len()).sum::<usize>(), 53);
    for (i, device) in table.iter().enumerate() {
        assert_eq!(find_device_spec(device.device_type).unwrap().measurement, device.measurement);
        for later in &table[i + 1..] {
            assert_ne!(device.device_type, later.device_type);
            assert_ne!(device.measurement, later.measurement);
        }
        for (k, field) in device.fields.iter().enumerate() {
            for later in &device.fields[k + 1..] {
                assert_ne!(field.influx_field, later.influx_field);
            }
        }
    }
    assert!(find_device_spec("unknown").is_none());
    assert!(find_device_spec("batterymonitor").is_none());
    let names: Vec<&str> = table.iter().map(|d| d.measurement).collect();
    assert_eq!(
        names,
        vec![
            "battery_monitor",
            "solar_charger",
            "dc_dc_converter",
            "ac_charger",
            "battery_sense",
            "dc_energy_meter",
            "inverter",
            "lynx_smart_bms",
            "orion_xs",
            "smart_battery_protect",
            "smart_lithium",
            "vebus",
        ]
    );
}

#[test]
fn the_same_member_may_have_two_types() {
    let charger = find_device_spec("AcCharger").unwrap();
    let lithium = find_device_spec("SmartLithium").unwrap();
    let of = |d: &ttn_ingest::device_table::DeviceSpec| {
        d.fields.iter().find(|f| f.json_key == "temperature").map(|f| f.ty).unwrap()
    };
    assert_eq!(of(&charger), FieldType::I64);
    assert_eq!(of(&lithium), FieldType::F64);
    let soc = find_device_spec("VEBus").unwrap();
    assert_eq!(soc.fields[2].influx_field, "soc");
    assert_eq!(soc.fields[2].ty, FieldType::I64);
}

#[test]
fn a_field_is_read_by_its_key() {
    let meter = find_device_spec("DcEnergyMeter").unwrap();
    let decoded = json(r#"{"voltage":2,"current":0.5,"power":-9}"#);
    let read: Vec<String> =
        meter.fields.iter().map(|f| show(&read_field(&decoded, f).unwrap())).collect();
    assert_eq!(read, vec!["2.0", "0.5", "-9i"]);
    assert!(read_field(&json("{}"), &meter.fields[0]).is_none());
}

#[test]
fn a_point_is_made_of_the_readings() {
    let meter = find_device_spec("DcEnergyMeter").unwrap();
    let readings = vec![None, Some(FieldValue::Float(0.25f64.to_bits())), Some(FieldValue::Int(4))];
    let point = build_known_point(&meter, "m", &readings, at()).unwrap();
    assert_eq!(point.measurement, "dc_energy_meter");
    assert_eq!(fields(&point), pairs(&[("current", "0.25"), ("power", "4i")]));
    assert!(build_known_point(&meter, "m", &vec![None, None, None], at()).is_none());
}

#[test]
fn an_unknown_point_is_made_of_its_text() {
    let point = build_unknown_point("a", "b", "c".to_string(), at());
    assert_eq!(tags(&point), pairs(&[("device_id", "a"), ("device_type", "b")]));
    assert_eq!(fields(&point), pairs(&[("raw_json", "\"c\"")]));
}

#[test]
fn a_payload_names_its_device() {
    assert_eq!(device_type(&json(r#"{"device_type":"VEBus"}"#)), "VEBus");
    assert_eq!(device_type(&json(r#"{"device_type":7}"#)), "unknown");
    assert_eq!(device_type(&json("[1]")), "unknown");
    assert_eq!(unknown_device_type(&json(r#"{"device_type":"VEBus"}"#)), None);
    assert_eq!(unknown_device_type(&json(r#"{"device_type":"vebus"}"#)), Some("vebus"));
    assert_eq!(unknown_device_type(&json("{}")), Some("unknown"));
}
