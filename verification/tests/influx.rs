use influxdb2::models::WriteDataPoint;
use ttn_ingest::influx::to_builder;
use ttn_ingest::point::{FieldValue, Point};

fn line(point: &Point) -> String {
    let mut bytes: Vec<u8> = Vec::new();
    to_builder(point).build().unwrap().write_data_point_to(&mut bytes).unwrap();
    String::from_utf8(bytes).unwrap()
}

#[test]
fn a_builder_holds_the_point() {
    let mut p = Point::new("network_info", 12);
    p.tag("device_id", "van 1");
    p.tag("a", "b");
    p.field("f_cnt", FieldValue::Int(-5));
    p.field("raw", FieldValue::Text("say \"hi\"".to_string()));
    assert_eq!(
        line(&p),
        "network_info,a=b,device_id=van\\ 1 f_cnt=-5i,raw=\"say \\\"hi\\\"\" 12\n"
    );
}

#[test]
fn floats_are_left_to_the_caller() {
    let mut p = Point::new("m", 1);
    p.field("x", FieldValue::Float(2.5f64.to_bits()));
    assert!(to_builder(&p).build().is_err());
    p.field("n", FieldValue::Int(3));
    assert_eq!(line(&p), "m n=3i 1\n");
}

#[test]
fn the_later_of_two_values_is_kept() {
    let mut p = Point::new("m", 0);
    p.tag("t", "old");
    p.tag("t", "new");
    p.field("n", FieldValue::Int(1));
    p.field("n", FieldValue::Text("2".to_string()));
    assert_eq!(line(&p), "m,t=new n=\"2\" 0\n");
}
