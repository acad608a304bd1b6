//! Uplinks: the points that a message becomes, and what follows once they are
//! written.

use vstd::prelude::*;

use crate::cursor::Cursor;
use crate::device::build_device_point;
use crate::health::HealthStatus;
use crate::json;
use crate::point::FieldValue;
use crate::point::FieldValueView;
use crate::point::Point;
use crate::point::PointView;
use crate::point;
use crate::time::Timestamp;
use crate::time;

verus! {

broadcast use vstd::string::group_string_axioms;

/// A message of the stream.
pub struct TtnMessage {
    pub result: UplinkResult,
}

pub struct UplinkResult {
    pub end_device_ids: EndDeviceIds,
    pub received_at: String,
    pub uplink_message: UplinkMessage,
}

pub struct EndDeviceIds {
    pub device_id: String,
}

pub struct UplinkMessage {
    pub f_cnt: Option<u32>,
    pub decoded_payload: Option<serde_json::Value>,
    pub rx_metadata: Vec<RxMetadata>,
    pub settings: Option<Settings>,
}

/// How a gateway received the uplink. The signal-to-noise ratio is held by the
/// bits of its double.
pub struct RxMetadata {
    pub gateway_ids: GatewayIds,
    pub rssi: Option<i32>,
    pub snr_bits: Option<u64>,
}

pub struct GatewayIds {
    pub gateway_id: String,
}

pub struct Settings {
    pub data_rate: Option<DataRate>,
}

pub struct DataRate {
    pub lora: Option<LoRaSettings>,
}

pub struct LoRaSettings {
    pub bandwidth: Option<u32>,
    pub spreading_factor: Option<u8>,
}

/// Why an uplink was not processed.
#[derive(Clone, Copy, Debug, PartialEq, Eq, Structural)]
pub enum UplinkError {
    /// `received_at` is no RFC 3339 text.
    Timestamp,
    /// The database did not take the points.
    Write,
}

impl UplinkError {
    /// What is said of the error.
    pub fn message(&self) -> (r: &'static str)
        ensures
            r@ == (match self {
                UplinkError::Timestamp => "Failed to parse timestamp"@,
                UplinkError::Write => "Failed to write points to InfluxDB"@,
            }),
    {
        match self {
            UplinkError::Timestamp => "Failed to parse timestamp",
            UplinkError::Write => "Failed to write points to InfluxDB",
        }
    }
}

/// What an uplink became.
pub struct PreparedUplink {
    pub timestamp: Timestamp,
    pub points: Vec<Point>,
}

impl PreparedUplink {
    /// Whether there is anything to write.
    pub fn needs_write(&self) -> (r: bool)
        ensures
            r == (self.points@.len() > 0),
    {
        self.points.len() > 0
    }
}

/// How the writing of an uplink's points went.
#[derive(Clone, Copy, Debug, PartialEq, Eq, Structural)]
pub enum WriteOutcome {
    /// There was nothing to write.
    Skipped,
    Written,
    Failed,
}

/// The point of one reception, if its strength and its noise are known.
pub open spec fn signal_point(device_id: Seq<char>, rx: RxMetadata, stamp: i64) -> Option<
    PointView,
> {
    match (rx.rssi, rx.snr_bits) {
        (Some(rssi), Some(snr_bits)) => Some(
            PointView {
                measurement: "signal_quality"@,
                tags: seq![("device_id"@, device_id), ("gateway_id"@, rx.gateway_ids.gateway_id@)],
                fields: seq![
                    ("rssi"@, FieldValueView::Int(rssi as i64)),
                    ("snr"@, FieldValueView::Float(snr_bits)),
                ],
                timestamp: stamp,
            },
        ),
        _ => None,
    }
}

/// The points of the receptions, in their order.
pub open spec fn signal_points(device_id: Seq<char>, rx: Seq<RxMetadata>, stamp: i64) -> Seq<
    PointView,
>
    decreases rx.len(),
{
    if rx.len() == 0 {
        Seq::empty()
    } else {
        let before = signal_points(device_id, rx.drop_last(), stamp);
        match signal_point(device_id, rx.last(), stamp) {
            Some(p) => before.push(p),
            None => before,
        }
    }
}

/// The LoRa settings of an uplink.
pub open spec fn lora_of(settings: Option<Settings>) -> Option<LoRaSettings> {
    match settings {
        Some(Settings { data_rate: Some(DataRate { lora }) }) => lora,
        _ => None,
    }
}

/// A field, if there is a value for it.
pub open spec fn optional_field(name: Seq<char>, value: Option<int>) -> Seq<
    (Seq<char>, FieldValueView),
> {
    match value {
        Some(n) => seq![(name, FieldValueView::Int(n as i64))],
        None => Seq::empty(),
    }
}

/// The fields that describe the network: the frame counter, the spreading factor
/// and the bandwidth, each if it is known.
pub open spec fn network_fields(f_cnt: Option<u32>, lora: Option<LoRaSettings>) -> Seq<
    (Seq<char>, FieldValueView),
> {
    let counter = match f_cnt {
        Some(n) => Some(n as int),
        None => None,
    };
    let spreading = match lora {
        Some(LoRaSettings { spreading_factor: Some(n), .. }) => Some(n as int),
        _ => None,
    };
    let bandwidth = match lora {
        Some(LoRaSettings { bandwidth: Some(n), .. }) => Some(n as int),
        _ => None,
    };
    optional_field("f_cnt"@, counter) + optional_field("spreading_factor"@, spreading)
        + optional_field("bandwidth"@, bandwidth)
}

/// The point that describes the network, if any of its fields is known.
pub open spec fn network_point(
    device_id: Seq<char>,
    f_cnt: Option<u32>,
    lora: Option<LoRaSettings>,
    stamp: i64,
) -> Option<PointView> {
    let fields = network_fields(f_cnt, lora);
    if fields.len() == 0 {
        None
    } else {
        Some(
            PointView {
                measurement: "network_info"@,
                tags: seq![("device_id"@, device_id)],
                fields,
                timestamp: stamp,
            },
        )
    }
}

/// The point of the decoded payload, if there is one.
pub open spec fn payload_point(
    device_id: Seq<char>,
    decoded: Option<serde_json::Value>,
    stamp: i64,
) -> Option<PointView> {
    match decoded {
        Some(value) => crate::device::device_point(device_id, json::json_of(value), stamp),
        None => None,
    }
}

/// A sequence of the one point, if there is one.
pub open spec fn at_most_one(p: Option<PointView>) -> Seq<PointView> {
    match p {
        Some(view) => seq![view],
        None => Seq::empty(),
    }
}

/// All the points of a message: those of its receptions, that of the network and
/// that of the device, in this order.
pub open spec fn message_points(message: TtnMessage, stamp: i64) -> Seq<PointView> {
    let device_id = message.result.end_device_ids.device_id@;
    let uplink = message.result.uplink_message;
    signal_points(device_id, uplink.rx_metadata@, stamp) + at_most_one(
        network_point(device_id, uplink.f_cnt, lora_of(uplink.settings), stamp),
    ) + at_most_one(payload_point(device_id, uplink.decoded_payload, stamp))
}

/// The point of one reception, if its strength and its noise are known.
pub fn build_signal_point(device_id: &str, rx: &RxMetadata, timestamp: Timestamp) -> (r: Option<
    Point,
>)
    ensures
        match r {
            Some(p) => signal_point(device_id@, *rx, timestamp.stamp_spec()) == Some(p@),
            None => signal_point(device_id@, *rx, timestamp.stamp_spec()) is None,
        },
{
    match (rx.rssi, rx.snr_bits) {
        (Some(rssi), Some(snr_bits)) => {
            let mut p: Point = Point::new("signal_quality", timestamp.stamp());
            p.tag("device_id", device_id);
            p.tag("gateway_id", rx.gateway_ids.gateway_id.as_str());
            p.field("rssi", FieldValue::Int(rssi as i64));
            p.field("snr", FieldValue::Float(snr_bits));
            assert(Some(p@) =~~= signal_point(device_id@, *rx, timestamp.stamp_spec()));
            Some(p)
        },
        _ => None,
    }
}

/// The point that describes the network, if any of its fields is known.
pub fn build_network_point(
    device_id: &str,
    f_cnt: Option<u32>,
    settings: &Option<Settings>,
    timestamp: Timestamp,
) -> (r: Option<Point>)
    ensures
        match r {
            Some(p) => network_point(device_id@, f_cnt, lora_of(*settings), timestamp.stamp_spec())
                == Some(p@),
            None => network_point(device_id@, f_cnt, lora_of(*settings), timestamp.stamp_spec()) is None,
        },
{
    let mut p: Point = Point::new("network_info", timestamp.stamp());
    p.tag("device_id", device_id);
    let mut has_fields: bool = false;
    if let Some(n) = f_cnt {
        p.field("f_cnt", FieldValue::Int(n as i64));
        has_fields = true;
    }
    if let Some(s) = settings {
        if let Some(rate) = &s.data_rate {
            if let Some(lora) = &rate.lora {
                if let Some(n) = lora.spreading_factor {
                    p.field("spreading_factor", FieldValue::Int(n as i64));
                    has_fields = true;
                }
                if let Some(n) = lora.bandwidth {
                    p.field("bandwidth", FieldValue::Int(n as i64));
                    has_fields = true;
                }
            }
        }
    }
    proof {
        assert(p@.fields =~= network_fields(f_cnt, lora_of(*settings)));
        assert(p@.tags =~= seq![("device_id"@, device_id@)]);
    }
    if has_fields {
        Some(p)
    } else {
        None
    }
}

/// All the points of a message that was received at `timestamp`.
pub fn points_at(message: &TtnMessage, timestamp: Timestamp) -> (r: Vec<Point>)
    ensures
        point::point_views(r@) == message_points(*message, timestamp.stamp_spec()),
{
    let device_id: &str = message.result.end_device_ids.device_id.as_str();
    let uplink: &UplinkMessage = &message.result.uplink_message;
    let ghost stamp = timestamp.stamp_spec();
    let ghost rx = uplink.rx_metadata@;
    let mut points: Vec<Point> = Vec::new();
    let mut i: usize = 0;
    while i < uplink.rx_metadata.len()
        invariant
            i <= uplink.rx_metadata.len(),
            rx == uplink.rx_metadata@,
            stamp == timestamp.stamp_spec(),
            point::point_views(points@) == signal_points(device_id@, rx.take(i as int), stamp),
        decreases uplink.rx_metadata.len() - i,
    {
        proof {
            assert(rx.take(i + 1).drop_last() == rx.take(i as int));
            assert(rx.take(i + 1).last() == rx[i as int]);
        }
        if let Some(p) = build_signal_point(device_id, &uplink.rx_metadata[i], timestamp) {
            assert(point::point_views(points@.push(p)) == point::point_views(points@).push(p@));
            points.push(p);
        }
        i = i + 1;
    }
    assert(rx.take(i as int) == rx);
    let ghost signals = point::point_views(points@);
    if let Some(p) = build_network_point(device_id, uplink.f_cnt, &uplink.settings, timestamp) {
        assert(point::point_views(points@.push(p)) == point::point_views(points@).push(p@));
        points.push(p);
    }
    let ghost network = at_most_one(
        network_point(device_id@, uplink.f_cnt, lora_of(uplink.settings), stamp),
    );
    assert(point::point_views(points@) == signals + network);
    if let Some(decoded) = &uplink.decoded_payload {
        if let Some(p) = build_device_point(device_id, decoded, timestamp) {
            assert(point::point_views(points@.push(p)) == point::point_views(points@).push(p@));
            points.push(p);
        }
    }
    assert(point::point_views(points@) == message_points(*message, stamp));
    points
}

/// What a message becomes: the instant it was received at, and its points.
pub fn prepare_uplink(message: &TtnMessage) -> (r: Result<PreparedUplink, UplinkError>)
    ensures
        match r {
            Ok(prepared) => {
                let t = prepared.timestamp;
                &&& t.wf()
                &&& time::rfc3339_instant(message.result.received_at@) == Some((t.secs, t.nanos))
                &&& point::point_views(prepared.points@) == message_points(*message, t.stamp_spec())
            },
            Err(e) => e is Timestamp && time::rfc3339_instant(message.result.received_at@) is None,
        },
{
    match time::parse_rfc3339(message.result.received_at.as_str()) {
        Ok(timestamp) => {
            let points: Vec<Point> = points_at(message, timestamp);
            Ok(PreparedUplink { timestamp, points })
        },
        Err(_) => Err(UplinkError::Timestamp),
    }
}

/// Takes note that the uplink received at `timestamp` is done with, at `now`, and
/// returns the text of the cursor if that is to be kept. An uplink whose points
/// could not be written leaves everything as it was.
pub fn commit_uplink(
    health: &mut HealthStatus,
    cursor: &mut Cursor,
    timestamp: Timestamp,
    outcome: WriteOutcome,
    now: u64,
) -> (r: Result<Option<String>, UplinkError>)
    requires
        old(cursor).wf(),
        timestamp.wf(),
    ensures
        final(cursor).wf(),
        match r {
            Err(e) => {
                &&& outcome is Failed
                &&& e is Write
                &&& *final(health) == *old(health)
                &&& *final(cursor) == *old(cursor)
            },
            Ok(kept) => {
                &&& !(outcome is Failed)
                &&& *final(health) == old(health).received(now)
                &&& final(cursor).last_received_at == crate::cursor::advanced(
                    old(cursor).last_received_at,
                    timestamp,
                )
                &&& match kept {
                    Some(text) => {
                        &&& crate::cursor::moves(old(cursor).last_received_at, timestamp)
                        &&& text@ == time::rfc3339_text(timestamp.secs, timestamp.nanos)
                        &&& timestamp.has_four_digit_year() ==> crate::cursor::loaded(Some(text@))
                            == final(cursor).last_received_at
                    },
                    None => !crate::cursor::moves(old(cursor).last_received_at, timestamp),
                }
            },
        },
{
    match outcome {
        WriteOutcome::Failed => Err(UplinkError::Write),
        _ => {
            health.update_message_received(now);
            Ok(cursor.update(timestamp))
        },
    }
}

/// The points of the receptions can be written as they stand, carry the device's
/// id and the time, and are no more than the receptions.
proof fn lemma_signal_points(device_id: Seq<char>, rx: Seq<RxMetadata>, stamp: i64)
    ensures
        signal_points(device_id, rx, stamp).len() <= rx.len(),
        forall|i: int|
            0 <= i < signal_points(device_id, rx, stamp).len() ==> {
                let p = #[trigger] signal_points(device_id, rx, stamp)[i];
                &&& p.is_writable()
                &&& p.tags[0] == ("device_id"@, device_id)
                &&& p.timestamp == stamp
            },
    decreases rx.len(),
{
    if rx.len() > 0 {
        lemma_signal_points(device_id, rx.drop_last(), stamp);
        reveal_strlit("device_id");
        reveal_strlit("gateway_id");
        reveal_strlit("rssi");
        reveal_strlit("snr");
        assert("device_id"@.len() != "gateway_id"@.len());
        assert("rssi"@.len() != "snr"@.len());
    }
}

/// Every point of a message can be written as it stands: it has a field, and no
/// tag or field is given twice. It carries the device's id and the time of the
/// message.
pub proof fn law_points_are_writable(message: TtnMessage, stamp: i64, i: int)
    requires
        0 <= i < message_points(message, stamp).len(),
    ensures
        message_points(message, stamp)[i].is_writable(),
        message_points(message, stamp)[i].tags[0] == (
            "device_id"@,
            message.result.end_device_ids.device_id@,
        ),
        message_points(message, stamp)[i].timestamp == stamp,
{
    let device_id = message.result.end_device_ids.device_id@;
    let uplink = message.result.uplink_message;
    let signals = signal_points(device_id, uplink.rx_metadata@, stamp);
    lemma_signal_points(device_id, uplink.rx_metadata@, stamp);
    if i < signals.len() {
        assert(message_points(message, stamp)[i] == signals[i]);
    } else {
        reveal_strlit("f_cnt");
        reveal_strlit("spreading_factor");
        reveal_strlit("bandwidth");
        assert("f_cnt"@.len() == 5 && "spreading_factor"@.len() == 16 && "bandwidth"@.len() == 9);
        if let Some(value) = uplink.decoded_payload {
            crate::device::law_device_point_is_writable(device_id, json::json_of(value), stamp);
        }
    }
}

/// A message has at most one point for each reception, one for the network and
/// one for the device; one without any of these has none.
pub proof fn law_points_are_few(message: TtnMessage, stamp: i64)
    ensures
        message_points(message, stamp).len()
            <= message.result.uplink_message.rx_metadata@.len() + 2,
        message.result.uplink_message.rx_metadata@.len() == 0
            && message.result.uplink_message.f_cnt is None && lora_of(
            message.result.uplink_message.settings,
        ) is None && message.result.uplink_message.decoded_payload is None ==> message_points(
            message,
            stamp,
        ).len() == 0,
{
    lemma_signal_points(
        message.result.end_device_ids.device_id@,
        message.result.uplink_message.rx_metadata@,
        stamp,
    );
}

/// A reception becomes a point exactly where its strength and its noise are
/// known. The point holds both as they are, tells the device and the gateway, and
/// holds nothing else.
pub proof fn law_reception_keeps_its_values(device_id: Seq<char>, rx: RxMetadata, stamp: i64)
    ensures
        match signal_point(device_id, rx, stamp) {
            Some(p) => {
                &&& rx.rssi is Some && rx.snr_bits is Some
                &&& p.measurement == "signal_quality"@
                &&& p.tags.len() == 2
                &&& p.tags[0] == ("device_id"@, device_id)
                &&& p.tags[1] == ("gateway_id"@, rx.gateway_ids.gateway_id@)
                &&& p.fields.len() == 2
                &&& p.fields[0].0 == "rssi"@ && (p.fields[0].1 matches FieldValueView::Int(n) && n
                    == rx.rssi->0)
                &&& p.fields[1].0 == "snr"@ && p.fields[1].1 == FieldValueView::Float(
                    rx.snr_bits->0,
                )
                &&& p.timestamp == stamp
            },
            None => rx.rssi is None || rx.snr_bits is None,
        },
{
}

/// Every reception is taken, in its place: one alone becomes its point, and
/// receptions behind others become points behind those of the others.
pub proof fn law_every_reception_is_taken(
    device_id: Seq<char>,
    a: Seq<RxMetadata>,
    b: Seq<RxMetadata>,
    rx: RxMetadata,
    stamp: i64,
)
    ensures
        signal_points(device_id, Seq::empty(), stamp).len() == 0,
        signal_points(device_id, seq![rx], stamp) == (match signal_point(device_id, rx, stamp) {
            Some(p) => seq![p],
            None => Seq::empty(),
        }),
        signal_points(device_id, a + b, stamp) == signal_points(device_id, a, stamp)
            + signal_points(device_id, b, stamp),
    decreases b.len(),
{
    reveal_with_fuel(signal_points, 2);
    assert(seq![rx].drop_last() == Seq::<RxMetadata>::empty());
    if b.len() == 0 {
        assert(a + b == a);
    } else {
        assert((a + b).drop_last() == a + b.drop_last());
        law_every_reception_is_taken(device_id, a, b.drop_last(), rx, stamp);
    }
}

/// The LoRa settings are those that the settings hold, if they hold any.
pub proof fn law_lora_settings_are_those_of_the_uplink(lora: Option<LoRaSettings>)
    ensures
        lora_of(Some(Settings { data_rate: Some(DataRate { lora }) })) == lora,
        lora_of(Some(Settings { data_rate: None })) is None,
        lora_of(None) is None,
{
}

/// Whether a field of the network is given, with this value.
pub open spec fn is_network_value(
    f_cnt: Option<u32>,
    lora: Option<LoRaSettings>,
    name: Seq<char>,
    n: int,
) -> bool {
    ||| name == "f_cnt"@ && (f_cnt matches Some(m) && m == n)
    ||| name == "spreading_factor"@ && (lora matches Some(l) && l.spreading_factor matches Some(m)
        && m == n)
    ||| name == "bandwidth"@ && (lora matches Some(l) && l.bandwidth matches Some(m) && m == n)
}

/// The network's point carries the frame counter, the spreading factor and the
/// bandwidth, each exactly as the message gives it, and no other field; without
/// any of them there is no point.
pub proof fn law_network_point_carries_its_values(
    device_id: Seq<char>,
    f_cnt: Option<u32>,
    lora: Option<LoRaSettings>,
    stamp: i64,
)
    ensures
        match network_point(device_id, f_cnt, lora, stamp) {
            Some(p) => {
                &&& p.measurement == "network_info"@
                &&& p.tags == seq![("device_id"@, device_id)]
                &&& p.timestamp == stamp
                &&& p.fields.len() > 0
                &&& forall|name: Seq<char>, n: i64| #[trigger]
                    p.fields.contains((name, FieldValueView::Int(n))) <==> is_network_value(
                        f_cnt,
                        lora,
                        name,
                        n as int,
                    )
                &&& forall|i: int| 0 <= i < p.fields.len() ==> (#[trigger] p.fields[i]).1 is Int
            },
            None => f_cnt is None && (lora matches Some(l) ==> l.spreading_factor is None
                && l.bandwidth is None),
        },
{
    let fields = network_fields(f_cnt, lora);
    let counters: int = if f_cnt is Some {
        1
    } else {
        0
    };
    let factors: int = if lora matches Some(l) && l.spreading_factor is Some {
        1
    } else {
        0
    };
    if let Some(m) = f_cnt {
        assert(fields[0] == ("f_cnt"@, FieldValueView::Int(m as i64)));
    }
    if let Some(l) = lora {
        if let Some(m) = l.spreading_factor {
            assert(fields[counters] == ("spreading_factor"@, FieldValueView::Int(m as i64)));
        }
        if let Some(m) = l.bandwidth {
            assert(fields[counters + factors] == ("bandwidth"@, FieldValueView::Int(m as i64)));
        }
    }
    assert forall|name: Seq<char>, n: i64| #[trigger]
        fields.contains((name, FieldValueView::Int(n))) <==> is_network_value(
            f_cnt,
            lora,
            name,
            n as int,
        ) by {
        if is_network_value(f_cnt, lora, name, n as int) {
            assert(fields.contains((name, FieldValueView::Int(n))));
        }
        if fields.contains((name, FieldValueView::Int(n))) {
            let i = choose|i: int|
                0 <= i < fields.len() && fields[i] == (name, FieldValueView::Int(n));
            assert(is_network_value(f_cnt, lora, name, n as int));
        }
    }
}

/// A message's points are those of its receptions, then that of the network, then
/// that of its payload, each if there is one; none is left out and none added.
pub proof fn law_message_keeps_all_its_points(message: TtnMessage, stamp: i64)
    ensures
        ({
            let device_id = message.result.end_device_ids.device_id@;
            let uplink = message.result.uplink_message;
            let all = message_points(message, stamp);
            let signals = signal_points(device_id, uplink.rx_metadata@, stamp);
            let network = network_point(device_id, uplink.f_cnt, lora_of(uplink.settings), stamp);
            let rest = all.skip(signals.len() as int);
            &&& all.take(signals.len() as int) == signals
            &&& all.len() >= signals.len()
            &&& match uplink.decoded_payload {
                Some(value) => match (
                    network,
                    crate::device::device_point(device_id, json::json_of(value), stamp),
                ) {
                    (Some(n), Some(p)) => rest == seq![n, p],
                    (Some(n), None) => rest == seq![n],
                    (None, Some(p)) => rest == seq![p],
                    (None, None) => rest.len() == 0,
                },
                None => match network {
                    Some(n) => rest == seq![n],
                    None => rest.len() == 0,
                },
            }
        }),
{
    let device_id = message.result.end_device_ids.device_id@;
    let signals = signal_points(device_id, message.result.uplink_message.rx_metadata@, stamp);
    assert(message_points(message, stamp).take(signals.len() as int) == signals);
}

} // verus!
