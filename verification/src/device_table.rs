//! The table of known devices: what each calls itself, its measurement, and the
//! members of its payload that become fields.

use vstd::prelude::*;

use crate::text::same_text;

verus! {

broadcast use vstd::string::group_string_axioms;

/// How a payload's number is written.
#[derive(Clone, Copy, Debug, PartialEq, Eq, Structural)]
pub enum FieldType {
    F64,
    I64,
}

/// A member of the payload, the field that it becomes, and how it is written.
pub struct FieldMap {
    pub json_key: &'static str,
    pub influx_field: &'static str,
    pub ty: FieldType,
}

/// What a `FieldMap` holds.
pub struct FieldModel {
    pub json_key: Seq<char>,
    pub influx_field: Seq<char>,
    pub ty: FieldType,
}

impl View for FieldMap {
    type V = FieldModel;

    open spec fn view(&self) -> FieldModel {
        field_model(self.json_key@, self.influx_field@, self.ty)
    }
}

/// A kind of device: the name it gives itself, its measurement and its fields.
pub struct DeviceSpec {
    pub device_type: &'static str,
    pub measurement: &'static str,
    pub fields: Vec<FieldMap>,
}

/// What a `DeviceSpec` holds.
#[verifier::ext_equal]
pub struct DeviceModel {
    pub device_type: Seq<char>,
    pub measurement: Seq<char>,
    pub fields: Seq<FieldModel>,
}

impl View for DeviceSpec {
    type V = DeviceModel;

    open spec fn view(&self) -> DeviceModel {
        DeviceModel {
            device_type: self.device_type@,
            measurement: self.measurement@,
            fields: self.fields@.map_values(|f: FieldMap| f@),
        }
    }
}

/// A field's model from its parts.
pub open spec fn field_model(
    json_key: Seq<char>,
    influx_field: Seq<char>,
    ty: FieldType,
) -> FieldModel {
    FieldModel { json_key, influx_field, ty }
}

/// The known devices. Adding one is one entry here and one in `device_specs`.
pub open spec fn device_table() -> Seq<DeviceModel> {
    seq![
        DeviceModel {
            device_type: "BatteryMonitor"@,
            measurement: "battery_monitor"@,
            fields: seq![
                field_model("voltage"@, "voltage"@, FieldType::F64),
                field_model("current"@, "current"@, FieldType::F64),
                field_model("soc"@, "soc"@, FieldType::F64),
                field_model("consumed_ah"@, "consumed_ah"@, FieldType::F64),
                field_model("rssi"@, "device_rssi"@, FieldType::I64),
            ],
        },
        DeviceModel {
            device_type: "SolarCharger"@,
            measurement: "solar_charger"@,
            fields: seq![
                field_model("battery_voltage"@, "battery_voltage"@, FieldType::F64),
                field_model("battery_current"@, "battery_current"@, FieldType::F64),
                field_model("pv_power"@, "pv_power"@, FieldType::I64),
                field_model("yield_today"@, "yield_today"@, FieldType::I64),
                field_model("rssi"@, "device_rssi"@, FieldType::I64),
            ],
        },
        DeviceModel {
            device_type: "DcDcConverter"@,
            measurement: "dc_dc_converter"@,
            fields: seq![
                field_model("input_voltage"@, "input_voltage"@, FieldType::F64),
                field_model("output_voltage"@, "output_voltage"@, FieldType::F64),
                field_model("off_reason"@, "off_reason"@, FieldType::I64),
                field_model("rssi"@, "device_rssi"@, FieldType::I64),
            ],
        },
        DeviceModel {
            device_type: "AcCharger"@,
            measurement: "ac_charger"@,
            fields: seq![
                field_model("output_voltage1"@, "output_voltage1"@, FieldType::F64),
                field_model("output_current1"@, "output_current1"@, FieldType::F64),
                field_model("output_voltage2"@, "output_voltage2"@, FieldType::F64),
                field_model("output_current2"@, "output_current2"@, FieldType::F64),
                field_model("output_voltage3"@, "output_voltage3"@, FieldType::F64),
                field_model("output_current3"@, "output_current3"@, FieldType::F64),
                field_model("temperature"@, "temperature"@, FieldType::I64),
                field_model("ac_current"@, "ac_current"@, FieldType::F64),
            ],
        },
        DeviceModel {
            device_type: "BatterySense"@,
            measurement: "battery_sense"@,
            fields: seq![
                field_model("voltage"@, "voltage"@, FieldType::F64),
                field_model("temperature"@, "temperature"@, FieldType::F64),
            ],
        },
        DeviceModel {
            device_type: "DcEnergyMeter"@,
            measurement: "dc_energy_meter"@,
            fields: seq![
                field_model("voltage"@, "voltage"@, FieldType::F64),
                field_model("current"@, "current"@, FieldType::F64),
                field_model("power"@, "power"@, FieldType::I64),
            ],
        },
        DeviceModel {
            device_type: "Inverter"@,
            measurement: "inverter"@,
            fields: seq![
                field_model("battery_voltage"@, "battery_voltage"@, FieldType::F64),
                field_model("ac_apparent_power"@, "ac_apparent_power"@, FieldType::I64),
                field_model("ac_voltage"@, "ac_voltage"@, FieldType::F64),
                field_model("ac_current"@, "ac_current"@, FieldType::F64),
            ],
        },
        DeviceModel {
            device_type: "LynxSmartBMS"@,
            measurement: "lynx_smart_bms"@,
            fields: seq![
                field_model("voltage"@, "voltage"@, FieldType::F64),
                field_model("current"@, "current"@, FieldType::F64),
                field_model("soc"@, "soc"@, FieldType::F64),
                field_model("consumed_ah"@, "consumed_ah"@, FieldType::F64),
                field_model("temperature"@, "temperature"@, FieldType::F64),
                field_model("battery_temperature"@, "battery_temperature"@, FieldType::F64),
            ],
        },
        DeviceModel {
            device_type: "OrionXS"@,
            measurement: "orion_xs"@,
            fields: seq![
                field_model("input_voltage"@, "input_voltage"@, FieldType::F64),
                field_model("input_current"@, "input_current"@, FieldType::F64),
                field_model("output_voltage"@, "output_voltage"@, FieldType::F64),
                field_model("output_current"@, "output_current"@, FieldType::F64),
            ],
        },
        DeviceModel {
            device_type: "SmartBatteryProtect"@,
            measurement: "smart_battery_protect"@,
            fields: seq![
                field_model("input_voltage"@, "input_voltage"@, FieldType::F64),
                field_model("output_voltage"@, "output_voltage"@, FieldType::F64),
                field_model("error_code"@, "error_code"@, FieldType::I64),
            ],
        },
        DeviceModel {
            device_type: "SmartLithium"@,
            measurement: "smart_lithium"@,
            fields: seq![
                field_model("battery_voltage"@, "battery_voltage"@, FieldType::F64),
                field_model("cell_count"@, "cell_count"@, FieldType::I64),
                field_model("temperature"@, "temperature"@, FieldType::F64),
            ],
        },
        DeviceModel {
            device_type: "VEBus"@,
            measurement: "vebus"@,
            fields: seq![
                field_model("battery_voltage"@, "battery_voltage"@, FieldType::F64),
                field_model("battery_current"@, "battery_current"@, FieldType::F64),
                field_model("soc"@, "soc"@, FieldType::I64),
                field_model("ac_in_power"@, "ac_in_power"@, FieldType::I64),
                field_model("ac_out_power"@, "ac_out_power"@, FieldType::I64),
                field_model("battery_temperature"@, "battery_temperature"@, FieldType::I64),
            ],
        },
    ]
}

/// The first entry of `table` from `from` on whose device type is `device_type`.
pub open spec fn find_entry(
    table: Seq<DeviceModel>,
    device_type: Seq<char>,
    from: int,
) -> Option<DeviceModel>
    decreases table.len() - from,
{
    if from < 0 || from >= table.len() {
        None
    } else if table[from].device_type == device_type {
        Some(table[from])
    } else {
        find_entry(table, device_type, from + 1)
    }
}

/// The known device that calls itself `device_type`.
pub open spec fn known_device(device_type: Seq<char>) -> Option<DeviceModel> {
    find_entry(device_table(), device_type, 0)
}

fn field_map(json_key: &'static str, influx_field: &'static str, ty: FieldType) -> (r: FieldMap)
    ensures
        r@ == field_model(json_key@, influx_field@, ty),
{
    FieldMap { json_key, influx_field, ty }
}

/// The known devices.
pub fn device_specs() -> (table: Vec<DeviceSpec>)
    ensures
        table@.map_values(|d: DeviceSpec| d@) == device_table(),
{
    let mut table: Vec<DeviceSpec> = Vec::new();
    let entry: DeviceSpec = DeviceSpec {
        device_type: "BatteryMonitor",
        measurement: "battery_monitor",
        fields: vec![
            field_map("voltage", "voltage", FieldType::F64),
            field_map("current", "current", FieldType::F64),
            field_map("soc", "soc", FieldType::F64),
            field_map("consumed_ah", "consumed_ah", FieldType::F64),
            field_map("rssi", "device_rssi", FieldType::I64),
        ],
    };
    assert(entry@ == device_table()[0]);
    table.push(entry);
    let entry: DeviceSpec = DeviceSpec {
        device_type: "SolarCharger",
        measurement: "solar_charger",
        fields: vec![
            field_map("battery_voltage", "battery_voltage", FieldType::F64),
            field_map("battery_current", "battery_current", FieldType::F64),
            field_map("pv_power", "pv_power", FieldType::I64),
            field_map("yield_today", "yield_today", FieldType::I64),
            field_map("rssi", "device_rssi", FieldType::I64),
        ],
    };
    assert(entry@ == device_table()[1]);
    table.push(entry);
    let entry: DeviceSpec = DeviceSpec {
        device_type: "DcDcConverter",
        measurement: "dc_dc_converter",
        fields: vec![
            field_map("input_voltage", "input_voltage", FieldType::F64),
            field_map("output_voltage", "output_voltage", FieldType::F64),
            field_map("off_reason", "off_reason", FieldType::I64),
            field_map("rssi", "device_rssi", FieldType::I64),
        ],
    };
    assert(entry@ == device_table()[2]);
    table.push(entry);
    let entry: DeviceSpec = DeviceSpec {
        device_type: "AcCharger",
        measurement: "ac_charger",
        fields: vec![
            field_map("output_voltage1", "output_voltage1", FieldType::F64),
            field_map("output_current1", "output_current1", FieldType::F64),
            field_map("output_voltage2", "output_voltage2", FieldType::F64),
            field_map("output_current2", "output_current2", FieldType::F64),
            field_map("output_voltage3", "output_voltage3", FieldType::F64),
            field_map("output_current3", "output_current3", FieldType::F64),
            field_map("temperature", "temperature", FieldType::I64),
            field_map("ac_current", "ac_current", FieldType::F64),
        ],
    };
    assert(entry@ == device_table()[3]);
    table.push(entry);
    let entry: DeviceSpec = DeviceSpec {
        device_type: "BatterySense",
        measurement: "battery_sense",
        fields: vec![
            field_map("voltage", "voltage", FieldType::F64),
            field_map("temperature", "temperature", FieldType::F64),
        ],
    };
    assert(entry@ == device_table()[4]);
    table.push(entry);
    let entry: DeviceSpec = DeviceSpec {
        device_type: "DcEnergyMeter",
        measurement: "dc_energy_meter",
        fields: vec![
            field_map("voltage", "voltage", FieldType::F64),
            field_map("current", "current", FieldType::F64),
            field_map("power", "power", FieldType::I64),
        ],
    };
    assert(entry@ == device_table()[5]);
    table.push(entry);
    let entry: DeviceSpec = DeviceSpec {
        device_type: "Inverter",
        measurement: "inverter",
        fields: vec![
            field_map("battery_voltage", "battery_voltage", FieldType::F64),
            field_map("ac_apparent_power", "ac_apparent_power", FieldType::I64),
            field_map("ac_voltage", "ac_voltage", FieldType::F64),
            field_map("ac_current", "ac_current", FieldType::F64),
        ],
    };
    assert(entry@ == device_table()[6]);
    table.push(entry);
    let entry: DeviceSpec = DeviceSpec {
        device_type: "LynxSmartBMS",
        measurement: "lynx_smart_bms",
        fields: vec![
            field_map("voltage", "voltage", FieldType::F64),
            field_map("current", "current", FieldType::F64),
            field_map("soc", "soc", FieldType::F64),
            field_map("consumed_ah", "consumed_ah", FieldType::F64),
            field_map("temperature", "temperature", FieldType::F64),
            field_map("battery_temperature", "battery_temperature", FieldType::F64),
        ],
    };
    assert(entry@ == device_table()[7]);
    table.push(entry);
    let entry: DeviceSpec = DeviceSpec {
        device_type: "OrionXS",
        measurement: "orion_xs",
        fields: vec![
            field_map("input_voltage", "input_voltage", FieldType::F64),
            field_map("input_current", "input_current", FieldType::F64),
            field_map("output_voltage", "output_voltage", FieldType::F64),
            field_map("output_current", "output_current", FieldType::F64),
        ],
    };
    assert(entry@ == device_table()[8]);
    table.push(entry);
    let entry: DeviceSpec = DeviceSpec {
        device_type: "SmartBatteryProtect",
        measurement: "smart_battery_protect",
        fields: vec![
            field_map("input_voltage", "input_voltage", FieldType::F64),
            field_map("output_voltage", "output_voltage", FieldType::F64),
            field_map("error_code", "error_code", FieldType::I64),
        ],
    };
    assert(entry@ == device_table()[9]);
    table.push(entry);
    let entry: DeviceSpec = DeviceSpec {
        device_type: "SmartLithium",
        measurement: "smart_lithium",
        fields: vec![
            field_map("battery_voltage", "battery_voltage", FieldType::F64),
            field_map("cell_count", "cell_count", FieldType::I64),
            field_map("temperature", "temperature", FieldType::F64),
        ],
    };
    assert(entry@ == device_table()[10]);
    table.push(entry);
    let entry: DeviceSpec = DeviceSpec {
        device_type: "VEBus",
        measurement: "vebus",
        fields: vec![
            field_map("battery_voltage", "battery_voltage", FieldType::F64),
            field_map("battery_current", "battery_current", FieldType::F64),
            field_map("soc", "soc", FieldType::I64),
            field_map("ac_in_power", "ac_in_power", FieldType::I64),
            field_map("ac_out_power", "ac_out_power", FieldType::I64),
            field_map("battery_temperature", "battery_temperature", FieldType::I64),
        ],
    };
    assert(entry@ == device_table()[11]);
    table.push(entry);
    assert(table@.map_values(|d: DeviceSpec| d@) =~= device_table());
    table
}

/// The known device that calls itself `device_type`.
pub fn find_device_spec(device_type: &str) -> (r: Option<DeviceSpec>)
    ensures
        match r {
            Some(device) => known_device(device_type@) == Some(device@),
            None => known_device(device_type@) is None,
        },
{
    let mut table: Vec<DeviceSpec> = device_specs();
    let mut i: usize = 0;
    while i < table.len()
        invariant
            i <= table.len(),
            table@.map_values(|d: DeviceSpec| d@) == device_table(),
            known_device(device_type@) == find_entry(device_table(), device_type@, i as int),
        decreases table.len() - i,
    {
        assert(device_table()[i as int] == table@[i as int]@);
        if same_text(table[i].device_type, device_type) {
            return Some(table.swap_remove(i));
        }
        i = i + 1;
    }
    None
}

/// Whether no two of the fields become the same field of a point.
pub open spec fn fields_are_distinct(fields: Seq<FieldModel>) -> bool {
    forall|i: int, j: int|
        0 <= i < j < fields.len() ==> (#[trigger] fields[i]).influx_field != (
        #[trigger] fields[j]).influx_field
}

/// No two known devices call themselves by the same name, and none calls itself
/// `unknown`: the first entry with a name is the only one.
pub proof fn law_device_types_are_distinct(i: int, j: int)
    requires
        0 <= i < j < device_table().len(),
    ensures
        device_table()[i].device_type != device_table()[j].device_type,
        device_table()[i].device_type != "unknown"@,
        device_table()[j].device_type != "unknown"@,
{
    reveal_strlit("BatteryMonitor");
    reveal_strlit("SolarCharger");
    reveal_strlit("DcDcConverter");
    reveal_strlit("AcCharger");
    reveal_strlit("BatterySense");
    reveal_strlit("DcEnergyMeter");
    reveal_strlit("Inverter");
    reveal_strlit("LynxSmartBMS");
    reveal_strlit("OrionXS");
    reveal_strlit("SmartBatteryProtect");
    reveal_strlit("SmartLithium");
    reveal_strlit("VEBus");
    reveal_strlit("unknown");
    assert("BatteryMonitor"@.len() == 14);
    assert("SolarCharger"@.len() == 12);
    assert("DcDcConverter"@.len() == 13);
    assert("AcCharger"@.len() == 9);
    assert("BatterySense"@.len() == 12);
    assert("DcEnergyMeter"@.len() == 13);
    assert("Inverter"@.len() == 8);
    assert("LynxSmartBMS"@.len() == 12);
    assert("OrionXS"@.len() == 7);
    assert("SmartBatteryProtect"@.len() == 19);
    assert("SmartLithium"@.len() == 12);
    assert("VEBus"@.len() == 5);
    assert("unknown"@.len() == 7);
    assert("SolarCharger"@[0] != "BatterySense"@[0]);
    assert("SolarCharger"@[0] != "LynxSmartBMS"@[0]);
    assert("SolarCharger"@[1] != "SmartLithium"@[1]);
    assert("DcDcConverter"@[2] != "DcEnergyMeter"@[2]);
    assert("BatterySense"@[0] != "LynxSmartBMS"@[0]);
    assert("BatterySense"@[0] != "SmartLithium"@[0]);
    assert("LynxSmartBMS"@[0] != "SmartLithium"@[0]);
    assert("OrionXS"@[0] != "unknown"@[0]);
    let table = device_table();
    assert(table[0].device_type == "BatteryMonitor"@);
    assert(table[1].device_type == "SolarCharger"@);
    assert(table[2].device_type == "DcDcConverter"@);
    assert(table[3].device_type == "AcCharger"@);
    assert(table[4].device_type == "BatterySense"@);
    assert(table[5].device_type == "DcEnergyMeter"@);
    assert(table[6].device_type == "Inverter"@);
    assert(table[7].device_type == "LynxSmartBMS"@);
    assert(table[8].device_type == "OrionXS"@);
    assert(table[9].device_type == "SmartBatteryProtect"@);
    assert(table[10].device_type == "SmartLithium"@);
    assert(table[11].device_type == "VEBus"@);
}

/// No device has two members that become the same field, and every device has
/// at least one field.
pub proof fn law_device_fields_are_distinct(i: int)
    requires
        0 <= i < device_table().len(),
    ensures
        device_table()[i].fields.len() > 0,
        fields_are_distinct(device_table()[i].fields),
{
    reveal_strlit("ac_apparent_power");
    reveal_strlit("ac_current");
    reveal_strlit("ac_in_power");
    reveal_strlit("ac_out_power");
    reveal_strlit("ac_voltage");
    reveal_strlit("battery_current");
    reveal_strlit("battery_temperature");
    reveal_strlit("battery_voltage");
    reveal_strlit("cell_count");
    reveal_strlit("consumed_ah");
    reveal_strlit("current");
    reveal_strlit("device_rssi");
    reveal_strlit("error_code");
    reveal_strlit("input_current");
    reveal_strlit("input_voltage");
    reveal_strlit("off_reason");
    reveal_strlit("output_current");
    reveal_strlit("output_current1");
    reveal_strlit("output_current2");
    reveal_strlit("output_current3");
    reveal_strlit("output_voltage");
    reveal_strlit("output_voltage1");
    reveal_strlit("output_voltage2");
    reveal_strlit("output_voltage3");
    reveal_strlit("power");
    reveal_strlit("pv_power");
    reveal_strlit("soc");
    reveal_strlit("temperature");
    reveal_strlit("voltage");
    reveal_strlit("yield_today");
    assert("ac_apparent_power"@.len() == 17);
    assert("ac_current"@.len() == 10);
    assert("ac_in_power"@.len() == 11);
    assert("ac_out_power"@.len() == 12);
    assert("ac_voltage"@.len() == 10);
    assert("battery_current"@.len() == 15);
    assert("battery_temperature"@.len() == 19);
    assert("battery_voltage"@.len() == 15);
    assert("cell_count"@.len() == 10);
    assert("consumed_ah"@.len() == 11);
    assert("current"@.len() == 7);
    assert("device_rssi"@.len() == 11);
    assert("error_code"@.len() == 10);
    assert("input_current"@.len() == 13);
    assert("input_voltage"@.len() == 13);
    assert("off_reason"@.len() == 10);
    assert("output_current"@.len() == 14);
    assert("output_current1"@.len() == 15);
    assert("output_current2"@.len() == 15);
    assert("output_current3"@.len() == 15);
    assert("output_voltage"@.len() == 14);
    assert("output_voltage1"@.len() == 15);
    assert("output_voltage2"@.len() == 15);
    assert("output_voltage3"@.len() == 15);
    assert("power"@.len() == 5);
    assert("pv_power"@.len() == 8);
    assert("soc"@.len() == 3);
    assert("temperature"@.len() == 11);
    assert("voltage"@.len() == 7);
    assert("yield_today"@.len() == 11);
    assert("ac_voltage"@[3] != "ac_current"@[3]);
    assert("battery_voltage"@[8] != "battery_current"@[8]);
    assert("consumed_ah"@[0] != "device_rssi"@[0]);
    assert("consumed_ah"@[0] != "temperature"@[0]);
    assert("input_voltage"@[6] != "input_current"@[6]);
    assert("output_current1"@[14] != "output_current2"@[14]);
    assert("output_current1"@[14] != "output_current3"@[14]);
    assert("output_current1"@[7] != "output_voltage2"@[7]);
    assert("output_current1"@[7] != "output_voltage3"@[7]);
    assert("output_current2"@[14] != "output_current3"@[14]);
    assert("output_current2"@[7] != "output_voltage3"@[7]);
    assert("output_voltage"@[7] != "output_current"@[7]);
    assert("output_voltage1"@[7] != "output_current1"@[7]);
    assert("output_voltage1"@[7] != "output_current2"@[7]);
    assert("output_voltage1"@[7] != "output_current3"@[7]);
    assert("output_voltage1"@[14] != "output_voltage2"@[14]);
    assert("output_voltage1"@[14] != "output_voltage3"@[14]);
    assert("output_voltage2"@[7] != "output_current2"@[7]);
    assert("output_voltage2"@[7] != "output_current3"@[7]);
    assert("output_voltage2"@[14] != "output_voltage3"@[14]);
    assert("output_voltage3"@[7] != "output_current3"@[7]);
    assert("voltage"@[0] != "current"@[0]);
    assert("yield_today"@[0] != "device_rssi"@[0]);
    let table = device_table();
    assert(fields_are_distinct(table[0].fields));
    assert(fields_are_distinct(table[1].fields));
    assert(fields_are_distinct(table[2].fields));
    assert(fields_are_distinct(table[3].fields));
    assert(fields_are_distinct(table[4].fields));
    assert(fields_are_distinct(table[5].fields));
    assert(fields_are_distinct(table[6].fields));
    assert(fields_are_distinct(table[7].fields));
    assert(fields_are_distinct(table[8].fields));
    assert(fields_are_distinct(table[9].fields));
    assert(fields_are_distinct(table[10].fields));
    assert(fields_are_distinct(table[11].fields));
}

/// What the search finds is an entry of the table with that device type.
pub(crate) proof fn lemma_find_entry(table: Seq<DeviceModel>, device_type: Seq<char>, from: int)
    requires
        0 <= from,
    ensures
        match find_entry(table, device_type, from) {
            Some(device) => exists|k: int|
                from <= k < table.len() && #[trigger] table[k] == device && device.device_type
                    == device_type,
            None => forall|k: int|
                from <= k < table.len() ==> (#[trigger] table[k]).device_type != device_type,
        },
    decreases table.len() - from,
{
    if from < table.len() && table[from].device_type != device_type {
        lemma_find_entry(table, device_type, from + 1);
    }
}

/// Every entry of the table is found under its device type.
pub proof fn law_every_entry_is_found(i: int)
    requires
        0 <= i < device_table().len(),
    ensures
        known_device(device_table()[i].device_type) == Some(device_table()[i]),
{
    let device_type = device_table()[i].device_type;
    lemma_find_entry(device_table(), device_type, 0);
    if let Some(device) = known_device(device_type) {
        let k = choose|k: int|
            0 <= k < device_table().len() && #[trigger] device_table()[k] == device;
        if k < i {
            law_device_types_are_distinct(k, i);
        } else if i < k {
            law_device_types_are_distinct(i, k);
        }
    }
}

/// Whether the device that calls itself `device_type` has a member `json_key`
/// that becomes `influx_field`, written as `ty`.
pub open spec fn has_field(
    device_type: Seq<char>,
    json_key: Seq<char>,
    influx_field: Seq<char>,
    ty: FieldType,
) -> bool {
    known_device(device_type) matches Some(device) && exists|k: int|
        0 <= k < device.fields.len() && (#[trigger] device.fields[k]).json_key == json_key
            && device.fields[k].influx_field == influx_field && device.fields[k].ty == ty
}

/// Whether the device that calls itself `device_type` has a member that becomes
/// the field of the same name, written as `ty`.
pub open spec fn reports(device_type: Seq<char>, name: Seq<char>, ty: FieldType) -> bool {
    has_field(device_type, name, name, ty)
}

/// What is found calls itself by the name that was looked for and is in the
/// table, and what is not found is not in it.
pub proof fn law_devices_are_found_by_name(device_type: Seq<char>)
    ensures
        match known_device(device_type) {
            Some(device) => device.device_type == device_type && device_table().contains(device),
            None => forall|k: int|
                0 <= k < device_table().len() ==> (#[trigger] device_table()[k]).device_type
                    != device_type,
        },
{
    lemma_find_entry(device_table(), device_type, 0);
    if let Some(device) = known_device(device_type) {
        let k = choose|k: int|
            0 <= k < device_table().len() && #[trigger] device_table()[k] == device;
        assert(device_table().contains(device));
    }
}

/// A field of an entry of the table is a field of the device.
proof fn lemma_has_field(i: int, k: int)
    requires
        0 <= i < device_table().len(),
        0 <= k < device_table()[i].fields.len(),
    ensures
        has_field(
            device_table()[i].device_type,
            device_table()[i].fields[k].json_key,
            device_table()[i].fields[k].influx_field,
            device_table()[i].fields[k].ty,
        ),
{
    law_every_entry_is_found(i);
    let device = device_table()[i];
    assert(device.fields[k].json_key == device_table()[i].fields[k].json_key);
}

/// A member keeps its name as a field, but for the strength of a device's own
/// signal, which is told from that of the gateway.
pub proof fn law_fields_keep_their_names(i: int, k: int)
    requires
        0 <= i < device_table().len(),
        0 <= k < device_table()[i].fields.len(),
    ensures
        ({
            let field = device_table()[i].fields[k];
            ||| field.influx_field == field.json_key
            ||| field.json_key == "rssi"@ && field.influx_field == "device_rssi"@ && field.ty is I64
        }),
{
}

/// How many fields each device has, and under which measurement they are kept.
pub proof fn law_devices_have_their_measurements()
    ensures
        device_table().len() == 12,
        known_device("BatteryMonitor"@) matches Some(d) && d.measurement == "battery_monitor"@
            && d.fields.len() == 5,
        known_device("SolarCharger"@) matches Some(d) && d.measurement == "solar_charger"@
            && d.fields.len() == 5,
        known_device("DcDcConverter"@) matches Some(d) && d.measurement == "dc_dc_converter"@
            && d.fields.len() == 4,
        known_device("AcCharger"@) matches Some(d) && d.measurement == "ac_charger"@
            && d.fields.len() == 8,
        known_device("BatterySense"@) matches Some(d) && d.measurement == "battery_sense"@
            && d.fields.len() == 2,
        known_device("DcEnergyMeter"@) matches Some(d) && d.measurement == "dc_energy_meter"@
            && d.fields.len() == 3,
        known_device("Inverter"@) matches Some(d) && d.measurement == "inverter"@ && d.fields.len()
            == 4,
        known_device("LynxSmartBMS"@) matches Some(d) && d.measurement == "lynx_smart_bms"@
            && d.fields.len() == 6,
        known_device("OrionXS"@) matches Some(d) && d.measurement == "orion_xs"@ && d.fields.len()
            == 4,
        known_device("SmartBatteryProtect"@) matches Some(d) && d.measurement
            == "smart_battery_protect"@ && d.fields.len() == 3,
        known_device("SmartLithium"@) matches Some(d) && d.measurement == "smart_lithium"@
            && d.fields.len() == 3,
        known_device("VEBus"@) matches Some(d) && d.measurement == "vebus"@ && d.fields.len() == 6,
{
    law_every_entry_is_found(0);
    law_every_entry_is_found(1);
    law_every_entry_is_found(2);
    law_every_entry_is_found(3);
    law_every_entry_is_found(4);
    law_every_entry_is_found(5);
    law_every_entry_is_found(6);
    law_every_entry_is_found(7);
    law_every_entry_is_found(8);
    law_every_entry_is_found(9);
    law_every_entry_is_found(10);
    law_every_entry_is_found(11);
}

/// Which devices report which voltages: all of them as floats.
pub proof fn law_devices_report_voltages()
    ensures
        reports("Inverter"@, "ac_voltage"@, FieldType::F64),
        reports("SolarCharger"@, "battery_voltage"@, FieldType::F64),
        reports("Inverter"@, "battery_voltage"@, FieldType::F64),
        reports("SmartLithium"@, "battery_voltage"@, FieldType::F64),
        reports("VEBus"@, "battery_voltage"@, FieldType::F64),
        reports("DcDcConverter"@, "input_voltage"@, FieldType::F64),
        reports("OrionXS"@, "input_voltage"@, FieldType::F64),
        reports("SmartBatteryProtect"@, "input_voltage"@, FieldType::F64),
        reports("DcDcConverter"@, "output_voltage"@, FieldType::F64),
        reports("OrionXS"@, "output_voltage"@, FieldType::F64),
        reports("SmartBatteryProtect"@, "output_voltage"@, FieldType::F64),
        reports("AcCharger"@, "output_voltage1"@, FieldType::F64),
        reports("AcCharger"@, "output_voltage2"@, FieldType::F64),
        reports("AcCharger"@, "output_voltage3"@, FieldType::F64),
        reports("BatteryMonitor"@, "voltage"@, FieldType::F64),
        reports("BatterySense"@, "voltage"@, FieldType::F64),
        reports("DcEnergyMeter"@, "voltage"@, FieldType::F64),
        reports("LynxSmartBMS"@, "voltage"@, FieldType::F64),
{
    lemma_has_field(6, 2);
    lemma_has_field(1, 0);
    lemma_has_field(6, 0);
    lemma_has_field(10, 0);
    lemma_has_field(11, 0);
    lemma_has_field(2, 0);
    lemma_has_field(8, 0);
    lemma_has_field(9, 0);
    lemma_has_field(2, 1);
    lemma_has_field(8, 2);
    lemma_has_field(9, 1);
    lemma_has_field(3, 0);
    lemma_has_field(3, 2);
    lemma_has_field(3, 4);
    lemma_has_field(0, 0);
    lemma_has_field(4, 0);
    lemma_has_field(5, 0);
    lemma_has_field(7, 0);
}

/// Which devices report which currents: all of them as floats.
pub proof fn law_devices_report_currents()
    ensures
        reports("AcCharger"@, "ac_current"@, FieldType::F64),
        reports("Inverter"@, "ac_current"@, FieldType::F64),
        reports("SolarCharger"@, "battery_current"@, FieldType::F64),
        reports("VEBus"@, "battery_current"@, FieldType::F64),
        reports("BatteryMonitor"@, "current"@, FieldType::F64),
        reports("DcEnergyMeter"@, "current"@, FieldType::F64),
        reports("LynxSmartBMS"@, "current"@, FieldType::F64),
        reports("OrionXS"@, "input_current"@, FieldType::F64),
        reports("OrionXS"@, "output_current"@, FieldType::F64),
        reports("AcCharger"@, "output_current1"@, FieldType::F64),
        reports("AcCharger"@, "output_current2"@, FieldType::F64),
        reports("AcCharger"@, "output_current3"@, FieldType::F64),
{
    lemma_has_field(3, 7);
    lemma_has_field(6, 3);
    lemma_has_field(1, 1);
    lemma_has_field(11, 1);
    lemma_has_field(0, 1);
    lemma_has_field(5, 1);
    lemma_has_field(7, 1);
    lemma_has_field(8, 1);
    lemma_has_field(8, 3);
    lemma_has_field(3, 1);
    lemma_has_field(3, 3);
    lemma_has_field(3, 5);
}

/// Which devices report powers and yields: all of them as integers.
pub proof fn law_devices_report_powers()
    ensures
        reports("Inverter"@, "ac_apparent_power"@, FieldType::I64),
        reports("VEBus"@, "ac_in_power"@, FieldType::I64),
        reports("VEBus"@, "ac_out_power"@, FieldType::I64),
        reports("DcEnergyMeter"@, "power"@, FieldType::I64),
        reports("SolarCharger"@, "pv_power"@, FieldType::I64),
        reports("SolarCharger"@, "yield_today"@, FieldType::I64),
{
    lemma_has_field(6, 1);
    lemma_has_field(11, 3);
    lemma_has_field(11, 4);
    lemma_has_field(5, 2);
    lemma_has_field(1, 2);
    lemma_has_field(1, 3);
}

/// Which devices report temperatures, and whether these are integers or floats.
pub proof fn law_devices_report_temperatures()
    ensures
        reports("LynxSmartBMS"@, "battery_temperature"@, FieldType::F64),
        reports("VEBus"@, "battery_temperature"@, FieldType::I64),
        reports("AcCharger"@, "temperature"@, FieldType::I64),
        reports("BatterySense"@, "temperature"@, FieldType::F64),
        reports("LynxSmartBMS"@, "temperature"@, FieldType::F64),
        reports("SmartLithium"@, "temperature"@, FieldType::F64),
{
    lemma_has_field(7, 5);
    lemma_has_field(11, 5);
    lemma_has_field(3, 6);
    lemma_has_field(4, 1);
    lemma_has_field(7, 4);
    lemma_has_field(10, 2);
}

/// Which devices report the state of their battery, and whether as integers or
/// floats.
pub proof fn law_devices_report_charge()
    ensures
        reports("SmartLithium"@, "cell_count"@, FieldType::I64),
        reports("BatteryMonitor"@, "consumed_ah"@, FieldType::F64),
        reports("LynxSmartBMS"@, "consumed_ah"@, FieldType::F64),
        reports("BatteryMonitor"@, "soc"@, FieldType::F64),
        reports("LynxSmartBMS"@, "soc"@, FieldType::F64),
        reports("VEBus"@, "soc"@, FieldType::I64),
{
    lemma_has_field(10, 1);
    lemma_has_field(0, 3);
    lemma_has_field(7, 3);
    lemma_has_field(0, 2);
    lemma_has_field(7, 2);
    lemma_has_field(11, 2);
}

/// Which devices report the strength of their signal, why they are off and what
/// failed: all of it as integers.
pub proof fn law_devices_report_signals_and_codes()
    ensures
        reports("SmartBatteryProtect"@, "error_code"@, FieldType::I64),
        reports("DcDcConverter"@, "off_reason"@, FieldType::I64),
        has_field("BatteryMonitor"@, "rssi"@, "device_rssi"@, FieldType::I64),
        has_field("SolarCharger"@, "rssi"@, "device_rssi"@, FieldType::I64),
        has_field("DcDcConverter"@, "rssi"@, "device_rssi"@, FieldType::I64),
{
    lemma_has_field(9, 2);
    lemma_has_field(2, 2);
    lemma_has_field(0, 4);
    lemma_has_field(1, 4);
    lemma_has_field(2, 3);
}

/// What an entry holds is all of it: the names, and each of the fields with its
/// key, its name and its type.
pub proof fn law_entry_shows_everything(device: DeviceSpec, k: int)
    ensures
        device@.device_type == device.device_type@,
        device@.measurement == device.measurement@,
        device@.fields.len() == device.fields@.len(),
        0 <= k < device.fields@.len() ==> {
            &&& device@.fields[k].json_key == device.fields@[k].json_key@
            &&& device@.fields[k].influx_field == device.fields@[k].influx_field@
            &&& device@.fields[k].ty == device.fields@[k].ty
        },
{
}

} // verus!
