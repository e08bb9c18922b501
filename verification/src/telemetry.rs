//! What the runtime shows to the telemetry bridge: the table of tags the
//! bridge publishes, and the values taken from the registry for them.

use vstd::prelude::*;
use crate::analog::{current_from_raw, scaled_current, InputRange, VoltageOrCurrent};
use crate::bits::{le_value, raw_len, raw_load_u16, raw_range};
use crate::channel::{ChannelInput, TermChannel};
use crate::kbus::KBusTerminalGender;
use crate::logic::{read_area_1_lights, read_area_2_lights, AREA_1_POSITION};
use crate::observable::{bit_level, Getter};
use crate::registry::TermStates;

verus! {

/// The values the bridge publishes or accepts.
#[derive(Debug, Clone, Copy, PartialEq, Eq, Structural)]
pub enum PlcTag {
    Temperature,
    Humidity,
    Status,
    Area1Lights,
    Area2Lights,
    Area1LightsHmiCmd,
}

/// The type of a published value.
#[derive(Debug, Clone, Copy, PartialEq, Eq, Structural)]
pub enum PlcValueKind {
    /// A 32-bit float, initially zero.
    Float32,
    /// A 32-bit unsigned integer, initially zero.
    UInt32,
}

/// One variable in the bridge's address space.
#[derive(Debug, Clone, Copy, PartialEq, Eq, Structural)]
pub struct PlcVariable {
    /// The namespace of the variable's node.
    pub namespace: u16,
    /// Which value the variable carries. The tag's name is the node's
    /// identifier, browse name and display name.
    pub tag: PlcTag,
    /// The variable's data type.
    pub kind: PlcValueKind,
    /// Whether clients may write the variable. A writable variable hands
    /// what is written to the runtime; any other is read from the runtime.
    pub writable: bool,
}

impl PlcTag {
    /// The tag's name in the bridge's address space.
    pub open spec fn spec_name(self) -> Seq<char> {
        match self {
            PlcTag::Temperature => "temperature"@,
            PlcTag::Humidity => "humidity"@,
            PlcTag::Status => "status"@,
            PlcTag::Area1Lights => "area 1 lights"@,
            PlcTag::Area2Lights => "area 2 lights"@,
            PlcTag::Area1LightsHmiCmd => "area 1 lights hmi cmd"@,
        }
    }

    /// The tag's name in the bridge's address space.
    pub fn name(self) -> (n: &'static str)
        ensures
            n@ == self.spec_name(),
    {
        match self {
            PlcTag::Temperature => "temperature",
            PlcTag::Humidity => "humidity",
            PlcTag::Status => "status",
            PlcTag::Area1Lights => "area 1 lights",
            PlcTag::Area2Lights => "area 2 lights",
            PlcTag::Area1LightsHmiCmd => "area 1 lights hmi cmd",
        }
    }
}

/// The identifier of the folder that holds the variables.
pub fn plc_folder_id() -> (n: &'static str)
    ensures
        n@ == "plc_tags"@,
{
    "plc_tags"
}

/// The browse and display name of the folder that holds the variables.
pub fn plc_folder_name() -> (n: &'static str)
    ensures
        n@ == "PlcTags"@,
{
    "PlcTags"
}

/// The variables of the bridge in namespace `ns`, in the order in which they
/// are added to the folder.
pub open spec fn plc_variables(ns: u16) -> Seq<PlcVariable> {
    seq![
        PlcVariable {
            namespace: ns,
            tag: PlcTag::Temperature,
            kind: PlcValueKind::Float32,
            writable: false,
        },
        PlcVariable {
            namespace: ns,
            tag: PlcTag::Humidity,
            kind: PlcValueKind::Float32,
            writable: false,
        },
        PlcVariable {
            namespace: ns,
            tag: PlcTag::Status,
            kind: PlcValueKind::UInt32,
            writable: false,
        },
        PlcVariable {
            namespace: ns,
            tag: PlcTag::Area1Lights,
            kind: PlcValueKind::UInt32,
            writable: false,
        },
        PlcVariable {
            namespace: ns,
            tag: PlcTag::Area2Lights,
            kind: PlcValueKind::UInt32,
            writable: false,
        },
        PlcVariable {
            namespace: ns,
            tag: PlcTag::Area1LightsHmiCmd,
            kind: PlcValueKind::UInt32,
            writable: true,
        },
    ]
}

/// Lists the variables that the bridge adds to its address space in
/// namespace `ns`: five values read from the runtime and one command written
/// to it.
pub fn add_plc_variables(ns: u16) -> (vars: Vec<PlcVariable>)
    ensures
        vars@ == plc_variables(ns),
{
    let mut vars: Vec<PlcVariable> = Vec::new();
    vars.push(
        PlcVariable {
            namespace: ns,
            tag: PlcTag::Temperature,
            kind: PlcValueKind::Float32,
            writable: false,
        },
    );
    vars.push(
        PlcVariable {
            namespace: ns,
            tag: PlcTag::Humidity,
            kind: PlcValueKind::Float32,
            writable: false,
        },
    );
    vars.push(
        PlcVariable {
            namespace: ns,
            tag: PlcTag::Status,
            kind: PlcValueKind::UInt32,
            writable: false,
        },
    );
    vars.push(
        PlcVariable {
            namespace: ns,
            tag: PlcTag::Area1Lights,
            kind: PlcValueKind::UInt32,
            writable: false,
        },
    );
    vars.push(
        PlcVariable {
            namespace: ns,
            tag: PlcTag::Area2Lights,
            kind: PlcValueKind::UInt32,
            writable: false,
        },
    );
    vars.push(
        PlcVariable {
            namespace: ns,
            tag: PlcTag::Area1LightsHmiCmd,
            kind: PlcValueKind::UInt32,
            writable: true,
        },
    );
    assert(vars@ =~= plc_variables(ns));
    vars
}

/// The values taken from the registry for the bridge. The scaling of the two
/// analog channels to temperature and humidity is the caller's.
#[derive(Debug, Clone, Copy, PartialEq, Eq, Structural)]
pub struct TelemetrySample {
    /// The raw count of analog channel 2, the temperature sensor.
    pub temperature_raw: u16,
    /// The current of analog channel 2 in nanoamperes.
    pub temperature_na: u32,
    /// The raw count of analog channel 1, the humidity sensor.
    pub humidity_raw: u16,
    /// The current of analog channel 1 in nanoamperes.
    pub humidity_na: u32,
    /// Channel 6 of the first input terminal behind the coupler, as 0 or 1.
    pub status: u32,
    /// Whether the lights of area 1 are commanded on, as 0 or 1.
    pub area_1_lights: u32,
    /// Whether the lights of area 2 are commanded on, as 0 or 1.
    pub area_2_lights: u32,
}

/// Whether the registry holds the terminals that the bridge's values come
/// from: an analog input terminal with at least two channels, an input
/// terminal with at least six bits first behind the coupler, an output
/// terminal at position 1 behind it, and a digital output terminal.
pub open spec fn telemetry_ready(ts: &TermStates) -> bool {
    &&& ts.ebus_ai_terms@.len() > 0
    &&& ts.ebus_ai_terms@[0].readable()
    &&& ts.ebus_ai_terms@[0].num_of_channels >= 2
    &&& ts.kbus_terms@.len() > AREA_1_POSITION
    &&& ts.kbus_terms@[0].gender == KBusTerminalGender::Input
    &&& ts.kbus_terms@[0].tx_data.is_some()
    &&& ts.kbus_terms@[0].tx_data.unwrap()@.len() > 5
    &&& ts.kbus_terms@[AREA_1_POSITION as int].gender == KBusTerminalGender::Output
    &&& ts.kbus_terms@[AREA_1_POSITION as int].rx_data.is_some()
    &&& ts.kbus_terms@[AREA_1_POSITION as int].rx_data.unwrap()@.len() > 0
    &&& ts.ebus_do_terms@.len() > 0
    &&& ts.ebus_do_terms@[0].values@.len() > 0
}

/// The sample that the registry `ts` gives.
pub open spec fn sample_of(ts: &TermStates) -> TelemetrySample {
    let temperature = le_value(ts.ebus_ai_terms@[0].raw(2));
    let humidity = le_value(ts.ebus_ai_terms@[0].raw(1));
    TelemetrySample {
        temperature_raw: temperature as u16,
        temperature_na: scaled_current(temperature) as u32,
        humidity_raw: humidity as u16,
        humidity_na: scaled_current(humidity) as u32,
        status: bit_level(ts.kbus_terms@[0].tx_data.unwrap()@[5]) as u32,
        area_1_lights: bit_level(
            ts.kbus_terms@[AREA_1_POSITION as int].rx_data.unwrap()@[0],
        ) as u32,
        area_2_lights: bit_level(ts.ebus_do_terms@[0].values@[0]) as u32,
    }
}

/// Takes the bridge's values from the registry.
pub fn telemetry_sample(term_states: &TermStates) -> (sample: TelemetrySample)
    requires
        telemetry_ready(term_states),
    ensures
        sample == sample_of(term_states),
{
    let analog = &term_states.ebus_ai_terms[0];
    let temperature_raw = raw_load_u16(&raw_range(&analog.ch_values, 16, 32));
    let humidity_raw = raw_load_u16(&raw_range(&analog.ch_values, 0, 16));
    let status = match term_states.kbus_terms[0].read(
        Some(ChannelInput::Channel(TermChannel::Ch6)),
    ) {
        Ok(reading) => match reading.pick_simple() {
            Some(level) => level,
            None => 0,
        },
        Err(_) => 0,
    };
    TelemetrySample {
        temperature_raw,
        temperature_na: current_from_raw(temperature_raw),
        humidity_raw,
        humidity_na: current_from_raw(humidity_raw),
        status: status as u32,
        area_1_lights: read_area_1_lights(term_states) as u32,
        area_2_lights: read_area_2_lights(term_states) as u32,
    }
}

/// What a client's write to the command variable does: an unsigned 32-bit
/// value is accepted and becomes the pending command; anything else is
/// refused and the pending command stays.
pub fn accept_hmi_command(pending: u32, written: Option<u32>) -> (r: (bool, u32))
    ensures
        r == (match written {
            Some(n) => (true, n),
            None => (false, pending),
        }),
{
    match written {
        Some(n) => (true, n),
        None => (false, pending),
    }
}

/// Tests whether the registry holds the terminals that the bridge's values
/// come from.
pub fn sample_ready(term_states: &TermStates) -> (ok: bool)
    ensures
        ok == telemetry_ready(term_states),
{
    if term_states.ebus_ai_terms.len() == 0 || term_states.kbus_terms.len() <= AREA_1_POSITION
        || term_states.ebus_do_terms.len() == 0 {
        return false;
    }
    let analog = &term_states.ebus_ai_terms[0];
    let want = 16 * (analog.num_of_channels as usize);
    let analog_ok = analog.v_or_i == VoltageOrCurrent::Current && analog.input_range
        == InputRange::Current_4_20mA && raw_len(&analog.ch_values) == want && raw_len(
        &analog.ch_statuses,
    ) == want && raw_len(&analog.ch_toggles) == analog.num_of_channels as usize
        && analog.num_of_channels >= 2;
    let first = &term_states.kbus_terms[0];
    let status_ok = first.gender == KBusTerminalGender::Input && match &first.tx_data {
        Some(tx) => raw_len(tx) > 5,
        None => false,
    };
    let area_1 = &term_states.kbus_terms[AREA_1_POSITION];
    let area_1_ok = area_1.gender == KBusTerminalGender::Output && match &area_1.rx_data {
        Some(rx) => raw_len(rx) > 0,
        None => false,
    };
    analog_ok && status_ok && area_1_ok && raw_len(&term_states.ebus_do_terms[0].values) > 0
}

} // verus!
