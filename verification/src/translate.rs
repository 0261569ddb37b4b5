//! Translation of user intents into device commands.
//!
//! Pure functions over a device snapshot: pick the right setpoint command
//! for the current mode, canonicalise a requested mode, and reduce a
//! snapshot to a status report.

use vstd::prelude::*;
use vstd::string::StringExecFns;
use vstd::std_specs::vec::vec_index;
use crate::device::{trait_field, DeviceInfo, DeviceState, FieldValue};
use crate::errors::CliError;
use crate::strutil::{matches_ignore_ascii_case, short_id, short_id_spec, str_eq_ignore_ascii_lower};
use crate::temp::{
    celsius_to_fahrenheit, celsius_to_fahrenheit_spec, fahrenheit_to_celsius,
    fahrenheit_to_celsius_spec, milli_to_deci, milli_to_whole, round_div_spec,
};

verus! {

/// One parameter value of a command: a Celsius setpoint in millidegrees,
/// or free-form text such as a mode name.
pub enum ParamValue {
    CelsiusMilli(i64),
    Text(String),
}

/// One named parameter of a command.
pub struct Param {
    pub key: String,
    pub value: ParamValue,
}

/// A named command with its parameter mapping, ready to dispatch.
pub struct Command {
    pub name: String,
    pub params: Vec<Param>,
}

/// `c` is named `name` and carries exactly one parameter, keyed `key`.
pub open spec fn command_shape(c: Command, name: Seq<char>, key: Seq<char>) -> bool {
    c.name@ == name && c.params@.len() == 1 && c.params@[0].key@ == key
}

/// The reported thermostat mode, defaulting to `HEAT` when the trait, the
/// field, or a textual value is absent.
pub open spec fn mode_of(state: DeviceState) -> Seq<char> {
    match trait_field(state, "ThermostatMode"@, "mode"@) {
        Some(FieldValue::Text(m)) => m@,
        _ => "HEAT"@,
    }
}

/// The snapshot reports a textual thermostat mode.
pub open spec fn has_text_mode(state: DeviceState) -> bool {
    trait_field(state, "ThermostatMode"@, "mode"@) matches Some(FieldValue::Text(_))
}

/// Which setpoint command the current mode calls for.
pub enum SetpointChoice {
    /// Mode `COOL`: set the cooling setpoint.
    Cool,
    /// Any other single-setpoint mode, `HEAT` included: set the heating setpoint.
    Heat,
    /// Mode `HEATCOOL`: two setpoints exist, refuse to guess.
    Refused,
}

/// The setpoint decision for a snapshot: `COOL` cools, `HEATCOOL` is
/// refused, and every other mode (explicit, unknown or absent) heats.
pub open spec fn setpoint_choice(state: DeviceState) -> SetpointChoice {
    if mode_of(state) == "COOL"@ {
        SetpointChoice::Cool
    } else if mode_of(state) == "HEATCOOL"@ {
        SetpointChoice::Refused
    } else {
        SetpointChoice::Heat
    }
}

/// The three mode words name three different modes.
proof fn lemma_mode_literals_distinct()
    ensures
        "HEAT"@ != "COOL"@,
        "HEAT"@ != "HEATCOOL"@,
        "COOL"@ != "HEATCOOL"@,
{
    reveal_strlit("HEAT");
    reveal_strlit("COOL");
    reveal_strlit("HEATCOOL");
    assert("HEAT"@.len() == 4);
    assert("COOL"@.len() == 4);
    assert("HEATCOOL"@.len() == 8);
    assert("HEAT"@[0] == 'H');
    assert("COOL"@[0] == 'C');
}

/// A snapshot without a textual mode defaults to `HEAT` and so heats.
pub proof fn lemma_absent_mode_acts_as_heat(state: DeviceState)
    requires
        !has_text_mode(state),
    ensures
        mode_of(state) == "HEAT"@,
        setpoint_choice(state) == SetpointChoice::Heat,
{
    lemma_mode_literals_distinct();
}

/// A snapshot without a textual mode chooses exactly as one whose mode
/// reads `HEAT`: the setpoint decision cannot tell them apart.
pub proof fn lemma_absent_mode_matches_explicit_heat(s1: DeviceState, s2: DeviceState, m: String)
    requires
        !has_text_mode(s1),
        trait_field(s2, "ThermostatMode"@, "mode"@) == Some(FieldValue::Text(m)),
        m@ == "HEAT"@,
    ensures
        mode_of(s1) == mode_of(s2),
        setpoint_choice(s1) == setpoint_choice(s2),
{
    lemma_absent_mode_acts_as_heat(s1);
}

/// Builds the setpoint command for a target given in Fahrenheit
/// millidegrees, branching on the snapshot's current mode.
pub fn build_set_temperature_command(state: &DeviceState, target_f_milli: i64) -> (r: Result<
    Command,
    CliError,
>)
    requires
        -1_000_000_000 <= target_f_milli <= 1_000_000_000,
    ensures
        setpoint_choice(*state) is Refused ==> r == Err::<Command, CliError>(
            CliError::AmbiguousSetpoint,
        ),
        setpoint_choice(*state) is Cool ==> r is Ok && command_shape(
            r->Ok_0,
            "sdm.devices.commands.ThermostatTemperatureSetpoint.SetCool"@,
            "coolCelsius"@,
        ) && r->Ok_0.params@[0].value == ParamValue::CelsiusMilli(
            fahrenheit_to_celsius_spec(target_f_milli as int) as i64,
        ),
        setpoint_choice(*state) is Heat ==> r is Ok && command_shape(
            r->Ok_0,
            "sdm.devices.commands.ThermostatTemperatureSetpoint.SetHeat"@,
            "heatCelsius"@,
        ) && r->Ok_0.params@[0].value == ParamValue::CelsiusMilli(
            fahrenheit_to_celsius_spec(target_f_milli as int) as i64,
        ),
{
    proof {
        lemma_mode_literals_distinct();
    }
    let cool = String::from_str("COOL");
    let heatcool = String::from_str("HEATCOOL");
    let (is_cool, is_heatcool): (bool, bool) = match state.get_trait_field(
        "ThermostatMode",
        "mode",
    ) {
        Some(FieldValue::Text(m)) => (*m == cool, *m == heatcool),
        _ => (false, false),
    };
    assert(is_cool == (mode_of(*state) == "COOL"@));
    assert(is_heatcool == (mode_of(*state) == "HEATCOOL"@));
    if is_heatcool {
        return Err(CliError::AmbiguousSetpoint);
    }
    let celsius = fahrenheit_to_celsius(target_f_milli);
    if is_cool {
        Ok(
            Command {
                name: String::from_str("sdm.devices.commands.ThermostatTemperatureSetpoint.SetCool"),
                params: vec![
                    Param {
                        key: String::from_str("coolCelsius"),
                        value: ParamValue::CelsiusMilli(celsius),
                    },
                ],
            },
        )
    } else {
        Ok(
            Command {
                name: String::from_str("sdm.devices.commands.ThermostatTemperatureSetpoint.SetHeat"),
                params: vec![
                    Param {
                        key: String::from_str("heatCelsius"),
                        value: ParamValue::CelsiusMilli(celsius),
                    },
                ],
            },
        )
    }
}

/// The canonical upper-case mode for a request, matched ignoring ASCII
/// case against `heat`, `cool`, `heatcool` and `off`; anything else is out.
pub open spec fn canonical_mode(m: Seq<char>) -> Option<Seq<char>> {
    if matches_ignore_ascii_case(m, "heat"@) {
        Some("HEAT"@)
    } else if matches_ignore_ascii_case(m, "cool"@) {
        Some("COOL"@)
    } else if matches_ignore_ascii_case(m, "heatcool"@) {
        Some("HEATCOOL"@)
    } else if matches_ignore_ascii_case(m, "off"@) {
        Some("OFF"@)
    } else {
        None
    }
}

/// Builds the mode-switch command, or rejects an unknown mode naming it.
pub fn build_set_mode_command(mode: &str) -> (r: Result<Command, CliError>)
    ensures
        canonical_mode(mode@) is Some ==> r is Ok && command_shape(
            r->Ok_0,
            "sdm.devices.commands.ThermostatMode.SetMode"@,
            "mode"@,
        ) && (r->Ok_0.params@[0].value matches ParamValue::Text(t) && t@ == canonical_mode(
            mode@,
        )->0),
        canonical_mode(mode@) is None ==> (r matches Err(CliError::InvalidMode(m)) && m@
            == mode@),
{
    let canonical: &str = if str_eq_ignore_ascii_lower(mode, "heat") {
        "HEAT"
    } else if str_eq_ignore_ascii_lower(mode, "cool") {
        "COOL"
    } else if str_eq_ignore_ascii_lower(mode, "heatcool") {
        "HEATCOOL"
    } else if str_eq_ignore_ascii_lower(mode, "off") {
        "OFF"
    } else {
        return Err(CliError::InvalidMode(String::from_str(mode)));
    };
    Ok(
        Command {
            name: String::from_str("sdm.devices.commands.ThermostatMode.SetMode"),
            params: vec![
                Param {
                    key: String::from_str("mode"),
                    value: ParamValue::Text(String::from_str(canonical)),
                },
            ],
        },
    )
}

/// The textual content of an optional field, if it is text.
pub open spec fn text_of(v: Option<FieldValue>) -> Option<Seq<char>> {
    match v {
        Some(FieldValue::Text(s)) => Some(s@),
        _ => None,
    }
}

/// The numeric content of an optional field, if it is a number within a
/// million degrees; a wilder reading is treated as absent.
pub open spec fn milli_of(v: Option<FieldValue>) -> Option<int> {
    match v {
        Some(FieldValue::Milli(x)) => if -1_000_000_000 <= x <= 1_000_000_000 {
            Some(x as int)
        } else {
            None
        },
        _ => None,
    }
}

/// A temperature shown both ways, in tenths of a degree.
pub struct TempReading {
    pub celsius_deci: i64,
    pub fahrenheit_deci: i64,
}

/// The structured status of one thermostat; every field is independently
/// optional, mirroring whatever the snapshot reported.
pub struct StatusReport {
    pub name: String,
    pub temperature: Option<TempReading>,
    pub humidity_percent: Option<i64>,
    pub mode: Option<String>,
    pub hvac: Option<String>,
    pub heat_setpoint: Option<TempReading>,
    pub cool_setpoint: Option<TempReading>,
    pub eco: Option<String>,
    pub connectivity: Option<String>,
}

/// `r` reports the Celsius millidegrees `c` rounded to tenths, converted
/// and rounded to Fahrenheit tenths — and is absent exactly when `c` is.
pub open spec fn reading_matches(r: Option<TempReading>, c: Option<int>) -> bool {
    match c {
        None => r is None,
        Some(cm) => r matches Some(t) && t.celsius_deci == round_div_spec(cm, 100)
            && t.fahrenheit_deci == round_div_spec(celsius_to_fahrenheit_spec(cm), 100),
    }
}

/// `o` carries exactly the text `m`, or both are absent.
pub open spec fn text_matches(o: Option<String>, m: Option<Seq<char>>) -> bool {
    match m {
        None => o is None,
        Some(s) => o matches Some(x) && x@ == s,
    }
}

/// The display name of a snapshot: its custom name, or `(unnamed)`.
pub open spec fn display_name_of(state: DeviceState) -> Seq<char> {
    match text_of(trait_field(state, "Info"@, "customName"@)) {
        Some(n) => n,
        None => "(unnamed)"@,
    }
}

/// Copies out one textual field of the snapshot.
fn text_field(state: &DeviceState, ns: &str, key: &str) -> (r: Option<String>)
    ensures
        text_matches(r, text_of(trait_field(*state, ns@, key@))),
{
    match state.get_trait_field(ns, key) {
        Some(FieldValue::Text(s)) => Some(s.clone()),
        _ => None,
    }
}

/// Reduces one Celsius millidegree field to a two-unit reading in tenths.
fn reading_field(state: &DeviceState, ns: &str, key: &str) -> (r: Option<TempReading>)
    ensures
        reading_matches(r, milli_of(trait_field(*state, ns@, key@))),
{
    match state.get_trait_field(ns, key) {
        Some(FieldValue::Milli(x)) => {
            let c: i64 = *x;
            if -1_000_000_000 <= c && c <= 1_000_000_000 {
                let f = celsius_to_fahrenheit(c);
                Some(TempReading { celsius_deci: milli_to_deci(c), fahrenheit_deci: milli_to_deci(f) })
            } else {
                None
            }
        },
        _ => None,
    }
}

/// Reduces a snapshot to a status report: name, temperature in both units
/// at one decimal, humidity to the nearest whole percent, mode, HVAC
/// activity, both setpoints, eco mode and connectivity — each omitted when
/// its trait is absent, never an error.
pub fn build_status_report(state: &DeviceState) -> (r: StatusReport)
    ensures
        r.name@ == display_name_of(*state),
        reading_matches(
            r.temperature,
            milli_of(trait_field(*state, "Temperature"@, "ambientTemperatureCelsius"@)),
        ),
        ({
            let h = milli_of(trait_field(*state, "Humidity"@, "ambientHumidityPercent"@));
            match h {
                None => r.humidity_percent is None,
                Some(m) => r.humidity_percent matches Some(p) && p == round_div_spec(m, 1000),
            }
        }),
        text_matches(r.mode, text_of(trait_field(*state, "ThermostatMode"@, "mode"@))),
        text_matches(r.hvac, text_of(trait_field(*state, "ThermostatHvac"@, "status"@))),
        reading_matches(
            r.heat_setpoint,
            milli_of(trait_field(*state, "ThermostatTemperatureSetpoint"@, "heatCelsius"@)),
        ),
        reading_matches(
            r.cool_setpoint,
            milli_of(trait_field(*state, "ThermostatTemperatureSetpoint"@, "coolCelsius"@)),
        ),
        text_matches(r.eco, text_of(trait_field(*state, "ThermostatEco"@, "mode"@))),
        text_matches(r.connectivity, text_of(trait_field(*state, "Connectivity"@, "status"@))),
{
    let name = match text_field(state, "Info", "customName") {
        Some(n) => n,
        None => String::from_str("(unnamed)"),
    };
    let humidity_percent = match state.get_trait_field("Humidity", "ambientHumidityPercent") {
        Some(FieldValue::Milli(x)) => {
            let m: i64 = *x;
            if -1_000_000_000 <= m && m <= 1_000_000_000 {
                Some(milli_to_whole(m))
            } else {
                None
            }
        },
        _ => None,
    };
    StatusReport {
        name,
        temperature: reading_field(state, "Temperature", "ambientTemperatureCelsius"),
        humidity_percent,
        mode: text_field(state, "ThermostatMode", "mode"),
        hvac: text_field(state, "ThermostatHvac", "status"),
        heat_setpoint: reading_field(state, "ThermostatTemperatureSetpoint", "heatCelsius"),
        cool_setpoint: reading_field(state, "ThermostatTemperatureSetpoint", "coolCelsius"),
        eco: text_field(state, "ThermostatEco", "mode"),
        connectivity: text_field(state, "Connectivity", "status"),
    }
}

/// `d` reports itself as a thermostat.
pub open spec fn is_thermostat(d: DeviceInfo) -> bool {
    d.kind matches Some(k) && k@ == "sdm.devices.types.THERMOSTAT"@
}

/// Whether one listed device is a thermostat.
pub fn device_is_thermostat(d: &DeviceInfo) -> (r: bool)
    ensures
        r == is_thermostat(*d),
{
    match &d.kind {
        Some(k) => {
            let want = String::from_str("sdm.devices.types.THERMOSTAT");
            *k == want
        },
        None => false,
    }
}

/// The positions of the thermostats in a device listing, in order.
pub fn thermostat_indices(devices: &Vec<DeviceInfo>) -> (r: Vec<usize>)
    ensures
        forall|j: int|
            0 <= j < r@.len() ==> r@[j] < devices@.len() && is_thermostat(
                devices@[r@[j] as int],
            ),
        forall|i: int|
            0 <= i < devices@.len() && is_thermostat(devices@[i]) ==> r@.contains(i as usize),
        forall|j1: int, j2: int| 0 <= j1 < j2 < r@.len() ==> r@[j1] < r@[j2],
{
    let n = devices.len();
    let mut out: Vec<usize> = Vec::new();
    let mut i: usize = 0;
    while i < n
        invariant
            i <= n,
            n == devices@.len(),
            forall|j: int|
                0 <= j < out@.len() ==> out@[j] < i && is_thermostat(devices@[out@[j] as int]),
            forall|k: int|
                0 <= k < i && is_thermostat(devices@[k]) ==> out@.contains(k as usize),
            forall|j1: int, j2: int| 0 <= j1 < j2 < out@.len() ==> out@[j1] < out@[j2],
        decreases n - i,
    {
        if device_is_thermostat(vec_index(devices, i)) {
            let ghost prev = out@;
            out.push(i);
            proof {
                assert forall|k: int|
                    0 <= k < i + 1 && is_thermostat(devices@[k]) implies out@.contains(
                    k as usize,
                ) by {
                    if k < i {
                        let w = choose|w: int| 0 <= w < prev.len() && prev[w] == k as usize;
                        assert(out@[w] == k as usize);
                    } else {
                        assert(out@[prev.len() as int] == i);
                    }
                }
            }
        }
        i += 1;
    }
    out
}

/// The full name of a listed device, or `unknown` when it has none.
pub open spec fn device_name_of(d: DeviceInfo) -> Seq<char> {
    match d.name {
        Some(n) => n@,
        None => "unknown"@,
    }
}

/// One listing line: the short device id, two spaces, the display name.
pub open spec fn device_line_spec(d: DeviceInfo) -> Seq<char> {
    short_id_spec(device_name_of(d)) + "  "@ + display_name_of(d.state)
}

/// Formats one device for the listing.
pub fn device_line(d: &DeviceInfo) -> (r: String)
    ensures
        r@ == device_line_spec(*d),
{
    let nm: String = match &d.name {
        Some(n) => n.clone(),
        None => String::from_str("unknown"),
    };
    let sid = short_id(nm.as_str());
    let cn = match text_field(&d.state, "Info", "customName") {
        Some(n) => n,
        None => String::from_str("(unnamed)"),
    };
    let line = sid.concat("  ").concat(cn.as_str());
    proof {
        assert(line@ =~= short_id_spec(device_name_of(*d)) + "  "@ + display_name_of(d.state));
    }
    line
}

} // verus!
