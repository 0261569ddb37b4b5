use nest_cli::device::{DeviceInfo, DeviceState, Field, FieldValue, TraitEntry};
use nest_cli::errors::CliError;
use nest_cli::translate::{
    build_set_mode_command, build_set_temperature_command, build_status_report, device_line,
    thermostat_indices, Command, ParamValue,
};

fn state_with(traits: Vec<TraitEntry>) -> DeviceState {
    DeviceState { traits }
}

fn trait_entry(full_name: &str, fields: Vec<(&str, FieldValue)>) -> TraitEntry {
    TraitEntry {
        name: String::from(full_name),
        fields: fields
            .into_iter()
            .map(|(k, v)| Field { key: String::from(k), value: v })
            .collect(),
    }
}

fn mode_state(mode: &str) -> DeviceState {
    state_with(vec![trait_entry(
        "sdm.devices.traits.ThermostatMode",
        vec![("mode", FieldValue::Text(String::from(mode)))],
    )])
}

fn single_param(cmd: &Command) -> (&str, &ParamValue) {
    assert_eq!(cmd.params.len(), 1);
    (cmd.params[0].key.as_str(), &cmd.params[0].value)
}

#[test]
fn cool_mode_sets_the_cooling_setpoint() {
    let cmd = build_set_temperature_command(&mode_state("COOL"), 68_000).unwrap();
    assert_eq!(cmd.name, "sdm.devices.commands.ThermostatTemperatureSetpoint.SetCool");
    let (key, value) = single_param(&cmd);
    assert_eq!(key, "coolCelsius");
    assert!(matches!(value, ParamValue::CelsiusMilli(20_000)));
}

#[test]
fn absent_mode_trait_sets_the_heating_setpoint() {
    let cmd = build_set_temperature_command(&state_with(vec![]), 70_000).unwrap();
    assert_eq!(cmd.name, "sdm.devices.commands.ThermostatTemperatureSetpoint.SetHeat");
    let (key, value) = single_param(&cmd);
    assert_eq!(key, "heatCelsius");
    assert!(matches!(value, ParamValue::CelsiusMilli(21_111)));
}

#[test]
fn absent_mode_behaves_exactly_like_explicit_heat() {
    let absent = build_set_temperature_command(&state_with(vec![]), 72_500).unwrap();
    let explicit = build_set_temperature_command(&mode_state("HEAT"), 72_500).unwrap();
    assert_eq!(absent.name, explicit.name);
    let (ka, va) = single_param(&absent);
    let (ke, ve) = single_param(&explicit);
    assert_eq!(ka, ke);
    match (va, ve) {
        (ParamValue::CelsiusMilli(a), ParamValue::CelsiusMilli(e)) => assert_eq!(a, e),
        _ => panic!("setpoint parameters should both be temperatures"),
    }
}

#[test]
fn unknown_mode_falls_back_to_heating() {
    let cmd = build_set_temperature_command(&mode_state("ECO-PLUS"), 70_000).unwrap();
    assert_eq!(cmd.name, "sdm.devices.commands.ThermostatTemperatureSetpoint.SetHeat");
}

#[test]
fn heatcool_mode_is_refused_as_ambiguous() {
    let r = build_set_temperature_command(&mode_state("HEATCOOL"), 68_000);
    assert!(matches!(r, Err(CliError::AmbiguousSetpoint)));
}

#[test]
fn mode_command_is_case_insensitive_and_canonical() {
    let spellings: [&str; 3] = ["Heat", "HEAT", "heat"];
    for s in spellings.iter() {
        let cmd = build_set_mode_command(s).unwrap();
        assert_eq!(cmd.name, "sdm.devices.commands.ThermostatMode.SetMode");
        let (key, value) = single_param(&cmd);
        assert_eq!(key, "mode");
        match value {
            ParamValue::Text(t) => assert_eq!(t, "HEAT"),
            _ => panic!("mode parameter should be text"),
        }
    }
    for (s, want) in [("cOOl", "COOL"), ("heatcool", "HEATCOOL"), ("OFF", "OFF")] {
        let cmd = build_set_mode_command(s).unwrap();
        let (_, value) = single_param(&cmd);
        match value {
            ParamValue::Text(t) => assert_eq!(t, want),
            _ => panic!("mode parameter should be text"),
        }
    }
}

#[test]
fn invalid_mode_is_rejected_by_name() {
    let r = build_set_mode_command("invalid");
    match r {
        Err(CliError::InvalidMode(m)) => {
            assert_eq!(m, "invalid");
            let msg = CliError::InvalidMode(m).message();
            assert!(msg.contains("invalid"));
            assert_eq!(msg, "Unknown mode: invalid. Use heat, cool, heatcool, or off.");
        }
        _ => panic!("an unknown mode must be rejected"),
    }
}

#[test]
fn status_report_reads_every_present_trait() {
    let state = state_with(vec![
        trait_entry(
            "sdm.devices.traits.Info",
            vec![("customName", FieldValue::Text(String::from("Hallway")))],
        ),
        trait_entry(
            "sdm.devices.traits.Temperature",
            vec![("ambientTemperatureCelsius", FieldValue::Milli(21_500))],
        ),
        trait_entry(
            "sdm.devices.traits.Humidity",
            vec![("ambientHumidityPercent", FieldValue::Milli(45_600))],
        ),
        trait_entry(
            "sdm.devices.traits.ThermostatMode",
            vec![("mode", FieldValue::Text(String::from("COOL")))],
        ),
        trait_entry(
            "sdm.devices.traits.ThermostatTemperatureSetpoint",
            vec![("coolCelsius", FieldValue::Milli(20_000))],
        ),
        trait_entry(
            "sdm.devices.traits.Connectivity",
            vec![("status", FieldValue::Text(String::from("ONLINE")))],
        ),
    ]);
    let report = build_status_report(&state);
    assert_eq!(report.name, "Hallway");
    let t = report.temperature.expect("temperature should be present");
    assert_eq!(t.celsius_deci, 215);
    assert_eq!(t.fahrenheit_deci, 707);
    assert_eq!(report.humidity_percent, Some(46));
    assert_eq!(report.mode.as_deref(), Some("COOL"));
    assert!(report.hvac.is_none());
    let cool = report.cool_setpoint.expect("cool setpoint should be present");
    assert_eq!(cool.celsius_deci, 200);
    assert_eq!(cool.fahrenheit_deci, 680);
    assert!(report.heat_setpoint.is_none());
    assert!(report.eco.is_none());
    assert_eq!(report.connectivity.as_deref(), Some("ONLINE"));
}

#[test]
fn status_report_tolerates_an_empty_snapshot() {
    let report = build_status_report(&state_with(vec![]));
    assert_eq!(report.name, "(unnamed)");
    assert!(report.temperature.is_none());
    assert!(report.humidity_percent.is_none());
    assert!(report.mode.is_none());
}

#[test]
fn listing_filters_thermostats_and_formats_lines() {
    let thermostat = DeviceInfo {
        name: Some(String::from("enterprises/p/devices/abc")),
        kind: Some(String::from("sdm.devices.types.THERMOSTAT")),
        state: state_with(vec![trait_entry(
            "sdm.devices.traits.Info",
            vec![("customName", FieldValue::Text(String::from("Living Room")))],
        )]),
    };
    let camera = DeviceInfo {
        name: Some(String::from("enterprises/p/devices/cam")),
        kind: Some(String::from("sdm.devices.types.CAMERA")),
        state: state_with(vec![]),
    };
    let unnamed = DeviceInfo {
        name: None,
        kind: Some(String::from("sdm.devices.types.THERMOSTAT")),
        state: state_with(vec![]),
    };
    let devices = vec![camera, thermostat, unnamed];
    let picked = thermostat_indices(&devices);
    assert_eq!(picked, vec![1, 2]);
    assert_eq!(device_line(&devices[1]), "abc  Living Room");
    assert_eq!(device_line(&devices[2]), "unknown  (unnamed)");
}
