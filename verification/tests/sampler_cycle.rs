use axact::gpu::SensorError;
use axact::hub::Hub;
use axact::sampler::{run_cycle, startup, Config, ControllerState, SensorReadings};
use axact::snapshot::{ResourceSnapshot, Snapshot, TemperatureSnapshot};

fn readings(
    cpu_temp: Result<i32, SensorError>,
    gpu_temps: Result<Vec<u32>, SensorError>,
) -> SensorReadings {
    SensorReadings {
        cpu_usage: vec![1200, 3400],
        mem_used: 1024,
        mem_total: 4096,
        cpu_temp,
        gpu_temps,
    }
}

fn expected_resource() -> Snapshot {
    Snapshot::Ressource(ResourceSnapshot {
        cpu_usage: vec![1200, 3400],
        mem_used: 1024,
        mem_total: 4096,
    })
}

#[test]
fn startup_returns_floor_speed_and_baseline_actuation() {
    let (state, baseline) = startup(&Config { show_gpu_temp: true, enable_fan_control: true });
    assert_eq!(state.last_speed, 20);
    assert_eq!(baseline, Some(20));
    let (state, baseline) = startup(&Config { show_gpu_temp: true, enable_fan_control: false });
    assert_eq!(state.last_speed, 20);
    assert_eq!(baseline, None);
}

// A failed GPU read while the CPU read succeeds and fan control is enabled:
// the temperature snapshot carries only the CPU reading and no actuation
// happens that cycle.
#[test]
fn gpu_failure_publishes_cpu_only_and_skips_actuation() {
    let mut hub = Hub::new(4);
    let sub = hub.temperature.subscribe();
    let mut state = ControllerState { last_speed: 20 };
    let config = Config { show_gpu_temp: true, enable_fan_control: true };
    let actuation = run_cycle(
        &mut hub,
        &mut state,
        &config,
        &readings(Ok(50), Err(SensorError::Unavailable)),
    );
    assert_eq!(actuation, None);
    assert_eq!(state.last_speed, 20);
    assert_eq!(
        hub.temperature.receive(sub),
        Some(Snapshot::Temperature(TemperatureSnapshot {
            cpu_temp: Some(50),
            gpu_temp: None,
            fan_speed: None,
        }))
    );
}

// Zero enumerated GPU devices counts as unavailable too.
#[test]
fn zero_gpu_devices_publishes_cpu_only() {
    let mut hub = Hub::new(4);
    let sub = hub.temperature.subscribe();
    let mut state = ControllerState { last_speed: 24 };
    let config = Config { show_gpu_temp: true, enable_fan_control: true };
    let actuation = run_cycle(&mut hub, &mut state, &config, &readings(Ok(50), Ok(vec![])));
    assert_eq!(actuation, None);
    assert_eq!(state.last_speed, 24);
    assert_eq!(
        hub.temperature.receive(sub),
        Some(Snapshot::Temperature(TemperatureSnapshot {
            cpu_temp: Some(50),
            gpu_temp: None,
            fan_speed: None,
        }))
    );
}

// Both temperatures obtained and fan control enabled: the controller runs,
// the state retains the new speed, and the change is actuated.
#[test]
fn hot_cpu_cycle_actuates_and_publishes_full_snapshot() {
    let mut hub = Hub::new(4);
    let rsub = hub.ressource.subscribe();
    let tsub = hub.temperature.subscribe();
    let mut state = ControllerState { last_speed: 20 };
    let config = Config { show_gpu_temp: true, enable_fan_control: true };
    let actuation = run_cycle(&mut hub, &mut state, &config, &readings(Ok(70), Ok(vec![50])));
    assert_eq!(actuation, Some(24));
    assert_eq!(state.last_speed, 24);
    assert_eq!(hub.ressource.receive(rsub), Some(expected_resource()));
    assert_eq!(
        hub.temperature.receive(tsub),
        Some(Snapshot::Temperature(TemperatureSnapshot {
            cpu_temp: Some(70),
            gpu_temp: Some(50),
            fan_speed: Some(24),
        }))
    );
}

// The controller ran but the clamped result equals the previous speed:
// the speed is published, yet no actuation command is issued.
#[test]
fn unchanged_speed_skips_actuation() {
    let mut hub = Hub::new(4);
    let tsub = hub.temperature.subscribe();
    let mut state = ControllerState { last_speed: 20 };
    let config = Config { show_gpu_temp: true, enable_fan_control: true };
    let actuation = run_cycle(&mut hub, &mut state, &config, &readings(Ok(55), Ok(vec![65])));
    assert_eq!(actuation, None);
    assert_eq!(state.last_speed, 20);
    assert_eq!(
        hub.temperature.receive(tsub),
        Some(Snapshot::Temperature(TemperatureSnapshot {
            cpu_temp: Some(55),
            gpu_temp: Some(65),
            fan_speed: Some(20),
        }))
    );
}

// A failed CPU read skips the temperature publication and the controller,
// but the load snapshot is still published.
#[test]
fn cpu_failure_skips_temperature_publication() {
    let mut hub = Hub::new(4);
    let rsub = hub.ressource.subscribe();
    let tsub = hub.temperature.subscribe();
    let mut state = ControllerState { last_speed: 24 };
    let config = Config { show_gpu_temp: true, enable_fan_control: true };
    let actuation = run_cycle(
        &mut hub,
        &mut state,
        &config,
        &readings(Err(SensorError::QueryFailed), Ok(vec![50])),
    );
    assert_eq!(actuation, None);
    assert_eq!(state.last_speed, 24);
    assert_eq!(hub.ressource.receive(rsub), Some(expected_resource()));
    assert_eq!(hub.temperature.receive(tsub), None);
}

// With GPU reporting disabled the snapshot is CPU-only and the controller
// never runs, even with fan control enabled.
#[test]
fn gpu_reporting_disabled_means_no_gpu_and_no_fan() {
    let mut hub = Hub::new(4);
    let tsub = hub.temperature.subscribe();
    let mut state = ControllerState { last_speed: 20 };
    let config = Config { show_gpu_temp: false, enable_fan_control: true };
    let actuation = run_cycle(&mut hub, &mut state, &config, &readings(Ok(90), Ok(vec![90])));
    assert_eq!(actuation, None);
    assert_eq!(state.last_speed, 20);
    assert_eq!(
        hub.temperature.receive(tsub),
        Some(Snapshot::Temperature(TemperatureSnapshot {
            cpu_temp: Some(90),
            gpu_temp: None,
            fan_speed: None,
        }))
    );
}

// With fan control disabled the temperatures are still published, but no
// speed is decided and nothing is actuated.
#[test]
fn fan_control_disabled_publishes_temperatures_only() {
    let mut hub = Hub::new(4);
    let tsub = hub.temperature.subscribe();
    let mut state = ControllerState { last_speed: 20 };
    let config = Config { show_gpu_temp: true, enable_fan_control: false };
    let actuation = run_cycle(&mut hub, &mut state, &config, &readings(Ok(70), Ok(vec![60, 70])));
    assert_eq!(actuation, None);
    assert_eq!(state.last_speed, 20);
    assert_eq!(
        hub.temperature.receive(tsub),
        Some(Snapshot::Temperature(TemperatureSnapshot {
            cpu_temp: Some(70),
            gpu_temp: Some(65),
            fan_speed: None,
        }))
    );
}

// The command-line options carried into the program.
#[test]
fn arg_parser_carries_options() {
    let args = axact::ArgParser {
        host: String::from("0.0.0.0"),
        port: String::from("7032"),
        show_gpu_temp: true,
    };
    assert_eq!(args.host, "0.0.0.0");
    assert_eq!(args.port, "7032");
    assert!(args.show_gpu_temp);
}
