use axact::gpu::{get_gpu_avg_temp, SensorError};

// Zero enumerated devices is reported as Unavailable, never a crash.
#[test]
fn no_devices_is_unavailable() {
    let temps: Vec<u32> = Vec::new();
    assert_eq!(get_gpu_avg_temp(&temps), Err(SensorError::Unavailable));
}

#[test]
fn single_device_mean_is_its_reading() {
    assert_eq!(get_gpu_avg_temp(&vec![50]), Ok(50));
}

#[test]
fn mean_of_three_devices() {
    assert_eq!(get_gpu_avg_temp(&vec![30, 40, 50]), Ok(40));
}

// The mean rounds down.
#[test]
fn mean_rounds_down() {
    assert_eq!(get_gpu_avg_temp(&vec![40, 41]), Ok(40));
    assert_eq!(get_gpu_avg_temp(&vec![1, 2, 2]), Ok(1));
}

// Error variants compare and copy like plain values.
#[test]
fn sensor_error_variants_are_distinct() {
    assert_ne!(SensorError::Unavailable, SensorError::QueryFailed);
    assert_ne!(SensorError::QueryFailed, SensorError::ActuationFailed);
    assert_ne!(SensorError::Unavailable, SensorError::ActuationFailed);
}
