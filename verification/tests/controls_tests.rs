use bijou::controls::{device_choices, settings_window_response, WindowResponse};
use bijou::device::BijouDevice;

#[test]
fn window_response_follows_buttons() {
    assert_eq!(settings_window_response(false, false), WindowResponse::IDLE);
    assert_eq!(settings_window_response(true, false), WindowResponse::SAVE);
    assert_eq!(settings_window_response(false, true), WindowResponse::CANCEL);
    assert_eq!(settings_window_response(true, true), WindowResponse::CANCEL);
}

#[test]
fn devices_listed_in_order() {
    let listed = vec!["/dev/tty.usbA".to_string(), "/dev/tty.usbB".to_string()];
    assert_eq!(device_choices(Some(listed.clone())), listed);
    assert_eq!(device_choices(Some(Vec::new())), Vec::<String>::new());
}

#[test]
fn no_devices_entry_when_listing_fails() {
    assert_eq!(device_choices(None), vec!["no devices found".to_string()]);
}

#[test]
fn default_device_settings() {
    let d = BijouDevice::default();
    assert_eq!(d.device, "");
    assert!(!d.pump_state && !d.heater_1_state && !d.heater_2_state);
    assert_eq!((d.pump, d.heater_1, d.heater_2), (0, 0, 0));
    assert_eq!(d, d.clone());
}
