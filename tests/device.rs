use audiospeedhack::config::SessionError;
use audiospeedhack::device::{DeviceManager, DeviceType};

#[test]
fn select_picks_among_usable_devices() {
    let mut manager: DeviceManager<&str> = DeviceManager::new();
    let devices = vec![("a", true), ("b", false), ("c", true)];
    assert_eq!(manager.select_device(DeviceType::Input, devices, 1), Ok(()));
    assert_eq!(manager.input_device, Some("c"));
    assert_eq!(manager.output_device, None);
}

#[test]
fn select_output_leaves_input_alone() {
    let mut manager: DeviceManager<&str> = DeviceManager::default();
    assert_eq!(manager.select_device(DeviceType::Input, vec![("mic", true)], 0), Ok(()));
    assert_eq!(manager.select_device(DeviceType::Output, vec![("spk", true)], 0), Ok(()));
    assert_eq!(manager.into_devices(), Some(("mic", "spk")));
}

#[test]
fn select_out_of_range_index_fails() {
    let mut manager: DeviceManager<&str> = DeviceManager::new();
    let devices = vec![("a", true), ("b", false)];
    assert_eq!(
        manager.select_device(DeviceType::Output, devices, 1),
        Err(SessionError::DeviceIndexOutOfRange)
    );
    assert_eq!(manager.output_device, None);
}

#[test]
fn select_without_usable_devices_fails() {
    let mut manager: DeviceManager<&str> = DeviceManager::new();
    assert_eq!(
        manager.select_device(DeviceType::Input, vec![("a", false)], 0),
        Err(SessionError::NoDevicesAvailable)
    );
    assert_eq!(
        manager.select_device(DeviceType::Input, vec![], 0),
        Err(SessionError::NoDevicesAvailable)
    );
}

#[test]
fn devices_are_handed_out_only_when_both_are_chosen() {
    let mut manager: DeviceManager<u8> = DeviceManager::new();
    assert_eq!(manager.select_device(DeviceType::Input, vec![(3, true)], 0), Ok(()));
    assert_eq!(manager.into_devices(), None);
}

#[test]
fn device_type_names() {
    assert_eq!(DeviceType::Input.name(), "输入");
    assert_eq!(DeviceType::Output.name(), "输出");
}
