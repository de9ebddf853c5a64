use bt_magic::{BtMagic, CatalogError, DeviceInfo};

fn device(name: &str, last: u8) -> DeviceInfo {
    DeviceInfo { name: name.to_string(), address: [last, 0, 0, 0, 0, 0], connected: false }
}

#[test]
fn search_params_fixed() {
    let p = BtMagic::new().search_params();
    assert!(p.return_authenticated);
    assert!(!p.return_remembered);
    assert!(p.return_unknown);
    assert!(p.return_connected);
    assert!(p.issue_inquiry);
    assert_eq!(p.timeout_multiplier, 2);
}

#[test]
fn no_first_device_is_not_found() {
    let r = BtMagic::new().find_devices(None);
    assert!(matches!(r, Err(CatalogError::DeviceNotFound)));
}

#[test]
fn three_devices_in_call_order() {
    let bt = BtMagic::default();
    let mut d = bt.find_devices(Some(device("a", 1))).ok().unwrap();
    assert!(!d.is_done());
    assert!(d.on_next(Some(device("b", 2))));
    assert!(d.on_next(Some(device("c", 3))));
    assert!(!d.on_next(None));
    assert!(d.is_done());
    assert_eq!(d.len(), 3);
    let names: Vec<String> = d.into_devices().into_iter().map(|x| x.name).collect();
    assert_eq!(names, vec!["a", "b", "c"]);
}

#[test]
fn lookups_after_the_end_are_ignored() {
    let mut d = BtMagic::new().find_devices(Some(device("a", 1))).ok().unwrap();
    assert!(!d.on_next(None));
    assert!(!d.on_next(Some(device("late", 9))));
    assert_eq!(d.len(), 1);
    assert_eq!(d.into_devices()[0].address, [1, 0, 0, 0, 0, 0]);
}
