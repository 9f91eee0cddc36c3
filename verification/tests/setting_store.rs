//! The settings store: creation, lookup, overwrite by key.

use cointracker::create_setting::{create_setting, CreateError};
use cointracker::domain::Value;
use cointracker::find_setting::{find_setting, FindError};
use cointracker::requests::CreateSettingRequest;
use cointracker::setting_table::SettingTable;
use cointracker::settings::{Setting, SettingError};

#[test]
fn empty_key_fails_with_invalid_data_then_round_trip_works() {
    assert!(matches!(
        Setting::new(String::new(), "x".to_string()),
        Err(SettingError::InvalidData(_))
    ));

    let mut table = SettingTable::new();
    let created = create_setting(
        &mut table,
        CreateSettingRequest { key: "theme".to_string(), value: "dark".to_string() },
    )
    .unwrap();
    assert_eq!(*created.key().value(), "theme");
    assert_eq!(*created.value().value(), "dark");

    let found = find_setting(&mut table, "theme".to_string()).unwrap();
    assert_eq!(*found.key().value(), "theme");
    assert_eq!(*found.value().value(), "dark");
}

#[test]
fn create_setting_rejects_empty_parts_without_touching_the_store() {
    let mut table = SettingTable::new();
    let err = create_setting(
        &mut table,
        CreateSettingRequest { key: String::new(), value: "x".to_string() },
    )
    .unwrap_err();
    assert!(matches!(
        err,
        CreateError::SettingError(SettingError::InvalidData(_))
    ));
    assert!(matches!(
        find_setting(&mut table, String::new()),
        Err(FindError::NotFound)
    ));
}

#[test]
fn create_setting_twice_overwrites_by_key() {
    let mut table = SettingTable::new();
    create_setting(
        &mut table,
        CreateSettingRequest { key: "theme".to_string(), value: "dark".to_string() },
    )
    .unwrap();
    create_setting(
        &mut table,
        CreateSettingRequest { key: "theme".to_string(), value: "light".to_string() },
    )
    .unwrap();
    let found = find_setting(&mut table, "theme".to_string()).unwrap();
    assert_eq!(*found.value().value(), "light");
}

#[test]
fn find_setting_of_absent_key_is_not_found() {
    let mut table = SettingTable::new();
    assert!(matches!(
        find_setting(&mut table, "missing".to_string()),
        Err(FindError::NotFound)
    ));
}
