use banyan_cli::config::{DriveAndKeyId, GlobalConfig};
use banyan_cli::error::ConfigStateError;
use banyan_cli::xdg::{config_path, default_user_key_path, xdg_config_home, xdg_data_home};

#[test]
fn new_config_is_empty() {
    let g = GlobalConfig::new();
    assert!(matches!(g.selected_user_key_id(), Err(ConfigStateError::NoKeySelected)));
    assert!(matches!(g.get_account_id(), Err(ConfigStateError::NoAccountId)));
    match g.get_path(&"drive".to_string()) {
        Err(ConfigStateError::LostPath(id)) => assert_eq!(id, "drive"),
        other => panic!("unexpected {:?}", other),
    }
}

#[test]
fn selecting_and_deselecting_keys() {
    let mut g = GlobalConfig::new();
    g.select_user_key_id("primary".to_string());
    assert_eq!(g.selected_user_key_id().unwrap(), "primary");
    assert!(!g.deselect_if_selected(&"other".to_string()));
    assert_eq!(g.selected_user_key_id().unwrap(), "primary");
    assert!(g.rename_selection(&"primary".to_string(), &"main".to_string()));
    assert_eq!(g.selected_user_key_id().unwrap(), "main");
    assert!(!g.rename_selection(&"primary".to_string(), &"x".to_string()));
    assert!(g.deselect_if_selected(&"main".to_string()));
    assert!(g.selected_user_key_id().is_err());
    g.select_user_key_id("k".to_string());
    g.deselect_user_key_id();
    assert!(g.selected_user_key_id().is_err());
}

#[test]
fn account_login_and_logout() {
    let mut g = GlobalConfig::new();
    g.set_account_id(42);
    assert_eq!(g.get_account_id().unwrap(), 42);
    g.remove_account_id();
    assert!(matches!(g.get_account_id(), Err(ConfigStateError::NoAccountId)));
}

#[test]
fn drive_path_read_after_write() {
    let mut g = GlobalConfig::new();
    let a = "alpha".to_string();
    let b = "beta".to_string();
    g.set_path(&a, &"/home/u/alpha".to_string());
    g.set_path(&b, &"/home/u/beta".to_string());
    assert_eq!(g.get_path(&a).unwrap(), "/home/u/alpha");
    g.set_path(&a, &"/srv/alpha".to_string());
    assert_eq!(g.get_path(&a).unwrap(), "/srv/alpha");
    assert_eq!(g.get_path(&b).unwrap(), "/home/u/beta");
    assert_eq!(g.get_origin(&b).unwrap(), "/home/u/beta");
    assert!(g.remove_path(&a).is_ok());
    assert!(g.get_path(&a).is_err());
    assert_eq!(g.get_path(&b).unwrap(), "/home/u/beta");
    match g.remove_path(&a) {
        Err(ConfigStateError::LostPath(id)) => assert_eq!(id, "alpha"),
        other => panic!("unexpected {:?}", other),
    }
}

#[test]
fn drive_and_key_id_holds_both() {
    let d = DriveAndKeyId::new(&"drive".to_string(), &"key".to_string());
    assert_eq!(d.drive_id, "drive");
    assert_eq!(d.user_key_id, "key");
}

#[test]
fn config_error_messages() {
    assert_eq!(ConfigStateError::ExpectedPath("/x".to_string()).message(), "EXPECTED PATH TO EXIST BUT DIDN'T /x");
    assert_eq!(ConfigStateError::NoKey.message(), "Please create a user key first.");
    assert_eq!(ConfigStateError::NoKeySelected.message(), "Please select a user key first.");
    assert_eq!(ConfigStateError::NoAccountId.message(), "Please log in first.");
    assert_eq!(ConfigStateError::MissingKey("k".to_string()).message(), "Key with name `k` is not persisted locally.");
    assert_eq!(ConfigStateError::MissingDrive("d".to_string()).message(), "MISSING DRIVE WITH ID d");
    assert_eq!(ConfigStateError::LostPath("d".to_string()).message(), "UNKNOWN PATH OF DRIVE W ID d");
}

#[test]
fn xdg_locations() {
    assert_eq!(xdg_config_home("/home/ann"), "/home/ann/.config/banyan");
    assert_eq!(xdg_data_home("/home/ann"), "/home/ann/.local/share/banyan");
    assert_eq!(config_path("/home/ann"), "/home/ann/.config/banyan/config.json");
    assert_eq!(default_user_key_path("/home/ann"), "/home/ann/.local/share/banyan/keys/primary.pem");
}
