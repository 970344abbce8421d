use banyan_cli::error::{ConfigStateError, NativeError};
use banyan_cli::native_error::NativeError as DriveError;
use banyan_cli::omni_ops::{already_synced_report, no_content_push_message};
use banyan_cli::specifiers::{DriveId, DriveSpecifier};
use banyan_cli::styled::{Color, Style};

fn text(e: &DriveError) -> String {
    e.message().iter().map(|s| s.text.clone()).collect()
}

#[test]
fn drive_error_messages() {
    assert_eq!(text(&DriveError::missing_credentials()), "Expected local Authorization Credentials but failed to find them");
    assert_eq!(text(&DriveError::missing_identifier()), "Unable to find a remote Identifier associated with that Drive");
    assert_eq!(text(&DriveError::missing_local_drive()), "Unable to find a local Drive with that query");
    assert_eq!(text(&DriveError::missing_remote_drive()), "Unable to find a remote Drive with that query");
    assert_eq!(text(&DriveError::unique_error()), "There is already a unique Drive with these specs");
    assert_eq!(text(&DriveError::bad_data()), "bad data");
    assert_eq!(text(&DriveError::custom_error("plain words")), "plain words");
    let crypto = DriveError::cryptographic("bad key".to_string()).message();
    assert_eq!(crypto[0].text, "CRYPTOGRAPHIC ERROR:");
    assert_eq!(crypto[0].style, Style::Underline);
    assert_eq!(crypto[1].text, " bad key");
    assert_eq!(text(&DriveError::filesytem("x".to_string())), "FILESYSTEM ERROR: x");
    assert_eq!(text(&DriveError::api("y".to_string())), "CLIENT ERROR: y");
    assert_eq!(text(&DriveError::io("z".to_string())), "IO ERROR: z");
    assert_eq!(text(&DriveError::unknown_path("/nowhere")), "No known Drive with that specification");
    assert_eq!(text(&DriveError::unknown_id(5)), "No known Drive with that specification");
}

#[test]
fn operation_error_messages() {
    assert_eq!(NativeError::from_config(ConfigStateError::NoKey).message(), "Please create a user key first.");
    match NativeError::from_utf8_failure("invalid byte") {
        NativeError::Custom(m) => assert_eq!(m, "From UTF8: invalid byte"),
        other => panic!("unexpected {:?}", other),
    }
    match NativeError::strip_prefix_failure("prefix not found") {
        NativeError::Custom(m) => assert_eq!(m, "Strip Prefix: prefix not found"),
        other => panic!("unexpected {:?}", other),
    }
    match NativeError::uuid_failure("bad length") {
        NativeError::Custom(m) => assert_eq!(m, "UUID parsing: bad length"),
        other => panic!("unexpected {:?}", other),
    }
    assert_eq!(NativeError::Api("down".to_string()).message(), "down");
}

#[test]
fn sync_messages() {
    assert_eq!(no_content_push_message(), "METADATA PUSHED; NO CONTENT PUSH NEEDED");
    let r = already_synced_report();
    assert_eq!(r.text, "This Bucket data is already synced :)");
    assert_eq!(r.style, Style::Colored(Color::Green));
}

#[test]
fn drive_ids_from_specifiers() {
    let by_id = DriveId::from_specifier(DriveSpecifier::with_id(0x0123_4567_89ab_cdef_0123_4567_89ab_cdef));
    assert!(matches!(&by_id, DriveId::DriveId(s) if s == "01234567-89ab-cdef-0123-456789abcdef"));
    let global = banyan_cli::config::GlobalConfig::new();
    match by_id.get_id(&global) {
        Err(NativeError::ConfigState(ConfigStateError::MissingDrive(s))) => {
            assert_eq!(s, "01234567-89ab-cdef-0123-456789abcdef")
        }
        other => panic!("unexpected {:?}", other),
    }
    let by_name = DriveId::from_specifier(DriveSpecifier { drive_id: None, name: Some("n".to_string()), origin: None });
    assert_eq!(by_name.get_id(&global).unwrap(), "n");
    let by_origin = DriveId::from_specifier(DriveSpecifier::with_origin("/home/u/photos/"));
    assert_eq!(by_origin.get_id(&global).unwrap(), "photos");
    let rooted = DriveId::from_specifier(DriveSpecifier::with_origin("/"));
    assert!(rooted.get_id(&global).is_err());
}
