use taskchampion_lib::{
    err_to_tcstring, report, tc_server_free, tc_server_new_local, tc_server_new_remote,
    tc_string_clone, tc_string_clone_with_len, tc_string_null, time_t_to_timestamp,
    timestamp_to_time_t, wrap, PassByPointer, PassByValue, ServerConfig, TCServer, TCString,
    TCUuid,
};

fn owned(text: &str) -> TCString<'static> {
    TCString::from_string(text.to_string())
}

const KEY: [u8; 16] = [1, 2, 3, 4, 5, 6, 7, 8, 9, 10, 11, 12, 13, 14, 15, 16];

#[test]
fn report_success_clears_the_slot() {
    let mut slot = owned("stale");
    assert_eq!(report(Ok(5), Some(&mut slot), -1), 5);
    assert_eq!(slot, tc_string_null());
}

#[test]
fn report_failure_writes_the_message() {
    let mut slot = tc_string_null();
    assert_eq!(report(Err("boom".to_string()), Some(&mut slot), -1), -1);
    assert_eq!(slot, owned("boom"));
}

#[test]
fn report_without_slot() {
    assert_eq!(report(Ok(5), None, -1), 5);
    assert_eq!(report(Err("boom".to_string()), None, -1), -1);
}

#[test]
fn wrap_runs_the_function() {
    let mut slot = owned("stale");
    assert_eq!(wrap(|| Ok(7), Some(&mut slot), 0), 7);
    assert_eq!(slot, tc_string_null());

    let mut slot = tc_string_null();
    assert_eq!(wrap(|| Err("no".to_string()), Some(&mut slot), 0), 0);
    assert_eq!(slot, owned("no"));

    assert_eq!(wrap(|| Err("no".to_string()), None, 3), 3);
}

#[test]
fn err_to_tcstring_holds_the_message() {
    assert_eq!(err_to_tcstring("oops".to_string()), owned("oops"));
}

#[test]
fn new_local_hands_the_directory_to_the_server() {
    let mut slot = owned("stale");
    let mut server = tc_server_new_local(
        tc_string_clone(b"/tmp/tc\0"),
        Some(&mut slot),
        |config| Ok::<ServerConfig, String>(config),
    )
    .unwrap();
    assert_eq!(
        *server.as_mut().as_mut(),
        ServerConfig::Local {
            server_dir: b"/tmp/tc".to_vec()
        }
    );
    assert_eq!(slot, tc_string_null());
    tc_server_free(Some(server));
}

#[test]
fn new_local_takes_any_bytes_as_path() {
    let server = tc_server_new_local(
        tc_string_clone_with_len(b"/tmp/\xff\xfe", 7),
        None,
        |config| Ok::<ServerConfig, String>(config),
    );
    let mut server = TCServer::take_from_ptr_arg(server);
    assert_eq!(
        *server.as_mut(),
        ServerConfig::Local {
            server_dir: b"/tmp/\xff\xfe".to_vec()
        }
    );
}

#[test]
fn new_local_reports_failure() {
    let mut slot = tc_string_null();
    let server = tc_server_new_local(owned("/nowhere"), Some(&mut slot), |_config| {
        Err::<u32, String>("cannot open".to_string())
    });
    assert!(server.is_none());
    assert_eq!(slot, owned("cannot open"));

    let server = tc_server_new_local(owned("/nowhere"), None, |_config| {
        Err::<u32, String>("cannot open".to_string())
    });
    assert!(server.is_none());
}

#[test]
fn new_remote_hands_the_configuration_to_the_server() {
    let mut slot = owned("stale");
    let server = tc_server_new_remote(
        tc_string_clone(b"https://tc.example.com\0"),
        TCUuid { bytes: KEY },
        tc_string_clone_with_len(b"s3\0cret", 7),
        Some(&mut slot),
        |config| Ok::<ServerConfig, String>(config),
    );
    let mut server = TCServer::take_from_ptr_arg(server);
    assert_eq!(
        *server.as_mut(),
        ServerConfig::Remote {
            origin: "https://tc.example.com".to_string(),
            client_key: KEY,
            encryption_secret: b"s3\0cret".to_vec(),
        }
    );
    assert_eq!(slot, tc_string_null());
}

#[test]
fn new_remote_rejects_an_origin_that_is_not_text() {
    let mut called = false;
    let mut slot = tc_string_null();
    let server = tc_server_new_remote(
        tc_string_clone(b"abc\xf0\x28\x8c\x28\0"),
        TCUuid { bytes: KEY },
        owned("secret"),
        Some(&mut slot),
        |_config| {
            called = true;
            Ok::<u32, String>(1)
        },
    );
    assert!(server.is_none());
    assert!(!called);
    assert_eq!(slot, owned("value contains invalid UTF-8 bytes"));
}

#[test]
fn new_remote_reports_failure() {
    let mut slot = tc_string_null();
    let server = tc_server_new_remote(
        owned("https://tc.example.com"),
        TCUuid { bytes: KEY },
        owned("secret"),
        Some(&mut slot),
        |_config| Err::<u32, String>("refused".to_string()),
    );
    assert!(server.is_none());
    assert_eq!(slot, owned("refused"));
}

#[test]
fn pointer_round_trip() {
    let server = TCServer::from(41u32);
    let pointer = server.return_ptr();
    assert!(pointer.is_some());
    let mut server = TCServer::take_from_ptr_arg(pointer);
    *server.as_mut() += 1;
    assert_eq!(*server.as_mut(), 42);
    tc_server_free(server.return_ptr());
}

#[derive(Debug, PartialEq)]
struct Probe(u32);

impl PassByPointer for Probe {}

#[test]
fn pointer_lends_its_value() {
    let mut pointer = Probe(1).return_ptr();
    assert_eq!(*Probe::from_ptr_arg_ref(&pointer), Probe(1));
    Probe::from_ptr_arg_ref_mut(&mut pointer).0 = 2;
    assert_eq!(*Probe::from_ptr_arg_ref(&pointer), Probe(2));
    assert_eq!(Probe::take_from_ptr_arg(pointer), Probe(2));
}

#[test]
fn uuid_passes_by_value() {
    assert_eq!(TCUuid::val_from_arg(TCUuid { bytes: KEY }), KEY);
    assert_eq!(TCUuid::return_val(KEY), TCUuid { bytes: KEY });
}

#[test]
fn zero_time_t_is_no_time() {
    assert_eq!(time_t_to_timestamp(0), None);
    assert_eq!(time_t_to_timestamp(1_700_000_000), Some(1_700_000_000));
    assert_eq!(time_t_to_timestamp(-1), Some(-1));
    assert_eq!(timestamp_to_time_t(None), 0);
    assert_eq!(timestamp_to_time_t(Some(1_700_000_000)), 1_700_000_000);
    assert_eq!(timestamp_to_time_t(time_t_to_timestamp(12345)), 12345);
    assert_eq!(timestamp_to_time_t(time_t_to_timestamp(0)), 0);
}
