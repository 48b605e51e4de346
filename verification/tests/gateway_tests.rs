use netx_msgclient_lib::error::NetXFFIError;
use netx_msgclient_lib::gateway::{
    call_outcome, connect_outcome, get_users_marshal, login_action, login_return, new_by_config,
    ping_delivery, prepare_get_users, prepare_login, prepare_ping, prepare_talk, prepare_to,
};
use netx_msgclient_lib::interface_server::Request;
use netx_msgclient_lib::packer::{LogOnRes, User};

fn boom() -> anyhow::Error {
    anyhow::Error::msg("boom")
}

#[test]
fn error_codes_are_stable() {
    assert_eq!(NetXFFIError::Success.code(), 0);
    assert_eq!(NetXFFIError::NullPassed.code(), 1);
    assert_eq!(NetXFFIError::Panic.code(), 2);
    assert_eq!(NetXFFIError::AnyHowError.code(), 3);
    assert_eq!(NetXFFIError::NotConnect.code(), 4);
}

#[test]
fn null_text_resolves_to_invalid_argument() {
    assert_eq!(new_by_config(None).unwrap_err(), NetXFFIError::NullPassed);
    assert_eq!(prepare_login(None).unwrap_err(), NetXFFIError::NullPassed);
    assert_eq!(prepare_talk(None).unwrap_err(), NetXFFIError::NullPassed);
    assert_eq!(
        prepare_to(None, Some("hi")).unwrap_err(),
        NetXFFIError::NullPassed
    );
    assert_eq!(
        prepare_to(Some("alice"), None).unwrap_err(),
        NetXFFIError::NullPassed
    );
    assert_eq!(prepare_to(None, None).unwrap_err(), NetXFFIError::NullPassed);
    assert_eq!(prepare_ping(None, 7).unwrap_err(), NetXFFIError::NullPassed);
}

#[test]
fn requests_carry_their_fixed_tags() {
    assert_eq!(prepare_login(Some("alice")).unwrap().tag(), 1000);
    assert_eq!(prepare_get_users().tag(), 1001);
    assert_eq!(prepare_talk(Some("hi all")).unwrap().tag(), 1002);
    assert_eq!(prepare_to(Some("alice"), Some("hi")).unwrap().tag(), 1003);
    assert_eq!(prepare_ping(Some("alice"), 42).unwrap().tag(), 1004);
}

#[test]
fn requests_carry_their_arguments() {
    match prepare_login(Some("alice")).unwrap() {
        Request::Login(l) => assert_eq!(l.nickname, "alice"),
        _ => panic!("wrong operation"),
    }
    match prepare_to(Some("alice"), Some("hi")).unwrap() {
        Request::To(t, m) => {
            assert_eq!(t, "alice");
            assert_eq!(m, "hi");
        }
        _ => panic!("wrong operation"),
    }
    match prepare_ping(Some("alice"), 42).unwrap() {
        Request::Ping(t, tm) => {
            assert_eq!(t, "alice");
            assert_eq!(tm, 42);
        }
        _ => panic!("wrong operation"),
    }
}

#[test]
fn config_parses_full_options() {
    let cfg = "{\"addr\":\"127.0.0.1:6666\",\"service_name\":\"chat\",\
               \"verify_key\":\"k\",\"request_out_time_ms\":5000}";
    let opt = new_by_config(Some(cfg)).expect("a complete configuration must parse");
    assert_eq!(opt.addr, "127.0.0.1:6666");
    assert_eq!(opt.service_name, "chat");
    assert_eq!(opt.request_out_time_ms, 5000);
}

#[test]
fn malformed_config_resolves_to_wrapped_error() {
    assert_eq!(
        new_by_config(Some("not json")).unwrap_err(),
        NetXFFIError::AnyHowError
    );
    assert_eq!(
        new_by_config(Some("{\"addr\":\"127.0.0.1:9000\"}")).unwrap_err(),
        NetXFFIError::AnyHowError
    );
}

#[test]
fn connect_probe_outcomes() {
    assert!(connect_outcome(Ok(())).is_ok());
    assert_eq!(connect_outcome(Err(boom())).unwrap_err(), NetXFFIError::NotConnect);
}

#[test]
fn blocking_call_outcomes() {
    assert!(call_outcome(Ok(())).is_ok());
    assert_eq!(call_outcome(Err(boom())).unwrap_err(), NetXFFIError::AnyHowError);
}

#[test]
fn login_success_invokes_callback_once_with_marshalled_message() {
    let res = LogOnRes {
        success: true,
        msg: String::from("welcome alice"),
    };
    let action = login_action(Ok(res));
    let (flag, msg) = action.expect("a marshalable success must reach the callback");
    assert_eq!(flag, 1);
    assert_eq!(msg, b"welcome alice\0".to_vec());
}

#[test]
fn login_failure_flag_is_zero() {
    let res = LogOnRes {
        success: false,
        msg: String::from("no seat"),
    };
    let (flag, msg) = login_action(Ok(res)).unwrap();
    assert_eq!(flag, 0);
    assert_eq!(msg, b"no seat\0".to_vec());
}

#[test]
fn login_remote_failure_never_invokes_callback() {
    assert!(login_action(Err(boom())).is_none());
}

#[test]
fn login_unmarshalable_message_never_invokes_callback() {
    let res = LogOnRes {
        success: true,
        msg: String::from("wel\0come"),
    };
    assert!(login_action(Ok(res)).is_none());
}

#[test]
fn login_returns_exactly_the_callback_value() {
    assert!(login_return(Some(true)));
    assert!(!login_return(Some(false)));
    assert!(!login_return(None));
}

#[test]
fn roster_count_and_order_match_the_response() {
    let users = vec![
        User {
            nickname: String::from("alice"),
            sessionid: 11,
        },
        User {
            nickname: String::from("bob"),
            sessionid: 22,
        },
        User {
            nickname: String::from("carol"),
            sessionid: 33,
        },
    ];
    let records = get_users_marshal(Ok(users)).expect("marshalable roster");
    assert_eq!(records.len(), 3);
    assert_eq!(records[0].nickname, b"alice\0".to_vec());
    assert_eq!(records[0].session_id, 11);
    assert_eq!(records[1].nickname, b"bob\0".to_vec());
    assert_eq!(records[1].session_id, 22);
    assert_eq!(records[2].nickname, b"carol\0".to_vec());
    assert_eq!(records[2].session_id, 33);
}

#[test]
fn empty_roster_marshals_to_zero_records() {
    let records = get_users_marshal(Ok(Vec::new())).unwrap();
    assert!(records.is_empty());
}

#[test]
fn roster_with_unmarshalable_name_resolves_to_panic_discriminant() {
    let users = vec![User {
        nickname: String::from("al\0ice"),
        sessionid: 1,
    }];
    assert_eq!(get_users_marshal(Ok(users)).unwrap_err(), NetXFFIError::Panic);
}

#[test]
fn roster_remote_failure_resolves_to_wrapped_error() {
    assert_eq!(
        get_users_marshal(Err(boom())).unwrap_err(),
        NetXFFIError::AnyHowError
    );
}

#[test]
fn ping_delivery_pairs_target_with_echoed_time() {
    let (view, time) = ping_delivery("alice", 1620000000).expect("ASCII target");
    assert_eq!(view, b"alice\0".to_vec());
    assert_eq!(time, 1620000000);
}

#[test]
fn concurrent_ping_deliveries_stay_distinct() {
    let (v1, t1) = ping_delivery("alice", 100).unwrap();
    let (v2, t2) = ping_delivery("bob", 200).unwrap();
    assert_ne!(v1, v2);
    assert_eq!((v1, t1), (b"alice\0".to_vec(), 100));
    assert_eq!((v2, t2), (b"bob\0".to_vec(), 200));
}

#[test]
fn scenario_full_session() {
    let cfg = "{\"addr\":\"127.0.0.1:9000\",\"service_name\":\"chat\",\
               \"verify_key\":\"k\",\"request_out_time_ms\":5000}";
    let opt = new_by_config(Some(cfg)).expect("construction");
    assert_eq!(opt.addr, "127.0.0.1:9000");
    assert!(connect_outcome(Ok(())).is_ok());

    let login = prepare_login(Some("alice")).unwrap();
    assert_eq!(login.tag(), 1000);
    let res = LogOnRes {
        success: true,
        msg: String::from("welcome alice"),
    };
    let (flag, msg) = login_action(Ok(res)).unwrap();
    assert_eq!((flag, msg), (1, b"welcome alice\0".to_vec()));
    assert!(login_return(Some(true)));

    let roster = get_users_marshal(Ok(vec![User {
        nickname: String::from("alice"),
        sessionid: 7,
    }]))
    .unwrap();
    assert_eq!(roster.len(), 1);
    assert_eq!(roster[0].nickname, b"alice\0".to_vec());
    assert_eq!(roster[0].session_id, 7);

    let ping = prepare_ping(Some("alice"), 1620000000).unwrap();
    assert_eq!(ping.tag(), 1004);
    let (target, echoed) = ping_delivery("alice", 1620000000).unwrap();
    assert_eq!((target, echoed), (b"alice\0".to_vec(), 1620000000));
}
