use netx_msgclient_lib::error::NetXFFIError;
use netx_msgclient_lib::packer::{CUser, User};

#[test]
fn record_marshals_name_and_session() {
    let u = User {
        nickname: String::from("alice"),
        sessionid: 99,
    };
    let c = CUser::from_user(&u).expect("ASCII name");
    assert_eq!(c.nickname, b"alice\0".to_vec());
    assert_eq!(c.session_id, 99);
}

#[test]
fn record_keeps_extreme_session_ids() {
    let u = User {
        nickname: String::from("edge"),
        sessionid: i64::MAX,
    };
    let c = CUser::from_user(&u).unwrap();
    assert_eq!(c.session_id, i64::MAX);
    let v = User {
        nickname: String::from("edge"),
        sessionid: i64::MIN,
    };
    assert_eq!(CUser::from_user(&v).unwrap().session_id, i64::MIN);
}

#[test]
fn record_rejects_embedded_null() {
    let u = User {
        nickname: String::from("al\0ice"),
        sessionid: 1,
    };
    assert_eq!(CUser::from_user(&u).unwrap_err(), NetXFFIError::NullPassed);
}

#[test]
fn records_of_equal_names_own_their_backing() {
    let u = User {
        nickname: String::from("dup"),
        sessionid: 5,
    };
    let mut c1 = CUser::from_user(&u).unwrap();
    let c2 = CUser::from_user(&u).unwrap();
    assert_eq!(c1.nickname, c2.nickname);
    c1.nickname[0] = b'x';
    assert_eq!(c2.nickname, b"dup\0".to_vec());
}
