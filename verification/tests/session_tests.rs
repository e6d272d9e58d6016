use tbank_bot::models::CustomerRequest;
use tbank_bot::session::{SessionStore, SessionValue, Topic};

fn creds(user: &str) -> SessionValue {
    SessionValue::Credentials(CustomerRequest {
        service_name: "loginCustomer".to_string(),
        user_id: user.to_string(),
        pin: "1234".to_string(),
        otp: "999999".to_string(),
    })
}

fn user_of(v: &SessionValue) -> String {
    match v {
        SessionValue::Credentials(c) => c.user_id.clone(),
        _ => panic!("not credentials"),
    }
}

#[test]
fn get_returns_last_set_value() {
    let mut store = SessionStore::new();
    store.set("chat1", Topic::LoginCred, creds("first"), false, 1000);
    store.set("chat1", Topic::LoginCred, creds("second"), false, 1001);
    let got = store.get("chat1", Topic::LoginCred, 1002).expect("value present");
    assert_eq!(user_of(&got), "second");
}

#[test]
fn keys_are_scoped_and_topical() {
    let mut store = SessionStore::new();
    store.set("chat1", Topic::LoginCred, creds("alice"), false, 0);
    assert!(store.get("chat2", Topic::LoginCred, 1).is_none());
    assert!(store.get("chat1", Topic::Transfer, 1).is_none());
    assert!(store.get("chat1", Topic::LoginCred, 1).is_some());
}

#[test]
fn ephemeral_reads_as_unset_after_ttl() {
    let mut store = SessionStore::new();
    let t = 5000;
    store.set("chat1", Topic::LoginStep, creds("alice"), true, t);
    // still alive one second before the TTL elapses
    assert!(store.get("chat1", Topic::LoginStep, t + 119).is_some());
    // at and after the TTL, indistinguishable from a key never set
    assert!(store.get("chat1", Topic::LoginStep, t + 120).is_none());
    assert!(store.get("chat1", Topic::LoginStep, t + 100000).is_none());
    let never_set = SessionStore::new();
    assert!(never_set.get("chat1", Topic::LoginStep, t + 120).is_none());
}

#[test]
fn durable_entry_does_not_expire() {
    let mut store = SessionStore::new();
    store.set("chat1", Topic::LoginCred, creds("alice"), false, 0);
    assert!(store.get("chat1", Topic::LoginCred, u64::MAX - 200).is_some());
}

#[test]
fn delete_removes_and_is_idempotent() {
    let mut store = SessionStore::new();
    store.set("chat1", Topic::LoginCred, creds("alice"), false, 0);
    store.delete("chat1", Topic::LoginCred);
    assert!(store.get("chat1", Topic::LoginCred, 1).is_none());
    store.delete("chat1", Topic::LoginCred);
    assert!(store.get("chat1", Topic::LoginCred, 1).is_none());
}

#[test]
fn overwrite_changes_lifetime() {
    let mut store = SessionStore::new();
    let t = 100;
    store.set("c", Topic::MicroInvest, SessionValue::InvestAccount("A1".to_string()), true, t);
    store.set("c", Topic::MicroInvest, SessionValue::InvestAccount("A2".to_string()), false, t);
    // the durable overwrite wins: no expiry
    let got = store.get("c", Topic::MicroInvest, t + 100000).expect("still there");
    match got {
        SessionValue::InvestAccount(a) => assert_eq!(a, "A2"),
        _ => panic!("wrong value"),
    }
}
