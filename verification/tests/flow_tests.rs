use tbank_bot::callback::handle_callback;
use tbank_bot::controller::handle_message;
use tbank_bot::json::Json;
use tbank_bot::models::{AccountData, Beneficiary, CustomerRequest, Maintenancehistory};
use tbank_bot::ops::{Cont, GatewayOp, GatewayReply, Outcome};
use tbank_bot::decode::{decode_login_response, decode_otp_response, GatewayError};
use tbank_bot::resume::resume;
use tbank_bot::screen::Reply;
use tbank_bot::session::{SessionStore, SessionValue, Topic};

const CHAT: &str = "chat42";
const NOW: u64 = 1_000;

fn done(outcome: Outcome) -> Reply {
    match outcome {
        Outcome::Done(rep) => rep,
        Outcome::Call(..) => panic!("expected a finished reply, got a gateway call"),
    }
}

fn call(outcome: Outcome) -> (GatewayOp, Cont) {
    match outcome {
        Outcome::Call(op, cont) => (op, cont),
        Outcome::Done(..) => panic!("expected a gateway call, got a finished reply"),
    }
}

fn account(id: &str, balance: &str, product: &str) -> AccountData {
    AccountData {
        interest_rate: "0.5".to_string(),
        account_id: id.to_string(),
        parent_account_flag: "N".to_string(),
        balance: balance.to_string(),
        product_id: product.to_string(),
        current_status: "ACTIVE".to_string(),
        currency: "SGD".to_string(),
        home_branch: "001".to_string(),
        account_open_date: "2020-01-01".to_string(),
        maintenancehistory: Maintenancehistory {
            last_transaction_branch: "001".to_string(),
            last_maintenance_officer: "OFF1".to_string(),
        },
        officer_id: "OFF1".to_string(),
    }
}

fn beneficiary(id: &str, desc: &str) -> Beneficiary {
    Beneficiary {
        account_id: id.to_string(),
        description: desc.to_string(),
        currency: "SGD".to_string(),
        beneficiary_id: "B1".to_string(),
    }
}

/// The status-header reply the gateway sends, with `field` set to `value`.
fn status_reply(field: &str, value: &str) -> Json {
    Json::Obj(vec![(
        "Content".to_string(),
        Json::Obj(vec![(
            "ServiceResponse".to_string(),
            Json::Obj(vec![(
                "ServiceRespHeader".to_string(),
                Json::Obj(vec![(field.to_string(), Json::Str(value.to_string()))]),
            )]),
        )]),
    )])
}

fn seed_credentials(store: &mut SessionStore, user: &str) {
    store.set(
        CHAT,
        Topic::LoginCred,
        SessionValue::Credentials(CustomerRequest {
            service_name: "loginCustomer".to_string(),
            user_id: user.to_string(),
            pin: "1234".to_string(),
            otp: "999999".to_string(),
        }),
        false,
        NOW,
    );
}

#[test]
fn scenario_anonymous_login() {
    let mut store = SessionStore::new();

    // /start with no durable credentials: the Login option only
    let rep = done(handle_message(&mut store, CHAT, "/start", NOW));
    assert_eq!(rep.screen.buttons, vec!["Login".to_string()]);

    // Login button: prompted for username
    let rep = done(handle_callback(&mut store, CHAT, "Login", NOW));
    assert_eq!(rep.screen.text, "Please key in your username");

    // username: prompted for PIN
    let rep = done(handle_message(&mut store, CHAT, "alice", NOW));
    assert_eq!(rep.screen.text, "Please key in your PIN");

    // PIN: the OTP request goes out
    let (op, cont) = call(handle_message(&mut store, CHAT, "1234", NOW));
    match &op {
        GatewayOp::RequestOtp(b) => {
            assert_eq!(b.service_name, "requestOTP");
            assert_eq!(b.user_id, "alice");
            assert_eq!(b.pin, "1234");
        },
        _ => panic!("expected the OTP request"),
    }

    // the gateway reports error_details="success": prompted for OTP
    let otp_reply = match decode_otp_response(&status_reply("ErrorDetails", "success")) {
        Ok(()) => GatewayReply::OtpRequested,
        Err(e) => GatewayReply::Failed(e),
    };
    let rep = done(resume(&mut store, CHAT, cont, otp_reply, NOW));
    assert_eq!(rep.screen.text, "Please key in your OTP");

    // OTP: the login goes out
    let (op, cont) = call(handle_message(&mut store, CHAT, "000000", NOW));
    match &op {
        GatewayOp::LoginCustomer(c) => {
            assert_eq!(c.user_id, "alice");
            assert_eq!(c.pin, "1234");
            assert_eq!(c.otp, "000000");
        },
        _ => panic!("expected the login"),
    }

    // login reports Success: durable credentials persisted, authenticated home
    let login_reply = match decode_login_response(&status_reply("ErrorDetails", "Success")) {
        Ok(()) => GatewayReply::LoggedIn,
        Err(e) => GatewayReply::Failed(e),
    };
    let rep = done(resume(&mut store, CHAT, cont, login_reply, NOW));
    assert_eq!(
        rep.screen.buttons,
        vec![
            "Check Balance".to_string(),
            "Transfer".to_string(),
            "Logout".to_string(),
            "Enable MicroInvest".to_string(),
        ]
    );
    match store.get(CHAT, Topic::LoginCred, NOW) {
        Some(SessionValue::Credentials(c)) => {
            assert_eq!(c.user_id, "alice");
            assert_eq!(c.pin, "1234");
            assert_eq!(c.otp, "999999");
        },
        _ => panic!("credentials not persisted"),
    }
}

#[test]
fn scenario_transfer_without_invest() {
    let mut store = SessionStore::new();
    seed_credentials(&mut store, "alice");

    // Transfer: the beneficiary list is fetched
    let (op, cont) = call(handle_callback(&mut store, CHAT, "Transfer", NOW));
    assert!(matches!(op, GatewayOp::GetBeneficiaries(_)));
    let rep = done(resume(
        &mut store,
        CHAT,
        cont,
        GatewayReply::Beneficiaries(vec![beneficiary("ACC99", "Savings")]),
        NOW,
    ));
    assert_eq!(
        rep.screen.buttons,
        vec![
            "Transfer To Savings ACC99".to_string(),
            "Add Beneficiary".to_string(),
            "Back".to_string(),
        ]
    );

    // destination picked: prompted for the amount
    let rep = done(handle_callback(&mut store, CHAT, "Transfer To Savings ACC99", NOW));
    assert_eq!(rep.screen.text, "How much do you want to transfer?");

    // amount: accounts fetched, sources with enough balance offered
    let (op, cont) = call(handle_message(&mut store, CHAT, "100.00", NOW));
    assert!(matches!(op, GatewayOp::GetCustomerAccounts(_)));
    let rep = done(resume(
        &mut store,
        CHAT,
        cont,
        GatewayReply::Accounts(vec![account("ACC01", "500.00", "100"), account("ACC02", "50.00", "100")]),
        NOW,
    ));
    assert_eq!(rep.screen.buttons, vec!["Transfer From ACC01".to_string(), "Back".to_string()]);

    // source picked, no auto-invest configured: one-leg summary
    let rep = done(handle_callback(&mut store, CHAT, "Transfer From ACC01", NOW));
    assert_eq!(
        rep.screen.text,
        "SUMMARY\nTransferring to: ACC99\nTransferring from ACC01\nAmount: $100.00"
    );
    assert_eq!(rep.screen.buttons, vec!["Confirm".to_string(), "Back".to_string()]);

    // confirm: the transfer goes out with the drafted order
    let (op, cont) = call(handle_callback(&mut store, CHAT, "Confirm", NOW));
    match &op {
        GatewayOp::Transfer(data, tx) => {
            assert_eq!(data.service_name, "creditTransfer");
            assert_eq!(tx.account_to, "ACC99");
            assert_eq!(tx.account_from, "ACC01");
            assert_eq!(tx.transaction_amount, "100.00");
            assert_eq!(tx.narrative, "Simple Transfer");
        },
        _ => panic!("expected the transfer"),
    }
    match &cont {
        Cont::PrimaryTransfer { invest, .. } => assert!(invest.is_none()),
        _ => panic!("expected the primary-transfer continuation"),
    }

    // success: home again with the success notice
    let rep = done(resume(&mut store, CHAT, cont, GatewayReply::InvocationOk, NOW));
    assert_eq!(rep.notice, Some("The transfer has been done".to_string()));
    assert_eq!(rep.screen.text, "Hello! What banking service can I help you with today?");
}

#[test]
fn scenario_transfer_with_partial_invest() {
    let mut store = SessionStore::new();
    seed_credentials(&mut store, "alice");
    store.set(
        "alice",
        Topic::MicroInvest,
        SessionValue::InvestAccount("ACC50".to_string()),
        false,
        NOW,
    );
    store.set("alice", Topic::Percentage, SessionValue::InvestPercent(5), false, NOW);

    let (_, cont) = call(handle_callback(&mut store, CHAT, "Transfer", NOW));
    done(resume(
        &mut store,
        CHAT,
        cont,
        GatewayReply::Beneficiaries(vec![beneficiary("ACC99", "Savings")]),
        NOW,
    ));
    done(handle_callback(&mut store, CHAT, "Transfer To Savings ACC99", NOW));
    let (_, cont) = call(handle_message(&mut store, CHAT, "100.00", NOW));
    done(resume(
        &mut store,
        CHAT,
        cont,
        GatewayReply::Accounts(vec![account("ACC01", "500.00", "100")]),
        NOW,
    ));

    // source differs from the invest target: the balance must cover both legs
    let (op, cont) = call(handle_callback(&mut store, CHAT, "Transfer From ACC01", NOW));
    assert!(matches!(op, GatewayOp::GetCustomerAccounts(_)));
    let rep = done(resume(
        &mut store,
        CHAT,
        cont,
        GatewayReply::Accounts(vec![account("ACC01", "500.00", "100")]),
        NOW,
    ));
    // the invest amount is 5% of 100.00
    assert_eq!(
        rep.screen.text,
        "SUMMARY\nTransferring to: ACC99\nTransferring from ACC01\nAmount: $100.00\nMicro-Invest amount: $5.00"
    );

    // confirm: primary transfer first, the invest leg planned
    let (op, cont) = call(handle_callback(&mut store, CHAT, "Confirm", NOW));
    assert!(matches!(op, GatewayOp::Transfer(..)));
    match &cont {
        Cont::PrimaryTransfer { invest, .. } => {
            assert_eq!(invest.as_ref().map(|(a, p)| (a.as_str(), *p)), Some(("ACC50", 5)));
        },
        _ => panic!("expected the primary-transfer continuation"),
    }

    // primary succeeds: the invest leg goes out
    let (op, cont) = call(resume(&mut store, CHAT, cont, GatewayReply::InvocationOk, NOW));
    match &op {
        GatewayOp::Transfer(_, tx) => {
            assert_eq!(tx.account_to, "ACC50");
            assert_eq!(tx.transaction_amount, "5.00");
            assert_eq!(tx.narrative, "Micro-Invest");
        },
        _ => panic!("expected the invest transfer"),
    }
    assert!(matches!(cont, Cont::SecondaryTransfer));

    // invest leg fails: an explicit partial-success message names it
    let rep = done(resume(
        &mut store,
        CHAT,
        cont,
        GatewayReply::Failed(GatewayError::Business),
        NOW,
    ));
    assert_eq!(
        rep.notice,
        Some("The transfer has been done except for your Micro Invest".to_string())
    );
}

#[test]
fn back_twice_renders_the_same_home_and_clears_drafts() {
    let mut store = SessionStore::new();
    seed_credentials(&mut store, "alice");
    // leave a mid-flow draft behind
    done(handle_callback(&mut store, CHAT, "Transfer To Savings ACC99", NOW));
    assert!(store.get(CHAT, Topic::Transfer, NOW).is_some());
    assert!(store.get(CHAT, Topic::Action, NOW).is_some());

    let first = done(handle_callback(&mut store, CHAT, "Back", NOW));
    assert!(store.get(CHAT, Topic::Transfer, NOW).is_none());
    assert!(store.get(CHAT, Topic::Action, NOW).is_none());
    assert!(store.get(CHAT, Topic::AddBen, NOW).is_none());

    let second = done(handle_callback(&mut store, CHAT, "Back", NOW));
    assert_eq!(first.screen.text, second.screen.text);
    assert_eq!(first.screen.buttons, second.screen.buttons);
    assert_eq!(first.notice, second.notice);
    assert!(store.get(CHAT, Topic::Transfer, NOW).is_none());
    assert!(store.get(CHAT, Topic::Action, NOW).is_none());
    assert!(store.get(CHAT, Topic::AddBen, NOW).is_none());
}

#[test]
fn cancel_behaves_like_back() {
    let mut store = SessionStore::new();
    seed_credentials(&mut store, "alice");
    done(handle_callback(&mut store, CHAT, "Transfer To Savings ACC99", NOW));
    let rep = done(handle_callback(&mut store, CHAT, "Cancel", NOW));
    assert!(store.get(CHAT, Topic::Transfer, NOW).is_none());
    assert_eq!(rep.screen.text, "Hello! What banking service can I help you with today?");
}

#[test]
fn add_beneficiary_flow() {
    let mut store = SessionStore::new();
    seed_credentials(&mut store, "alice");
    let rep = done(handle_callback(&mut store, CHAT, "Add Beneficiary", NOW));
    assert_eq!(rep.screen.text, "Key in account number to add?");
    let rep = done(handle_message(&mut store, CHAT, "ACC88", NOW));
    assert_eq!(rep.screen.text, "Label for the account?");
    let (op, cont) = call(handle_message(&mut store, CHAT, "Rent", NOW));
    match &op {
        GatewayOp::AddBeneficiary(h, b) => {
            assert_eq!(h.service_name, "addBeneficiary");
            assert_eq!(b.account_id, "ACC88");
            assert_eq!(b.description, "Rent");
        },
        _ => panic!("expected the add-beneficiary call"),
    }
    let rep = done(resume(&mut store, CHAT, cont, GatewayReply::InvocationOk, NOW));
    assert_eq!(rep.notice, Some("Beneficiary has been added".to_string()));
}

#[test]
fn amount_must_be_positive_and_numeric() {
    let mut store = SessionStore::new();
    seed_credentials(&mut store, "alice");
    done(handle_callback(&mut store, CHAT, "Transfer To Savings ACC99", NOW));
    let rep = done(handle_message(&mut store, CHAT, "0", NOW));
    assert_eq!(rep.notice, Some("Sorry something went wrong. Please try again.".to_string()));

    done(handle_callback(&mut store, CHAT, "Transfer To Savings ACC99", NOW));
    let rep = done(handle_message(&mut store, CHAT, "ten dollars", NOW));
    assert_eq!(rep.notice, Some("Sorry something went wrong. Please try again.".to_string()));
}

#[test]
fn expired_login_step_resyncs() {
    let mut store = SessionStore::new();
    done(handle_callback(&mut store, CHAT, "Login", NOW));
    done(handle_message(&mut store, CHAT, "alice", NOW));
    // everything ephemeral expires before the PIN arrives: the text is
    // unrecognized and the anonymous home comes back
    let later = NOW + 200;
    let rep = done(handle_message(&mut store, CHAT, "1234", later));
    assert_eq!(rep.notice, None);
    assert_eq!(rep.screen.buttons, vec!["Login".to_string()]);
}

#[test]
fn missing_login_draft_reports_session_gone() {
    let mut store = SessionStore::new();
    done(handle_callback(&mut store, CHAT, "Login", NOW));
    done(handle_message(&mut store, CHAT, "alice", NOW));
    // the draft vanishes while the step is still pending
    store.delete(CHAT, Topic::LoginStep);
    let rep = done(handle_message(&mut store, CHAT, "1234", NOW));
    assert_eq!(
        rep.notice,
        Some("Sorry that your session is gone. Please try again.".to_string())
    );
    assert_eq!(rep.screen.buttons, vec!["Login".to_string()]);
}

#[test]
fn gateway_failure_resyncs_without_raw_text() {
    let mut store = SessionStore::new();
    seed_credentials(&mut store, "alice");
    let (_, cont) = call(handle_callback(&mut store, CHAT, "Transfer", NOW));
    let rep = done(resume(
        &mut store,
        CHAT,
        cont,
        GatewayReply::Failed(GatewayError::Network),
        NOW,
    ));
    assert_eq!(rep.notice, Some("Sorry something went wrong. Please try again.".to_string()));
    assert_eq!(rep.screen.text, "Hello! What banking service can I help you with today?");
}

#[test]
fn invest_menu_with_one_eligible_account_offers_create_only() {
    let mut store = SessionStore::new();
    seed_credentials(&mut store, "alice");
    let (_, cont) = call(handle_callback(&mut store, CHAT, "Enable MicroInvest", NOW));
    let rep = done(resume(
        &mut store,
        CHAT,
        cont,
        GatewayReply::Accounts(vec![account("ACC01", "1.00", "101"), account("ACC02", "1.00", "200")]),
        NOW,
    ));
    assert_eq!(rep.screen.text, "You only have one account.\nPlease open a new account");
    assert_eq!(rep.screen.buttons, vec!["Create".to_string(), "Back".to_string()]);
}

#[test]
fn invest_account_and_percentage_are_persisted() {
    let mut store = SessionStore::new();
    seed_credentials(&mut store, "alice");
    let rep = done(handle_callback(&mut store, CHAT, "Account: ACC07", NOW));
    assert_eq!(rep.notice, Some("You have chosen: ACC07".to_string()));
    match store.get("alice", Topic::MicroInvest, NOW) {
        Some(SessionValue::InvestAccount(a)) => assert_eq!(a, "ACC07"),
        _ => panic!("invest account not persisted"),
    }
    let rep = done(handle_callback(&mut store, CHAT, "5%", NOW));
    assert_eq!(rep.screen.buttons[3], "Update MicroInvest".to_string());
    match store.get("alice", Topic::Percentage, NOW) {
        Some(SessionValue::InvestPercent(p)) => assert_eq!(p, 5),
        _ => panic!("percentage not persisted"),
    }
    // Remove Account drops both and the home offers Enable again
    let rep = done(handle_callback(&mut store, CHAT, "Remove Account", NOW));
    assert_eq!(rep.screen.buttons[3], "Enable MicroInvest".to_string());
    assert!(store.get("alice", Topic::MicroInvest, NOW).is_none());
    assert!(store.get("alice", Topic::Percentage, NOW).is_none());
}

#[test]
fn logout_deletes_credentials() {
    let mut store = SessionStore::new();
    seed_credentials(&mut store, "alice");
    let rep = done(handle_callback(&mut store, CHAT, "Logout", NOW));
    assert_eq!(rep.screen.buttons, vec!["Login".to_string()]);
    assert!(store.get(CHAT, Topic::LoginCred, NOW).is_none());
}

#[test]
fn failed_otp_request_resets_to_anonymous_start() {
    let mut store = SessionStore::new();
    done(handle_callback(&mut store, CHAT, "Login", NOW));
    done(handle_message(&mut store, CHAT, "alice", NOW));
    let (_, cont) = call(handle_message(&mut store, CHAT, "1234", NOW));
    let reply = match decode_otp_response(&status_reply("ErrorDetails", "wrong pin")) {
        Ok(()) => GatewayReply::OtpRequested,
        Err(e) => GatewayReply::Failed(e),
    };
    let rep = done(resume(&mut store, CHAT, cont, reply, NOW));
    assert_eq!(
        rep.notice,
        Some("Sorry It seems like we could not authenticate you. Please try again.".to_string())
    );
    assert_eq!(rep.screen.buttons, vec!["Login".to_string()]);
}

#[test]
fn check_balance_lists_accounts_and_history_buttons() {
    let mut store = SessionStore::new();
    seed_credentials(&mut store, "alice");
    let (op, cont) = call(handle_callback(&mut store, CHAT, "Check Balance", NOW));
    assert!(matches!(op, GatewayOp::GetCustomerAccounts(_)));
    let rep = done(resume(
        &mut store,
        CHAT,
        cont,
        GatewayReply::Accounts(vec![account("ACC01", "500.00", "100")]),
        NOW,
    ));
    assert_eq!(rep.screen.text, "Your Account Balance is:\nACC01 - SGD500.00\n");
    assert_eq!(
        rep.screen.buttons,
        vec!["View Account ACC01 Balance History".to_string(), "Back".to_string()]
    );
}

#[test]
fn chart_flow_fetches_trend_then_image() {
    let mut store = SessionStore::new();
    seed_credentials(&mut store, "alice");
    let (op, cont) = call(handle_callback(
        &mut store,
        CHAT,
        "View Account ACC01 Balance History",
        NOW,
    ));
    match &op {
        GatewayOp::GetMonthlyBalanceTrend(h, b) => {
            assert_eq!(h.service_name, "getMonthlyBalanceTrend");
            assert_eq!(b.account_id, "ACC01");
            assert_eq!(b.num_months, "6");
        },
        _ => panic!("expected the trend fetch"),
    }
    let chart = tbank_bot::models::ChartBody {
        month_end_balance: vec![],
        current_month: tbank_bot::models::BalanceRecord {
            year_month: "2024-02".to_string(),
            balance: "1.00".to_string(),
        },
    };
    let (op, cont) = call(resume(&mut store, CHAT, cont, GatewayReply::Trend(chart), NOW));
    assert!(matches!(op, GatewayOp::GetBalanceChart(_)));
    let rep = done(resume(
        &mut store,
        CHAT,
        cont,
        GatewayReply::ChartImage(vec![1, 2, 3]),
        NOW,
    ));
    assert_eq!(rep.photo, Some(vec![1, 2, 3]));
    assert_eq!(rep.screen.text, "ACC01 balance over the past 6 months");
}

#[test]
fn create_account_flow_persists_invest_target() {
    let mut store = SessionStore::new();
    seed_credentials(&mut store, "alice");
    let (op, cont) = call(handle_callback(&mut store, CHAT, "Create", NOW));
    assert!(matches!(op, GatewayOp::GetCustomerDetails(_)));
    let (op, cont) = call(resume(
        &mut store,
        CHAT,
        cont,
        GatewayReply::CertificateNo(Some("S123".to_string())),
        NOW,
    ));
    match &op {
        GatewayOp::CreateAccount(b) => {
            assert_eq!(b.service_name, "openDepositAccount");
            assert_eq!(b.user_id, "S123");
            assert_eq!(b.pin, "1");
        },
        _ => panic!("expected account creation"),
    }
    let rep = done(resume(
        &mut store,
        CHAT,
        cont,
        GatewayReply::CreatedAccount(Some("ACC77".to_string())),
        NOW,
    ));
    assert_eq!(rep.notice, Some("We have created: ACC77".to_string()));
    assert_eq!(
        rep.screen.buttons,
        vec![
            "2%".to_string(),
            "5%".to_string(),
            "10%".to_string(),
            "Reselect account".to_string(),
        ]
    );
    // the invest target is bound to the user, not the chat
    match store.get("alice", Topic::MicroInvest, NOW) {
        Some(SessionValue::InvestAccount(a)) => assert_eq!(a, "ACC77"),
        _ => panic!("invest target not persisted"),
    }
}

#[test]
fn update_menu_excludes_the_current_target() {
    let mut store = SessionStore::new();
    seed_credentials(&mut store, "alice");
    store.set(
        "alice",
        Topic::MicroInvest,
        SessionValue::InvestAccount("ACC07".to_string()),
        false,
        NOW,
    );
    let (_, cont) = call(handle_callback(&mut store, CHAT, "Update MicroInvest", NOW));
    let rep = done(resume(
        &mut store,
        CHAT,
        cont,
        GatewayReply::Accounts(vec![
            account("ACC07", "1.00", "101"),
            account("ACC08", "1.00", "101"),
            account("ACC09", "1.00", "200"),
        ]),
        NOW,
    ));
    assert!(rep.screen.text.starts_with("Your current MicroInvest account ACC07."));
    assert_eq!(
        rep.screen.buttons,
        vec![
            "Account: ACC08".to_string(),
            "Remove Account".to_string(),
            "Back".to_string(),
        ]
    );
}

#[test]
fn reselect_clears_the_target_and_reopens_the_menu() {
    let mut store = SessionStore::new();
    seed_credentials(&mut store, "alice");
    store.set(
        "alice",
        Topic::MicroInvest,
        SessionValue::InvestAccount("ACC07".to_string()),
        false,
        NOW,
    );
    let (op, _) = call(handle_callback(&mut store, CHAT, "Reselect account", NOW));
    assert!(matches!(op, GatewayOp::GetCustomerAccounts(_)));
    assert!(store.get("alice", Topic::MicroInvest, NOW).is_none());
}

#[test]
fn source_pick_with_missing_draft_resyncs() {
    let mut store = SessionStore::new();
    seed_credentials(&mut store, "alice");
    let rep = done(handle_callback(&mut store, CHAT, "Transfer From ACC01", NOW));
    assert_eq!(rep.notice, Some("Sorry something went wrong. Please try again.".to_string()));
}

#[test]
fn invest_skipped_when_source_is_the_target() {
    let mut store = SessionStore::new();
    seed_credentials(&mut store, "alice");
    store.set(
        "alice",
        Topic::MicroInvest,
        SessionValue::InvestAccount("ACC01".to_string()),
        false,
        NOW,
    );
    store.set("alice", Topic::Percentage, SessionValue::InvestPercent(5), false, NOW);
    done(handle_callback(&mut store, CHAT, "Transfer To Savings ACC99", NOW));
    let (_, cont) = call(handle_message(&mut store, CHAT, "50.00", NOW));
    done(resume(
        &mut store,
        CHAT,
        cont,
        GatewayReply::Accounts(vec![account("ACC01", "500.00", "100")]),
        NOW,
    ));
    // transferring out of the invest target itself: a one-leg summary
    let rep = done(handle_callback(&mut store, CHAT, "Transfer From ACC01", NOW));
    assert_eq!(
        rep.screen.text,
        "SUMMARY\nTransferring to: ACC99\nTransferring from ACC01\nAmount: $50.00"
    );
    let (_, cont) = call(handle_callback(&mut store, CHAT, "Confirm", NOW));
    match &cont {
        Cont::PrimaryTransfer { invest, .. } => assert!(invest.is_none()),
        _ => panic!("expected the primary-transfer continuation"),
    }
}
