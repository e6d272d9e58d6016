//! The per-chat conversation state machine.
//!
//! State lives entirely in the session store: the chat's current step under
//! `Topic::Action`, drafts under their own topics, durable credentials and
//! auto-invest preferences. One inbound update is handled by
//! `handle_message` or `handle_callback`; when a step needs the gateway it
//! returns `Outcome::Call`, and `resume` (in the `resume` module) continues
//! once the decoded reply is in.
//!
//! Whenever anything unexpected happens — a missing draft, a failed call, a
//! malformed reply — the conversation resyncs: it renders the home screen
//! that matches the presence of durable credentials, never a half-updated
//! state and never raw gateway text.

use vstd::prelude::*;

use crate::SESSION_TTL_SECS;
use crate::models::{CustomerRequest, RequestOTP, TransferBody};
use crate::money::{parse_cents, spec_parse_cents};
use crate::ops::{Cont, GatewayOp, Outcome};
use crate::screen::{Reply, ReplyV, Screen, ScreenV, screen_reply_v};
use crate::session::{
    ActionToken, EntryV, SessionStore, SessionValue, Topic, entry_for, lookup,
};
use crate::text::str_eq;

verus! {

pub type StoreV = Map<(Seq<char>, Topic), EntryV>;

// ---------------------------------------------------------------------------
// Reading the store
// ---------------------------------------------------------------------------
/// The durable credentials of a chat, if it is authenticated.
pub open spec fn spec_credentials(m: StoreV, chat: Seq<char>, now: u64) -> Option<CustomerRequest> {
    match lookup(m, chat, Topic::LoginCred, now) {
        Some(SessionValue::Credentials(c)) => Some(c),
        _ => None,
    }
}

/// The configured auto-invest target of a user; an empty string counts as
/// not configured.
pub open spec fn spec_invest_account(m: StoreV, user: Seq<char>, now: u64) -> Option<String> {
    match lookup(m, user, Topic::MicroInvest, now) {
        Some(SessionValue::InvestAccount(a)) => if a@.len() > 0 {
            Some(a)
        } else {
            None
        },
        _ => None,
    }
}

pub open spec fn spec_has_invest(m: StoreV, user: Seq<char>, now: u64) -> bool {
    spec_invest_account(m, user, now) is Some
}

/// The configured auto-invest percentage of a user.
pub open spec fn spec_percent(m: StoreV, user: Seq<char>, now: u64) -> Option<u8> {
    match lookup(m, user, Topic::Percentage, now) {
        Some(SessionValue::InvestPercent(p)) => Some(p),
        _ => None,
    }
}

/// The step a chat is waiting on.
pub open spec fn spec_action(m: StoreV, chat: Seq<char>, now: u64) -> Option<ActionToken> {
    match lookup(m, chat, Topic::Action, now) {
        Some(SessionValue::Action(t)) => Some(t),
        _ => None,
    }
}

/// The login draft while the PIN is awaited.
pub open spec fn spec_login_draft(m: StoreV, chat: Seq<char>, now: u64) -> Option<RequestOTP> {
    match lookup(m, chat, Topic::LoginStep, now) {
        Some(SessionValue::LoginDraft(d)) => Some(d),
        _ => None,
    }
}

/// The login continuation while the OTP is awaited.
pub open spec fn spec_login_cont(m: StoreV, chat: Seq<char>, now: u64) -> Option<CustomerRequest> {
    match lookup(m, chat, Topic::LoginStep, now) {
        Some(SessionValue::Credentials(c)) => Some(c),
        _ => None,
    }
}

/// The pending transfer draft.
pub open spec fn spec_transfer_draft(m: StoreV, chat: Seq<char>, now: u64) -> Option<TransferBody> {
    match lookup(m, chat, Topic::Transfer, now) {
        Some(SessionValue::TransferDraft(t)) => Some(t),
        _ => None,
    }
}

/// The pending beneficiary draft.
pub open spec fn spec_addben_draft(m: StoreV, chat: Seq<char>, now: u64) -> Option<
    crate::models::AddBeneficiaryBody,
> {
    match lookup(m, chat, Topic::AddBen, now) {
        Some(SessionValue::BeneficiaryDraft(b)) => Some(b),
        _ => None,
    }
}

pub(crate) fn read_credentials(store: &SessionStore, chat: &str, now: u64) -> (r: Option<CustomerRequest>)
    requires
        store.wf(),
    ensures
        r == spec_credentials(store@, chat@, now),
{
    match store.get(chat, Topic::LoginCred, now) {
        Some(SessionValue::Credentials(c)) => Some(c),
        _ => None,
    }
}

pub(crate) fn read_invest_account(store: &SessionStore, user: &str, now: u64) -> (r: Option<String>)
    requires
        store.wf(),
    ensures
        r == spec_invest_account(store@, user@, now),
{
    match store.get(user, Topic::MicroInvest, now) {
        Some(SessionValue::InvestAccount(a)) => {
            if a.as_str().is_empty() {
                None
            } else {
                Some(a)
            }
        },
        _ => None,
    }
}

pub(crate) fn read_percent(store: &SessionStore, user: &str, now: u64) -> (r: Option<u8>)
    requires
        store.wf(),
    ensures
        r == spec_percent(store@, user@, now),
{
    match store.get(user, Topic::Percentage, now) {
        Some(SessionValue::InvestPercent(p)) => Some(p),
        _ => None,
    }
}

pub(crate) fn read_action(store: &SessionStore, chat: &str, now: u64) -> (r: Option<ActionToken>)
    requires
        store.wf(),
    ensures
        r == spec_action(store@, chat@, now),
{
    match store.get(chat, Topic::Action, now) {
        Some(SessionValue::Action(t)) => Some(t),
        _ => None,
    }
}

// ---------------------------------------------------------------------------
// Screens
// ---------------------------------------------------------------------------
/// The anonymous home screen: nothing to do but log in.
pub open spec fn anon_home_v() -> ScreenV {
    ScreenV {
        text: "Welcome to TBANK Bot! How can I help you today?"@,
        buttons: seq!["Login"@],
        row_width: 3,
    }
}

/// The authenticated home screen; the last option reflects whether
/// auto-invest is already configured.
pub open spec fn authed_home_v(has_invest: bool) -> ScreenV {
    ScreenV {
        text: "Hello! What banking service can I help you with today?"@,
        buttons: seq![
            "Check Balance"@,
            "Transfer"@,
            "Logout"@,
            if has_invest {
                "Update MicroInvest"@
            } else {
                "Enable MicroInvest"@
            },
        ],
        row_width: 3,
    }
}

/// The home screen a chat deserves: authenticated when durable credentials
/// exist, anonymous otherwise.
pub open spec fn home_screen_v(m: StoreV, chat: Seq<char>, now: u64) -> ScreenV {
    match spec_credentials(m, chat, now) {
        Some(c) => authed_home_v(spec_has_invest(m, c.user_id@, now)),
        None => anon_home_v(),
    }
}

/// A home screen, optionally preceded by a notice.
pub open spec fn home_reply_v(m: StoreV, chat: Seq<char>, now: u64, notice: Option<
    Seq<char>,
>) -> ReplyV {
    ReplyV { notice, photo: None, screen: home_screen_v(m, chat, now) }
}

/// The generic failure notice; raw gateway text never reaches the user.
pub open spec fn generic_notice() -> Seq<char> {
    "Sorry something went wrong. Please try again."@
}

/// The notice when a mid-login session has expired.
pub open spec fn session_gone_notice() -> Seq<char> {
    "Sorry that your session is gone. Please try again."@
}

/// The notice when the gateway rejects a login step.
pub open spec fn auth_fail_notice() -> Seq<char> {
    "Sorry It seems like we could not authenticate you. Please try again."@
}

/// A one-column prompt.
pub open spec fn prompt_v(text: Seq<char>, buttons: Seq<Seq<char>>) -> ScreenV {
    ScreenV { text, buttons, row_width: 1 }
}

/// The percentage choice offered after an auto-invest account is picked.
pub open spec fn percent_prompt_v() -> ScreenV {
    prompt_v(
        "What percentage of a transaction would you like to be added to your chosen account?"@,
        seq!["2%"@, "5%"@, "10%"@, "Reselect account"@],
    )
}

fn screen_with_one(text: &str, label: &str) -> (r: Screen)
    ensures
        r@ == prompt_v(text@, seq![label@]),
{
    let mut buttons: Vec<String> = Vec::new();
    buttons.push(String::from_str(label));
    let s = Screen { text: String::from_str(text), buttons, row_width: 1 };
    proof {
        assert(s@.buttons =~= seq![label@]);
    }
    s
}

pub(crate) fn percent_prompt() -> (r: Screen)
    ensures
        r@ == percent_prompt_v(),
{
    let mut buttons: Vec<String> = Vec::new();
    buttons.push(String::from_str("2%"));
    buttons.push(String::from_str("5%"));
    buttons.push(String::from_str("10%"));
    buttons.push(String::from_str("Reselect account"));
    let s = Screen {
        text: String::from_str(
            "What percentage of a transaction would you like to be added to your chosen account?",
        ),
        buttons,
        row_width: 1,
    };
    proof {
        assert(s@.buttons =~= percent_prompt_v().buttons);
    }
    s
}

/// Render the home screen a chat deserves right now.
pub fn render_home(store: &SessionStore, chat: &str, now: u64) -> (r: Screen)
    requires
        store.wf(),
    ensures
        r@ == home_screen_v(store@, chat@, now),
{
    match read_credentials(store, chat, now) {
        Some(c) => {
            let has_invest = read_invest_account(store, c.user_id.as_str(), now).is_some();
            let mut buttons: Vec<String> = Vec::new();
            buttons.push(String::from_str("Check Balance"));
            buttons.push(String::from_str("Transfer"));
            buttons.push(String::from_str("Logout"));
            if has_invest {
                buttons.push(String::from_str("Update MicroInvest"));
            } else {
                buttons.push(String::from_str("Enable MicroInvest"));
            }
            let s = Screen {
                text: String::from_str("Hello! What banking service can I help you with today?"),
                buttons,
                row_width: 3,
            };
            proof {
                assert(s@.buttons =~= authed_home_v(has_invest).buttons);
            }
            s
        },
        None => {
            let mut buttons: Vec<String> = Vec::new();
            buttons.push(String::from_str("Login"));
            let s = Screen {
                text: String::from_str("Welcome to TBANK Bot! How can I help you today?"),
                buttons,
                row_width: 3,
            };
            proof {
                assert(s@.buttons =~= anon_home_v().buttons);
            }
            s
        },
    }
}

/// Render the home screen with an optional leading notice.
pub(crate) fn home_reply(store: &SessionStore, chat: &str, now: u64, notice: Option<String>) -> (r: Reply)
    requires
        store.wf(),
    ensures
        r@ == home_reply_v(
            store@,
            chat@,
            now,
            match notice {
                Some(n) => Some(n@),
                None => None,
            },
        ),
{
    Reply { notice, photo: None, screen: render_home(store, chat, now) }
}

/// Recover from anything unexpected: a generic notice, then the right home.
pub fn resync(store: &SessionStore, chat: &str, now: u64) -> (r: Reply)
    requires
        store.wf(),
    ensures
        r@ == home_reply_v(store@, chat@, now, Some(generic_notice())),
{
    home_reply(
        store,
        chat,
        now,
        Some(String::from_str("Sorry something went wrong. Please try again.")),
    )
}

// ---------------------------------------------------------------------------
// Back / Cancel
// ---------------------------------------------------------------------------
/// What Back leaves behind: every ephemeral draft of the chat is gone.
pub open spec fn back_store_v(m: StoreV, chat: Seq<char>) -> StoreV {
    m.remove((chat, Topic::Transfer)).remove((chat, Topic::Action)).remove((chat, Topic::AddBen))
}

/// Discard the chat's drafts and return to the right home screen.
pub fn handle_back(store: &mut SessionStore, chat: &str, now: u64) -> (r: Reply)
    requires
        old(store).wf(),
    ensures
        final(store).wf(),
        final(store)@ == back_store_v(old(store)@, chat@),
        r@ == home_reply_v(final(store)@, chat@, now, None),
{
    store.delete(chat, Topic::Transfer);
    store.delete(chat, Topic::Action);
    store.delete(chat, Topic::AddBen);
    home_reply(store, chat, now, None)
}

/// Law: Back is idempotent. Re-running Back from the state a first Back
/// leaves changes nothing: the store is the same — all ephemeral drafts of
/// the chat already gone — and the same home screen is rendered.
pub proof fn lemma_back_idempotent(m: StoreV, chat: Seq<char>, now: u64)
    ensures
        back_store_v(back_store_v(m, chat), chat) == back_store_v(m, chat),
        home_screen_v(back_store_v(back_store_v(m, chat), chat), chat, now) == home_screen_v(
            back_store_v(m, chat),
            chat,
            now,
        ),
        !back_store_v(m, chat).contains_key((chat, Topic::Transfer)),
        !back_store_v(m, chat).contains_key((chat, Topic::Action)),
        !back_store_v(m, chat).contains_key((chat, Topic::AddBen)),
{
    assert(back_store_v(back_store_v(m, chat), chat) =~= back_store_v(m, chat));
}

// ---------------------------------------------------------------------------
// Text updates
// ---------------------------------------------------------------------------
/// What `handle_message` does for each state; `m0`/`m1` are the store
/// before and after, `r` the outcome.
///
/// With no action pending, `/start`, `/help` and unknown text answer
/// locally; in `Login` the text is the username, in `LoginPin` the PIN
/// (issuing the OTP request), in `LoginOtp` the passcode (issuing the
/// login), in `Amount` the transfer amount (validated, then the accounts
/// are fetched), and in the two beneficiary states the account number and
/// the label.
pub open spec fn message_post(
    m0: StoreV,
    m1: StoreV,
    chat: Seq<char>,
    text: Seq<char>,
    now: u64,
    r: Outcome,
) -> bool {
    if text == "/start"@ {
        m1 == m0 && (r matches Outcome::Done(rep) && rep@ == home_reply_v(m0, chat, now, None))
    } else if text == "/help"@ {
        m1 == m0 && (r matches Outcome::Done(rep) && rep@ == screen_reply_v(help_screen_v()))
    } else {
        match spec_action(m0, chat, now) {
            Some(ActionToken::Login) => {
                &&& (exists|d: RequestOTP|
                    {
                        &&& d.service_name@ == "requestOTP"@
                        &&& d.user_id@ == text
                        &&& d.pin@ == Seq::<char>::empty()
                        &&& m1 == m0.insert(
                            (chat, Topic::Action),
                            entry_for(SessionValue::Action(ActionToken::LoginPin), true, now),
                        ).insert(
                            (chat, Topic::LoginStep),
                            entry_for(SessionValue::LoginDraft(d), true, now),
                        )
                    })
                &&& (r matches Outcome::Done(rep) && rep@ == screen_reply_v(
                    prompt_v("Please key in your PIN"@, seq!["Cancel"@]),
                ))
            },
            Some(ActionToken::LoginPin) => {
                match spec_login_draft(m0, chat, now) {
                    Some(d) => {
                        &&& m1 == m0.remove((chat, Topic::Action)).remove((chat, Topic::LoginStep))
                        &&& (r matches Outcome::Call(
                            GatewayOp::RequestOtp(b),
                            Cont::OtpStatus { user_id, pin },
                        ) && b.service_name == d.service_name && b.user_id == d.user_id && b.pin@
                            == text && user_id == d.user_id && pin@ == text)
                    },
                    None => {
                        &&& m1 == m0.remove((chat, Topic::Action))
                        &&& (r matches Outcome::Done(rep) && rep@ == home_reply_v(
                            m1,
                            chat,
                            now,
                            Some(session_gone_notice()),
                        ))
                    },
                }
            },
            Some(ActionToken::LoginOtp) => {
                match spec_login_cont(m0, chat, now) {
                    Some(c) => {
                        &&& m1 == m0.remove((chat, Topic::Action)).remove((chat, Topic::LoginStep))
                        &&& (r matches Outcome::Call(
                            GatewayOp::LoginCustomer(b),
                            Cont::LoginStatus { cred },
                        ) && b.service_name == c.service_name && b.user_id == c.user_id && b.pin
                            == c.pin && b.otp@ == text && cred == b)
                    },
                    None => {
                        &&& m1 == m0.remove((chat, Topic::Action))
                        &&& (r matches Outcome::Done(rep) && rep@ == home_reply_v(
                            m1,
                            chat,
                            now,
                            Some(session_gone_notice()),
                        ))
                    },
                }
            },
            Some(ActionToken::Amount) => {
                match (spec_parse_cents(text), spec_credentials(m0, chat, now)) {
                    (Some(a), Some(c)) => {
                        if a > 0 {
                            &&& m1 == m0.remove((chat, Topic::Action))
                            &&& (r matches Outcome::Call(
                                GatewayOp::GetCustomerAccounts(b),
                                Cont::SourcesForAmount { amount },
                            ) && b.service_name@ == "getCustomerAccounts"@ && b.user_id == c.user_id
                                && b.pin == c.pin && b.otp == c.otp && amount == a)
                        } else {
                            &&& m1 == m0.remove((chat, Topic::Action))
                            &&& (r matches Outcome::Done(rep) && rep@ == home_reply_v(
                                m1,
                                chat,
                                now,
                                Some(generic_notice()),
                            ))
                        }
                    },
                    _ => {
                        &&& m1 == m0.remove((chat, Topic::Action))
                        &&& (r matches Outcome::Done(rep) && rep@ == home_reply_v(
                            m1,
                            chat,
                            now,
                            Some(generic_notice()),
                        ))
                    },
                }
            },
            Some(ActionToken::AddBeneficiary) => {
                &&& (exists|d: crate::models::AddBeneficiaryBody|
                    {
                        &&& d.account_id@ == text
                        &&& d.description@ == Seq::<char>::empty()
                        &&& m1 == m0.insert(
                            (chat, Topic::Action),
                            entry_for(SessionValue::Action(ActionToken::AddBenDesc), true, now),
                        ).insert(
                            (chat, Topic::AddBen),
                            entry_for(SessionValue::BeneficiaryDraft(d), true, now),
                        )
                    })
                &&& (r matches Outcome::Done(rep) && rep@ == screen_reply_v(
                    prompt_v("Label for the account?"@, seq!["Back"@]),
                ))
            },
            Some(ActionToken::AddBenDesc) => {
                match (spec_addben_draft(m0, chat, now), spec_credentials(m0, chat, now)) {
                    (Some(d), Some(c)) => {
                        &&& m1 == m0.remove((chat, Topic::Action)).remove((chat, Topic::AddBen))
                        &&& (r matches Outcome::Call(
                            GatewayOp::AddBeneficiary(b, body),
                            Cont::AddBenStatus,
                        ) && b.service_name@ == "addBeneficiary"@ && b.user_id == c.user_id && b.pin
                            == c.pin && b.otp == c.otp && body.account_id == d.account_id
                            && body.description@ == text)
                    },
                    _ => {
                        &&& m1 == m0.remove((chat, Topic::Action)).remove((chat, Topic::AddBen))
                        &&& (r matches Outcome::Done(rep) && rep@ == home_reply_v(
                            m1,
                            chat,
                            now,
                            Some(generic_notice()),
                        ))
                    },
                }
            },
            None => {
                m1 == back_store_v(m0, chat) && (r matches Outcome::Done(rep) && rep@
                    == home_reply_v(m1, chat, now, None))
            },
        }
    }
}

/// The `/help` answer.
pub open spec fn help_screen_v() -> ScreenV {
    ScreenV {
        text: "These commands are supported:\n/start - initialise the bot\n/help - get help"@,
        buttons: Seq::empty(),
        row_width: 1,
    }
}

/// Handle a free-text message from a chat.
pub fn handle_message(store: &mut SessionStore, chat: &str, text: &str, now: u64) -> (r: Outcome)
    requires
        old(store).wf(),
        now <= u64::MAX - SESSION_TTL_SECS,
    ensures
        final(store).wf(),
        message_post(old(store)@, final(store)@, chat@, text@, now, r),
{
    if str_eq(text, "/start") {
        return Outcome::Done(home_reply(store, chat, now, None));
    }
    if str_eq(text, "/help") {
        let s = Screen {
            text: String::from_str(
                "These commands are supported:\n/start - initialise the bot\n/help - get help",
            ),
            buttons: Vec::new(),
            row_width: 1,
        };
        proof {
            assert(s@.buttons =~= help_screen_v().buttons);
        }
        return Outcome::Done(Reply { notice: None, photo: None, screen: s });
    }
    match read_action(store, chat, now) {
        Some(ActionToken::Login) => {
            store.set(
                chat,
                Topic::Action,
                SessionValue::Action(ActionToken::LoginPin),
                true,
                now,
            );
            let d = RequestOTP {
                service_name: String::from_str("requestOTP"),
                user_id: String::from_str(text),
                pin: String::new(),
            };
            proof {
                assert(d.pin@ =~= Seq::<char>::empty());
            }
            store.set(chat, Topic::LoginStep, SessionValue::LoginDraft(d), true, now);
            Outcome::Done(
                Reply {
                    notice: None,
                    photo: None,
                    screen: screen_with_one("Please key in your PIN", "Cancel"),
                },
            )
        },
        Some(ActionToken::LoginPin) => {
            let draft = match store.get(chat, Topic::LoginStep, now) {
                Some(SessionValue::LoginDraft(d)) => Some(d),
                _ => None,
            };
            store.delete(chat, Topic::Action);
            match draft {
                Some(d) => {
                    store.delete(chat, Topic::LoginStep);
                    let user_id = d.user_id.clone();
                    let body = RequestOTP {
                        service_name: d.service_name,
                        user_id: d.user_id,
                        pin: String::from_str(text),
                    };
                    Outcome::Call(
                        GatewayOp::RequestOtp(body),
                        Cont::OtpStatus { user_id, pin: String::from_str(text) },
                    )
                },
                None => {
                    Outcome::Done(
                        home_reply(
                            store,
                            chat,
                            now,
                            Some(
                                String::from_str("Sorry that your session is gone. Please try again."),
                            ),
                        ),
                    )
                },
            }
        },
        Some(ActionToken::LoginOtp) => {
            let cont = match store.get(chat, Topic::LoginStep, now) {
                Some(SessionValue::Credentials(c)) => Some(c),
                _ => None,
            };
            store.delete(chat, Topic::Action);
            match cont {
                Some(c) => {
                    store.delete(chat, Topic::LoginStep);
                    let body = CustomerRequest {
                        service_name: c.service_name,
                        user_id: c.user_id,
                        pin: c.pin,
                        otp: String::from_str(text),
                    };
                    let cred = body.clone();
                    Outcome::Call(GatewayOp::LoginCustomer(body), Cont::LoginStatus { cred })
                },
                None => {
                    Outcome::Done(
                        home_reply(
                            store,
                            chat,
                            now,
                            Some(
                                String::from_str("Sorry that your session is gone. Please try again."),
                            ),
                        ),
                    )
                },
            }
        },
        Some(ActionToken::Amount) => {
            store.delete(chat, Topic::Action);
            let parsed = parse_cents(text);
            let creds = read_credentials(store, chat, now);
            proof {
                assert(spec_credentials(final(store)@, chat@, now) == spec_credentials(
                    old(store)@,
                    chat@,
                    now,
                ));
            }
            match (parsed, creds) {
                (Some(a), Some(c)) => {
                    if a > 0 {
                        let body = CustomerRequest {
                            service_name: String::from_str("getCustomerAccounts"),
                            user_id: c.user_id,
                            pin: c.pin,
                            otp: c.otp,
                        };
                        Outcome::Call(
                            GatewayOp::GetCustomerAccounts(body),
                            Cont::SourcesForAmount { amount: a },
                        )
                    } else {
                        Outcome::Done(resync(store, chat, now))
                    }
                },
                _ => Outcome::Done(resync(store, chat, now)),
            }
        },
        Some(ActionToken::AddBeneficiary) => {
            store.set(
                chat,
                Topic::Action,
                SessionValue::Action(ActionToken::AddBenDesc),
                true,
                now,
            );
            let d = crate::models::AddBeneficiaryBody {
                account_id: String::from_str(text),
                description: String::new(),
            };
            proof {
                assert(d.description@ =~= Seq::<char>::empty());
            }
            store.set(chat, Topic::AddBen, SessionValue::BeneficiaryDraft(d), true, now);
            Outcome::Done(
                Reply {
                    notice: None,
                    photo: None,
                    screen: screen_with_one("Label for the account?", "Back"),
                },
            )
        },
        Some(ActionToken::AddBenDesc) => {
            let draft = match store.get(chat, Topic::AddBen, now) {
                Some(SessionValue::BeneficiaryDraft(b)) => Some(b),
                _ => None,
            };
            let creds = read_credentials(store, chat, now);
            store.delete(chat, Topic::Action);
            store.delete(chat, Topic::AddBen);
            match (draft, creds) {
                (Some(d), Some(c)) => {
                    let header = CustomerRequest {
                        service_name: String::from_str("addBeneficiary"),
                        user_id: c.user_id,
                        pin: c.pin,
                        otp: c.otp,
                    };
                    let body = crate::models::AddBeneficiaryBody {
                        account_id: d.account_id,
                        description: String::from_str(text),
                    };
                    Outcome::Call(GatewayOp::AddBeneficiary(header, body), Cont::AddBenStatus)
                },
                _ => Outcome::Done(resync(store, chat, now)),
            }
        },
        None => {
            let rep = handle_back(store, chat, now);
            Outcome::Done(rep)
        },
    }
}

} // verus!
