//! Button presses.
//!
//! A callback payload is an opaque string; `parse_callback` reads it into a
//! closed set of actions — some carrying an argument such as an account
//! number or a percentage — and `handle_callback` runs the state machine on
//! the parsed action.

use rand::Rng;
use vstd::prelude::*;

use crate::SESSION_TTL_SECS;
use crate::models::{CustomerRequest, HistoricalMonthlyBalanceBody, TransferBody};
use crate::money::{all_digits, dec_digits, dec_val, u64_to_dec};
use crate::ops::{Cont, GatewayOp, Outcome};
use crate::screen::{Reply, ReplyV, Screen, ScreenV, screen_reply_v};
use crate::session::{ActionToken, SessionStore, SessionValue, Topic, entry_for};
use crate::controller::{
    StoreV, back_store_v, generic_notice, handle_back, home_reply, home_reply_v, percent_prompt,
    percent_prompt_v, prompt_v, read_credentials, read_invest_account, read_percent, resync,
    spec_credentials, spec_invest_account, spec_percent, spec_transfer_draft,
};
use crate::text::{
    ends_with, last_token, seq_contains, spec_last_token, starts_with, str_contains, str_eq,
    str_ends_with, str_starts_with,
};

verus! {

/// The closed set of button actions.
#[derive(Clone, Copy, PartialEq, Eq, Structural, Debug)]
pub enum CallbackKind {
    Reselect,
    Chart,
    Percentage,
    AccountPick,
    TransferTo,
    TransferFrom,
    Login,
    Cancel,
    AddBeneficiary,
    Transfer,
    Confirm,
    Create,
    Logout,
    RemoveAccount,
    Back,
    EnableInvest,
    UpdateInvest,
    CheckBalance,
    Unknown,
}

/// The percentage a payload such as `5%` names: up to three digits before
/// the percent sign, worth at most 100.
pub open spec fn spec_percent_of(s: Seq<char>) -> Option<u8> {
    if s.len() >= 2 && s.last() == '%' && all_digits(s.drop_last()) && s.drop_last().len() <= 3
        && dec_val(s.drop_last()) <= 100 {
        Some(dec_val(s.drop_last()) as u8)
    } else {
        None
    }
}

/// The account named by a balance-history button, between its fixed prefix
/// and suffix.
pub open spec fn spec_chart_account(s: Seq<char>) -> Seq<char> {
    if starts_with(s, "View Account "@) && ends_with(s, " Balance History"@) && s.len()
        >= "View Account "@.len() + " Balance History"@.len() {
        s.subrange("View Account "@.len() as int, s.len() - " Balance History"@.len())
    } else {
        Seq::empty()
    }
}

/// Which action a payload names, by the same precedence the buttons are
/// generated with: the marked substrings first, then the exact menu tokens.
pub open spec fn spec_callback_kind(s: Seq<char>) -> CallbackKind {
    if seq_contains(s, "Reselect"@) {
        CallbackKind::Reselect
    } else if seq_contains(s, "Balance History"@) {
        CallbackKind::Chart
    } else if seq_contains(s, "%"@) {
        if spec_percent_of(s) is Some {
            CallbackKind::Percentage
        } else {
            CallbackKind::Unknown
        }
    } else if seq_contains(s, "Account"@) && s != "Remove Account"@ {
        CallbackKind::AccountPick
    } else if seq_contains(s, "Transfer To"@) {
        CallbackKind::TransferTo
    } else if seq_contains(s, "Transfer From"@) {
        CallbackKind::TransferFrom
    } else if s == "Login"@ {
        CallbackKind::Login
    } else if s == "Cancel"@ {
        CallbackKind::Cancel
    } else if s == "Add Beneficiary"@ {
        CallbackKind::AddBeneficiary
    } else if s == "Transfer"@ {
        CallbackKind::Transfer
    } else if s == "Confirm"@ {
        CallbackKind::Confirm
    } else if s == "Create"@ {
        CallbackKind::Create
    } else if s == "Logout"@ {
        CallbackKind::Logout
    } else if s == "Remove Account"@ {
        CallbackKind::RemoveAccount
    } else if s == "Back"@ {
        CallbackKind::Back
    } else if s == "Enable MicroInvest"@ {
        CallbackKind::EnableInvest
    } else if s == "Update MicroInvest"@ {
        CallbackKind::UpdateInvest
    } else if s == "Check Balance"@ {
        CallbackKind::CheckBalance
    } else {
        CallbackKind::Unknown
    }
}

/// A parsed button press, argument included.
pub enum CallbackAction {
    Reselect,
    Chart(String),
    Percentage(u8),
    AccountPick(String),
    TransferTo(String),
    TransferFrom(String),
    Login,
    Cancel,
    AddBeneficiary,
    Transfer,
    Confirm,
    Create,
    Logout,
    RemoveAccount,
    Back,
    EnableInvest,
    UpdateInvest,
    CheckBalance,
    Unknown,
}

fn parse_percent(s: &str) -> (r: Option<u8>)
    ensures
        r == spec_percent_of(s@),
{
    let n = s.unicode_len();
    if n < 2 || n > 4 {
        proof {
            if n > 4 && spec_percent_of(s@) is Some {
                assert(s@.drop_last().len() > 3);
            }
        }
        return None;
    }
    if s.get_char(n - 1) != '%' {
        return None;
    }
    let mut acc: u64 = 0;
    let mut i: usize = 0;
    while i < n - 1
        invariant
            2 <= n <= 4,
            n == s@.len(),
            i <= n - 1,
            all_digits(s@.subrange(0, i as int)),
            acc == dec_val(s@.subrange(0, i as int)),
            acc < 1000,
        decreases n - 1 - i,
    {
        let c = s.get_char(i);
        if !('0' <= c && c <= '9') {
            proof {
                assert(s@.drop_last()[i as int] == s@[i as int]);
                assert(!all_digits(s@.drop_last()));
            }
            return None;
        }
        proof {
            assert(s@.subrange(0, i + 1).drop_last() =~= s@.subrange(0, i as int));
            assert(s@.subrange(0, i + 1).last() == s@[i as int]);
        }
        proof {
            crate::money::lemma_dec_val_bound(s@.subrange(0, i as int));
            crate::money::lemma_pow10_mono(i as nat, 2);
            crate::money::lemma_pow10_small();
        }
        acc = acc * 10 + ((c as u32 - '0' as u32) as u64);
        i = i + 1;
    }
    proof {
        assert(s@.subrange(0, n - 1 as int) =~= s@.drop_last());
    }
    if acc <= 100 {
        Some(acc as u8)
    } else {
        None
    }
}

fn chart_account(s: &str) -> (r: String)
    ensures
        r@ == spec_chart_account(s@),
{
    let pre = "View Account ";
    let suf = " Balance History";
    let n = s.unicode_len();
    let pn = pre.unicode_len();
    let sn = suf.unicode_len();
    if str_starts_with(s, pre) && str_ends_with(s, suf) && pn <= n && sn <= n - pn {
        let mid = s.substring_char(pn, n - sn);
        String::from_str(mid)
    } else {
        let r = String::new();
        proof {
            assert(r@ =~= Seq::<char>::empty());
        }
        r
    }
}

/// Read a button payload into its action. The kind follows
/// `spec_callback_kind`; the argument is the payload's trailing token, its
/// percentage, or the chart button's account.
pub fn parse_callback(payload: &str) -> (r: CallbackAction)
    ensures
        match r {
            CallbackAction::Reselect => spec_callback_kind(payload@) == CallbackKind::Reselect,
            CallbackAction::Chart(acc) => spec_callback_kind(payload@) == CallbackKind::Chart
                && acc@ == spec_chart_account(payload@),
            CallbackAction::Percentage(v) => spec_callback_kind(payload@)
                == CallbackKind::Percentage && Some(v) == spec_percent_of(payload@),
            CallbackAction::AccountPick(acc) => spec_callback_kind(payload@)
                == CallbackKind::AccountPick && acc@ == spec_last_token(payload@),
            CallbackAction::TransferTo(acc) => spec_callback_kind(payload@)
                == CallbackKind::TransferTo && acc@ == spec_last_token(payload@),
            CallbackAction::TransferFrom(acc) => spec_callback_kind(payload@)
                == CallbackKind::TransferFrom && acc@ == spec_last_token(payload@),
            CallbackAction::Login => spec_callback_kind(payload@) == CallbackKind::Login,
            CallbackAction::Cancel => spec_callback_kind(payload@) == CallbackKind::Cancel,
            CallbackAction::AddBeneficiary => spec_callback_kind(payload@)
                == CallbackKind::AddBeneficiary,
            CallbackAction::Transfer => spec_callback_kind(payload@) == CallbackKind::Transfer,
            CallbackAction::Confirm => spec_callback_kind(payload@) == CallbackKind::Confirm,
            CallbackAction::Create => spec_callback_kind(payload@) == CallbackKind::Create,
            CallbackAction::Logout => spec_callback_kind(payload@) == CallbackKind::Logout,
            CallbackAction::RemoveAccount => spec_callback_kind(payload@)
                == CallbackKind::RemoveAccount,
            CallbackAction::Back => spec_callback_kind(payload@) == CallbackKind::Back,
            CallbackAction::EnableInvest => spec_callback_kind(payload@)
                == CallbackKind::EnableInvest,
            CallbackAction::UpdateInvest => spec_callback_kind(payload@)
                == CallbackKind::UpdateInvest,
            CallbackAction::CheckBalance => spec_callback_kind(payload@)
                == CallbackKind::CheckBalance,
            CallbackAction::Unknown => spec_callback_kind(payload@) == CallbackKind::Unknown,
        },
{
    if str_contains(payload, "Reselect") {
        CallbackAction::Reselect
    } else if str_contains(payload, "Balance History") {
        CallbackAction::Chart(chart_account(payload))
    } else if str_contains(payload, "%") {
        match parse_percent(payload) {
            Some(v) => CallbackAction::Percentage(v),
            None => CallbackAction::Unknown,
        }
    } else if str_contains(payload, "Account") && !str_eq(payload, "Remove Account") {
        CallbackAction::AccountPick(last_token(payload))
    } else if str_contains(payload, "Transfer To") {
        CallbackAction::TransferTo(last_token(payload))
    } else if str_contains(payload, "Transfer From") {
        CallbackAction::TransferFrom(last_token(payload))
    } else if str_eq(payload, "Login") {
        CallbackAction::Login
    } else if str_eq(payload, "Cancel") {
        CallbackAction::Cancel
    } else if str_eq(payload, "Add Beneficiary") {
        CallbackAction::AddBeneficiary
    } else if str_eq(payload, "Transfer") {
        CallbackAction::Transfer
    } else if str_eq(payload, "Confirm") {
        CallbackAction::Confirm
    } else if str_eq(payload, "Create") {
        CallbackAction::Create
    } else if str_eq(payload, "Logout") {
        CallbackAction::Logout
    } else if str_eq(payload, "Remove Account") {
        CallbackAction::RemoveAccount
    } else if str_eq(payload, "Back") {
        CallbackAction::Back
    } else if str_eq(payload, "Enable MicroInvest") {
        CallbackAction::EnableInvest
    } else if str_eq(payload, "Update MicroInvest") {
        CallbackAction::UpdateInvest
    } else if str_eq(payload, "Check Balance") {
        CallbackAction::CheckBalance
    } else {
        CallbackAction::Unknown
    }
}

/// Relies on `rand::thread_rng().gen_range`: a transfer reference number
/// drawn at random; nothing is promised of its value.
#[verifier::external_body]
fn fresh_reference_number() -> u64 {
    rand::thread_rng().gen_range(u64::MIN..u64::MAX)
}

/// A header equal to `c` except for the operation name.
pub open spec fn cred_with(c: CustomerRequest, b: CustomerRequest, sn: Seq<char>) -> bool {
    &&& b.service_name@ == sn
    &&& b.user_id == c.user_id
    &&& b.pin == c.pin
    &&& b.otp == c.otp
}

fn with_service_name(c: CustomerRequest, name: &str) -> (r: CustomerRequest)
    ensures
        cred_with(c, r, name@),
{
    CustomerRequest {
        service_name: String::from_str(name),
        user_id: c.user_id,
        pin: c.pin,
        otp: c.otp,
    }
}

/// The one-leg transfer summary.
pub open spec fn summary_simple_v(t: TransferBody) -> Seq<char> {
    "SUMMARY\nTransferring to: "@ + t.account_to@ + "\nTransferring from "@ + t.account_from@
        + "\nAmount: $"@ + t.transaction_amount@
}

/// The confirm screen for a summary text.
pub open spec fn confirm_screen_v(text: Seq<char>) -> ScreenV {
    ScreenV { text, buttons: seq!["Confirm"@, "Back"@], row_width: 3 }
}

pub(crate) fn confirm_screen(text: String) -> (r: Screen)
    ensures
        r@ == confirm_screen_v(text@),
{
    let mut buttons: Vec<String> = Vec::new();
    buttons.push(String::from_str("Confirm"));
    buttons.push(String::from_str("Back"));
    let s = Screen { text, buttons, row_width: 3 };
    proof {
        assert(s@.buttons =~= confirm_screen_v(text@).buttons);
    }
    s
}

fn summary_simple(t: &TransferBody) -> (r: String)
    ensures
        r@ == summary_simple_v(*t),
{
    let mut out = String::from_str("SUMMARY\nTransferring to: ");
    out.append(t.account_to.as_str());
    out.append("\nTransferring from ");
    out.append(t.account_from.as_str());
    out.append("\nAmount: $");
    out.append(t.transaction_amount.as_str());
    proof {
        assert(out@ =~= summary_simple_v(*t));
    }
    out
}

/// A resync outcome: the generic notice, then the home screen of `m`.
pub open spec fn resync_done(m: StoreV, chat: Seq<char>, now: u64, r: Outcome) -> bool {
    r matches Outcome::Done(rep) && rep@ == home_reply_v(m, chat, now, Some(generic_notice()))
}

/// What `handle_callback` does for each parsed action; `m0`/`m1` are the
/// store before and after, `r` the outcome. Every branch that needs
/// durable credentials and finds none resyncs.
pub open spec fn callback_post(
    m0: StoreV,
    m1: StoreV,
    chat: Seq<char>,
    payload: Seq<char>,
    now: u64,
    r: Outcome,
) -> bool {
    match spec_callback_kind(payload) {
        CallbackKind::Login => {
            &&& m1 == m0.insert(
                (chat, Topic::Action),
                entry_for(SessionValue::Action(ActionToken::Login), true, now),
            )
            &&& (r matches Outcome::Done(rep) && rep@ == screen_reply_v(
                prompt_v("Please key in your username"@, seq!["Cancel"@]),
            ))
        },
        CallbackKind::Back | CallbackKind::Cancel | CallbackKind::Unknown => {
            &&& m1 == back_store_v(m0, chat)
            &&& (r matches Outcome::Done(rep) && rep@ == home_reply_v(m1, chat, now, None))
        },
        CallbackKind::TransferTo => {
            &&& (exists|t: TransferBody, refnum: u64|
                {
                    &&& t.account_to@ == spec_last_token(payload)
                    &&& t.account_from@ == Seq::<char>::empty()
                    &&& t.transaction_amount@ == Seq::<char>::empty()
                    &&& t.narrative@ == Seq::<char>::empty()
                    &&& t.transaction_reference_number@ == dec_digits(refnum as nat)
                    &&& m1 == m0.insert(
                        (chat, Topic::Action),
                        entry_for(SessionValue::Action(ActionToken::Amount), true, now),
                    ).insert(
                        (chat, Topic::Transfer),
                        entry_for(SessionValue::TransferDraft(t), true, now),
                    )
                })
            &&& (r matches Outcome::Done(rep) && rep@ == screen_reply_v(
                prompt_v("How much do you want to transfer?"@, seq!["Back"@]),
            ))
        },
        CallbackKind::Transfer => {
            match spec_credentials(m0, chat, now) {
                Some(c) => {
                    &&& m1 == m0
                    &&& (r matches Outcome::Call(
                        GatewayOp::GetBeneficiaries(b),
                        Cont::BeneficiaryChoices,
                    ) && cred_with(c, b, "getBeneficiaryList"@))
                },
                None => m1 == m0 && resync_done(m1, chat, now, r),
            }
        },
        CallbackKind::TransferFrom => {
            match spec_transfer_draft(m0, chat, now) {
                None => m1 == m0 && resync_done(m1, chat, now, r),
                Some(t0) => {
                    match spec_transfer_draft(m1, chat, now) {
                        None => false,
                        Some(t2) => {
                            &&& t2.account_from@ == spec_last_token(payload)
                            &&& t2.account_to == t0.account_to
                            &&& t2.transaction_amount == t0.transaction_amount
                            &&& t2.transaction_reference_number == t0.transaction_reference_number
                            &&& t2.narrative@ == "Simple Transfer"@
                            &&& m1 == m0.insert(
                                (chat, Topic::Transfer),
                                entry_for(SessionValue::TransferDraft(t2), true, now),
                            )
                            &&& match spec_credentials(m0, chat, now) {
                                None => resync_done(m1, chat, now, r),
                                Some(c) => {
                                    match spec_invest_account(m0, c.user_id@, now) {
                                        Some(a) => if a@ != t2.account_from@ {
                                            match spec_percent(m0, c.user_id@, now) {
                                                Some(p) => r matches Outcome::Call(
                                                    GatewayOp::GetCustomerAccounts(b),
                                                    Cont::SummaryWithInvest { tx, percent },
                                                ) && cred_with(c, b, "getCustomerAccounts"@) && tx
                                                    == t2 && percent == p,
                                                None => resync_done(m1, chat, now, r),
                                            }
                                        } else {
                                            r matches Outcome::Done(rep) && rep@ == screen_reply_v(
                                                confirm_screen_v(summary_simple_v(t2)),
                                            )
                                        },
                                        None => r matches Outcome::Done(rep) && rep@
                                            == screen_reply_v(
                                            confirm_screen_v(summary_simple_v(t2)),
                                        ),
                                    }
                                },
                            }
                        },
                    }
                },
            }
        },
        CallbackKind::Confirm => {
            match (spec_transfer_draft(m0, chat, now), spec_credentials(m0, chat, now)) {
                (Some(t), Some(c)) => {
                    &&& m1 == m0
                    &&& (r matches Outcome::Call(
                        GatewayOp::Transfer(data, tx),
                        Cont::PrimaryTransfer { data: data2, tx: tx2, invest },
                    ) && cred_with(c, data, "creditTransfer"@) && tx == t && data2 == data && tx2
                        == tx && invest == spec_confirm_invest(m0, c.user_id@, t.account_from@, now))
                },
                _ => m1 == m0 && resync_done(m1, chat, now, r),
            }
        },
        CallbackKind::AddBeneficiary => {
            &&& m1 == m0.insert(
                (chat, Topic::Action),
                entry_for(SessionValue::Action(ActionToken::AddBeneficiary), true, now),
            )
            &&& (r matches Outcome::Done(rep) && rep@ == screen_reply_v(
                prompt_v("Key in account number to add?"@, seq!["Back"@]),
            ))
        },
        CallbackKind::Logout => {
            &&& m1 == m0.remove((chat, Topic::LoginCred))
            &&& (r matches Outcome::Done(rep) && rep@ == home_reply_v(m1, chat, now, None))
        },
        CallbackKind::RemoveAccount => {
            match spec_credentials(m0, chat, now) {
                Some(c) => {
                    &&& m1 == m0.remove((c.user_id@, Topic::MicroInvest)).remove(
                        (c.user_id@, Topic::Percentage),
                    )
                    &&& (r matches Outcome::Done(rep) && rep@ == home_reply_v(m1, chat, now, None))
                },
                None => m1 == m0 && (r matches Outcome::Done(rep) && rep@ == home_reply_v(
                    m1,
                    chat,
                    now,
                    None,
                )),
            }
        },
        CallbackKind::AccountPick => {
            match spec_credentials(m0, chat, now) {
                Some(c) => {
                    &&& (exists|a: String|
                        {
                            &&& a@ == spec_last_token(payload)
                            &&& m1 == m0.insert(
                                (c.user_id@, Topic::MicroInvest),
                                entry_for(SessionValue::InvestAccount(a), false, now),
                            )
                        })
                    &&& (r matches Outcome::Done(rep) && rep@ == ReplyV {
                        notice: Some("You have chosen: "@ + spec_last_token(payload)),
                        photo: None,
                        screen: percent_prompt_v(),
                    })
                },
                None => m1 == m0 && resync_done(m1, chat, now, r),
            }
        },
        CallbackKind::Percentage => {
            match spec_credentials(m0, chat, now) {
                Some(c) => {
                    &&& m1 == m0.insert(
                        (c.user_id@, Topic::Percentage),
                        entry_for(
                            SessionValue::InvestPercent(spec_percent_of(payload)->0),
                            false,
                            now,
                        ),
                    )
                    &&& (r matches Outcome::Done(rep) && rep@ == home_reply_v(m1, chat, now, None))
                },
                None => m1 == m0 && resync_done(m1, chat, now, r),
            }
        },
        CallbackKind::Reselect => {
            match spec_credentials(m0, chat, now) {
                Some(c) => {
                    &&& m1 == m0.remove((c.user_id@, Topic::MicroInvest))
                    &&& (r matches Outcome::Call(
                        GatewayOp::GetCustomerAccounts(b),
                        Cont::InvestMenu { updating, current },
                    ) && cred_with(c, b, "getCustomerAccounts"@) && updating == false && current
                        is None)
                },
                None => m1 == m0 && (r matches Outcome::Done(rep) && rep@ == home_reply_v(
                    m1,
                    chat,
                    now,
                    None,
                )),
            }
        },
        CallbackKind::EnableInvest => {
            match spec_credentials(m0, chat, now) {
                Some(c) => {
                    &&& m1 == m0
                    &&& (r matches Outcome::Call(
                        GatewayOp::GetCustomerAccounts(b),
                        Cont::InvestMenu { updating, current },
                    ) && cred_with(c, b, "getCustomerAccounts"@) && updating == false && current
                        is None)
                },
                None => m1 == m0 && resync_done(m1, chat, now, r),
            }
        },
        CallbackKind::UpdateInvest => {
            match spec_credentials(m0, chat, now) {
                Some(c) => {
                    &&& m1 == m0
                    &&& (r matches Outcome::Call(
                        GatewayOp::GetCustomerAccounts(b),
                        Cont::InvestMenu { updating, current },
                    ) && cred_with(c, b, "getCustomerAccounts"@) && updating == true && current
                        == spec_invest_account(m0, c.user_id@, now))
                },
                None => m1 == m0 && resync_done(m1, chat, now, r),
            }
        },
        CallbackKind::CheckBalance => {
            match spec_credentials(m0, chat, now) {
                Some(c) => {
                    &&& m1 == m0
                    &&& (r matches Outcome::Call(
                        GatewayOp::GetCustomerAccounts(b),
                        Cont::BalanceList,
                    ) && cred_with(c, b, "getCustomerAccounts"@))
                },
                None => m1 == m0 && resync_done(m1, chat, now, r),
            }
        },
        CallbackKind::Chart => {
            match spec_credentials(m0, chat, now) {
                Some(c) => {
                    &&& m1 == m0
                    &&& (r matches Outcome::Call(
                        GatewayOp::GetMonthlyBalanceTrend(b, hb),
                        Cont::TrendForChart { account },
                    ) && cred_with(c, b, "getMonthlyBalanceTrend"@) && hb.account_id@
                        == spec_chart_account(payload) && hb.num_months@ == "6"@ && account@
                        == spec_chart_account(payload))
                },
                None => m1 == m0 && resync_done(m1, chat, now, r),
            }
        },
        CallbackKind::Create => {
            match spec_credentials(m0, chat, now) {
                Some(c) => {
                    &&& m1 == m0
                    &&& (r matches Outcome::Call(
                        GatewayOp::GetCustomerDetails(b),
                        Cont::DetailsForCreate { data, user_id },
                    ) && cred_with(c, b, "getCustomerDetails"@) && data == b && user_id
                        == c.user_id)
                },
                None => m1 == m0 && resync_done(m1, chat, now, r),
            }
        },
    }
}

/// The auto-invest leg Confirm will attempt: the configured target and
/// percentage, provided the target differs from the transfer's source.
pub open spec fn spec_confirm_invest(
    m: StoreV,
    user: Seq<char>,
    source: Seq<char>,
    now: u64,
) -> Option<(String, u8)> {
    match spec_invest_account(m, user, now) {
        Some(a) => if a@ != source {
            match spec_percent(m, user, now) {
                Some(p) => Some((a, p)),
                None => None,
            }
        } else {
            None
        },
        None => None,
    }
}

/// Handle a button press from a chat.
pub fn handle_callback(store: &mut SessionStore, chat: &str, payload: &str, now: u64) -> (r:
    Outcome)
    requires
        old(store).wf(),
        now <= u64::MAX - SESSION_TTL_SECS,
    ensures
        final(store).wf(),
        callback_post(old(store)@, final(store)@, chat@, payload@, now, r),
{
    match parse_callback(payload) {
        CallbackAction::Login => {
            store.set(chat, Topic::Action, SessionValue::Action(ActionToken::Login), true, now);
            let mut buttons: Vec<String> = Vec::new();
            buttons.push(String::from_str("Cancel"));
            let s = Screen {
                text: String::from_str("Please key in your username"),
                buttons,
                row_width: 1,
            };
            proof {
                assert(s@.buttons =~= seq!["Cancel"@]);
            }
            Outcome::Done(Reply { notice: None, photo: None, screen: s })
        },
        CallbackAction::Back | CallbackAction::Cancel | CallbackAction::Unknown => {
            Outcome::Done(handle_back(store, chat, now))
        },
        CallbackAction::TransferTo(acc) => {
            let refnum = fresh_reference_number();
            store.set(chat, Topic::Action, SessionValue::Action(ActionToken::Amount), true, now);
            let t = TransferBody {
                account_from: String::new(),
                account_to: acc,
                transaction_amount: String::new(),
                transaction_reference_number: u64_to_dec(refnum),
                narrative: String::new(),
            };
            proof {
                assert(t.account_from@ =~= Seq::<char>::empty());
                assert(t.transaction_amount@ =~= Seq::<char>::empty());
                assert(t.narrative@ =~= Seq::<char>::empty());
            }
            store.set(chat, Topic::Transfer, SessionValue::TransferDraft(t), true, now);
            let mut buttons: Vec<String> = Vec::new();
            buttons.push(String::from_str("Back"));
            let s = Screen {
                text: String::from_str("How much do you want to transfer?"),
                buttons,
                row_width: 1,
            };
            proof {
                assert(s@.buttons =~= seq!["Back"@]);
            }
            Outcome::Done(Reply { notice: None, photo: None, screen: s })
        },
        CallbackAction::Transfer => {
            match read_credentials(store, chat, now) {
                Some(c) => {
                    let b = with_service_name(c, "getBeneficiaryList");
                    Outcome::Call(GatewayOp::GetBeneficiaries(b), Cont::BeneficiaryChoices)
                },
                None => Outcome::Done(resync(store, chat, now)),
            }
        },
        CallbackAction::TransferFrom(acc) => {
            let draft = match store.get(chat, Topic::Transfer, now) {
                Some(SessionValue::TransferDraft(t)) => Some(t),
                _ => None,
            };
            match draft {
                None => Outcome::Done(resync(store, chat, now)),
                Some(t0) => {
                    let creds = read_credentials(store, chat, now);
                    let t2 = TransferBody {
                        account_from: acc,
                        account_to: t0.account_to,
                        transaction_amount: t0.transaction_amount,
                        transaction_reference_number: t0.transaction_reference_number,
                        narrative: String::from_str("Simple Transfer"),
                    };
                    let t2c = t2.clone();
                    store.set(chat, Topic::Transfer, SessionValue::TransferDraft(t2), true, now);
                    match creds {
                        None => Outcome::Done(resync(store, chat, now)),
                        Some(c) => {
                            let invest = read_invest_account(store, c.user_id.as_str(), now);
                            let differs = match &invest {
                                Some(a) => !str_eq(a.as_str(), t2c.account_from.as_str()),
                                None => false,
                            };
                            if differs {
                                match read_percent(store, c.user_id.as_str(), now) {
                                    Some(p) => {
                                        let b = with_service_name(c, "getCustomerAccounts");
                                        Outcome::Call(
                                            GatewayOp::GetCustomerAccounts(b),
                                            Cont::SummaryWithInvest { tx: t2c, percent: p },
                                        )
                                    },
                                    None => Outcome::Done(resync(store, chat, now)),
                                }
                            } else {
                                let text = summary_simple(&t2c);
                                Outcome::Done(
                                    Reply { notice: None, photo: None, screen: confirm_screen(text) },
                                )
                            }
                        },
                    }
                },
            }
        },
        CallbackAction::Confirm => {
            let draft = match store.get(chat, Topic::Transfer, now) {
                Some(SessionValue::TransferDraft(t)) => Some(t),
                _ => None,
            };
            let creds = read_credentials(store, chat, now);
            match (draft, creds) {
                (Some(t), Some(c)) => {
                    let invest_acct = read_invest_account(store, c.user_id.as_str(), now);
                    let invest = match invest_acct {
                        Some(a) => {
                            if !str_eq(a.as_str(), t.account_from.as_str()) {
                                match read_percent(store, c.user_id.as_str(), now) {
                                    Some(p) => Some((a, p)),
                                    None => None,
                                }
                            } else {
                                None
                            }
                        },
                        None => None,
                    };
                    let data = with_service_name(c, "creditTransfer");
                    let data2 = data.clone();
                    let tx2 = t.clone();
                    Outcome::Call(
                        GatewayOp::Transfer(data, t),
                        Cont::PrimaryTransfer { data: data2, tx: tx2, invest },
                    )
                },
                _ => Outcome::Done(resync(store, chat, now)),
            }
        },
        CallbackAction::AddBeneficiary => {
            store.set(
                chat,
                Topic::Action,
                SessionValue::Action(ActionToken::AddBeneficiary),
                true,
                now,
            );
            let mut buttons: Vec<String> = Vec::new();
            buttons.push(String::from_str("Back"));
            let s = Screen {
                text: String::from_str("Key in account number to add?"),
                buttons,
                row_width: 1,
            };
            proof {
                assert(s@.buttons =~= seq!["Back"@]);
            }
            Outcome::Done(Reply { notice: None, photo: None, screen: s })
        },
        CallbackAction::Logout => {
            store.delete(chat, Topic::LoginCred);
            Outcome::Done(home_reply(store, chat, now, None))
        },
        CallbackAction::RemoveAccount => {
            match read_credentials(store, chat, now) {
                Some(c) => {
                    store.delete(c.user_id.as_str(), Topic::MicroInvest);
                    store.delete(c.user_id.as_str(), Topic::Percentage);
                    Outcome::Done(home_reply(store, chat, now, None))
                },
                None => Outcome::Done(home_reply(store, chat, now, None)),
            }
        },
        CallbackAction::AccountPick(acc) => {
            match read_credentials(store, chat, now) {
                Some(c) => {
                    let mut notice = String::from_str("You have chosen: ");
                    notice.append(acc.as_str());
                    store.set(
                        c.user_id.as_str(),
                        Topic::MicroInvest,
                        SessionValue::InvestAccount(acc),
                        false,
                        now,
                    );
                    Outcome::Done(
                        Reply { notice: Some(notice), photo: None, screen: percent_prompt() },
                    )
                },
                None => Outcome::Done(resync(store, chat, now)),
            }
        },
        CallbackAction::Percentage(v) => {
            match read_credentials(store, chat, now) {
                Some(c) => {
                    store.set(
                        c.user_id.as_str(),
                        Topic::Percentage,
                        SessionValue::InvestPercent(v),
                        false,
                        now,
                    );
                    Outcome::Done(home_reply(store, chat, now, None))
                },
                None => Outcome::Done(resync(store, chat, now)),
            }
        },
        CallbackAction::Reselect => {
            match read_credentials(store, chat, now) {
                Some(c) => {
                    store.delete(c.user_id.as_str(), Topic::MicroInvest);
                    let b = with_service_name(c, "getCustomerAccounts");
                    Outcome::Call(
                        GatewayOp::GetCustomerAccounts(b),
                        Cont::InvestMenu { updating: false, current: None },
                    )
                },
                None => Outcome::Done(home_reply(store, chat, now, None)),
            }
        },
        CallbackAction::EnableInvest => {
            match read_credentials(store, chat, now) {
                Some(c) => {
                    let b = with_service_name(c, "getCustomerAccounts");
                    Outcome::Call(
                        GatewayOp::GetCustomerAccounts(b),
                        Cont::InvestMenu { updating: false, current: None },
                    )
                },
                None => Outcome::Done(resync(store, chat, now)),
            }
        },
        CallbackAction::UpdateInvest => {
            match read_credentials(store, chat, now) {
                Some(c) => {
                    let current = read_invest_account(store, c.user_id.as_str(), now);
                    let b = with_service_name(c, "getCustomerAccounts");
                    Outcome::Call(
                        GatewayOp::GetCustomerAccounts(b),
                        Cont::InvestMenu { updating: true, current },
                    )
                },
                None => Outcome::Done(resync(store, chat, now)),
            }
        },
        CallbackAction::CheckBalance => {
            match read_credentials(store, chat, now) {
                Some(c) => {
                    let b = with_service_name(c, "getCustomerAccounts");
                    Outcome::Call(GatewayOp::GetCustomerAccounts(b), Cont::BalanceList)
                },
                None => Outcome::Done(resync(store, chat, now)),
            }
        },
        CallbackAction::Chart(acc) => {
            match read_credentials(store, chat, now) {
                Some(c) => {
                    let b = with_service_name(c, "getMonthlyBalanceTrend");
                    let hb = HistoricalMonthlyBalanceBody {
                        account_id: acc.clone(),
                        num_months: String::from_str("6"),
                    };
                    Outcome::Call(
                        GatewayOp::GetMonthlyBalanceTrend(b, hb),
                        Cont::TrendForChart { account: acc },
                    )
                },
                None => Outcome::Done(resync(store, chat, now)),
            }
        },
        CallbackAction::Create => {
            match read_credentials(store, chat, now) {
                Some(c) => {
                    let user_id = c.user_id.clone();
                    let b = with_service_name(c, "getCustomerDetails");
                    let data = b.clone();
                    Outcome::Call(
                        GatewayOp::GetCustomerDetails(b),
                        Cont::DetailsForCreate { data, user_id },
                    )
                },
                None => Outcome::Done(resync(store, chat, now)),
            }
        },
    }
}

} // verus!
