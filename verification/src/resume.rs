//! Resuming a conversation step after a gateway call.
//!
//! `handle_message` and `handle_callback` stop at the first gateway call
//! and hand back a continuation; `resume` takes the decoded reply and
//! finishes the step. A failed call, a mismatched reply, or a missing
//! draft always resyncs to the right home screen.

use vstd::prelude::*;

use crate::SESSION_TTL_SECS;
use crate::callback::{confirm_screen, confirm_screen_v, resync_done};
use crate::controller::{
    StoreV, auth_fail_notice, home_reply, home_reply_v, home_screen_v, percent_prompt,
    percent_prompt_v, prompt_v, render_home, resync, spec_credentials, spec_login_cont,
    spec_transfer_draft,
};
use crate::models::{AccountData, Beneficiary, CustomerRequest, TransferBody};
use crate::money::{format_cents, invest_cents, parse_cents, spec_format_cents, spec_invest_cents, spec_parse_cents};
use crate::ops::{Cont, GatewayOp, GatewayReply, Outcome};
use crate::screen::{Reply, ReplyV, Screen, ScreenV, screen_reply_v};
use crate::session::{ActionToken, SessionStore, SessionValue, Topic, entry_for};
use crate::text::str_eq;

verus! {

/// A balance string as cents; anything unreadable counts as zero, so an
/// account with a malformed balance is never offered as a source.
pub open spec fn cents_or_zero(s: Seq<char>) -> u64 {
    match spec_parse_cents(s) {
        Some(c) => c,
        None => 0,
    }
}

fn balance_cents(s: &str) -> (r: u64)
    ensures
        r == cents_or_zero(s@),
{
    match parse_cents(s) {
        Some(c) => c,
        None => 0,
    }
}

/// The source-account labels offered for an amount: one per account whose
/// balance exceeds it.
pub open spec fn source_labels(accts: Seq<AccountData>, amount: u64) -> Seq<Seq<char>>
    decreases accts.len(),
{
    if accts.len() == 0 {
        Seq::empty()
    } else {
        source_labels(accts.drop_last(), amount) + (if cents_or_zero(accts.last().balance@)
            > amount {
            seq!["Transfer From "@ + accts.last().account_id@]
        } else {
            Seq::empty()
        })
    }
}

fn build_source_labels(accts: &Vec<AccountData>, amount: u64) -> (r: Vec<String>)
    ensures
        r@.map_values(|b: String| b@) == source_labels(accts@, amount),
{
    let n = accts.len();
    let mut out: Vec<String> = Vec::new();
    let mut i: usize = 0;
    proof {
        assert(accts@.subrange(0, 0) =~= Seq::<AccountData>::empty());
        assert(out@.map_values(|b: String| b@) =~= source_labels(accts@.subrange(0, 0), amount));
    }
    while i < n
        invariant
            n == accts@.len(),
            i <= n,
            out@.map_values(|b: String| b@) == source_labels(accts@.subrange(0, i as int), amount),
        decreases n - i,
    {
        proof {
            assert(accts@.subrange(0, i + 1).drop_last() =~= accts@.subrange(0, i as int));
            assert(accts@.subrange(0, i + 1).last() == accts@[i as int]);
        }
        let a = &accts[i];
        if balance_cents(a.balance.as_str()) > amount {
            let mut label = String::from_str("Transfer From ");
            label.append(a.account_id.as_str());
            out.push(label);
        }
        proof {
            assert(out@.map_values(|b: String| b@) =~= source_labels(
                accts@.subrange(0, i + 1),
                amount,
            ));
        }
        i = i + 1;
    }
    proof {
        assert(accts@.subrange(0, n as int) =~= accts@);
    }
    out
}

/// The destination labels offered from the beneficiary list.
pub open spec fn beneficiary_labels(bs: Seq<Beneficiary>) -> Seq<Seq<char>>
    decreases bs.len(),
{
    if bs.len() == 0 {
        Seq::empty()
    } else {
        beneficiary_labels(bs.drop_last()).push(
            "Transfer To "@ + bs.last().description@ + " "@ + bs.last().account_id@,
        )
    }
}

fn build_beneficiary_labels(bs: &Vec<Beneficiary>) -> (r: Vec<String>)
    ensures
        r@.map_values(|b: String| b@) == beneficiary_labels(bs@),
{
    let n = bs.len();
    let mut out: Vec<String> = Vec::new();
    let mut i: usize = 0;
    proof {
        assert(bs@.subrange(0, 0) =~= Seq::<Beneficiary>::empty());
        assert(out@.map_values(|b: String| b@) =~= beneficiary_labels(bs@.subrange(0, 0)));
    }
    while i < n
        invariant
            n == bs@.len(),
            i <= n,
            out@.map_values(|b: String| b@) == beneficiary_labels(bs@.subrange(0, i as int)),
        decreases n - i,
    {
        proof {
            assert(bs@.subrange(0, i + 1).drop_last() =~= bs@.subrange(0, i as int));
            assert(bs@.subrange(0, i + 1).last() == bs@[i as int]);
        }
        let b = &bs[i];
        let mut label = String::from_str("Transfer To ");
        label.append(b.description.as_str());
        label.append(" ");
        label.append(b.account_id.as_str());
        out.push(label);
        proof {
            assert(out@.map_values(|s: String| s@) =~= beneficiary_labels(bs@.subrange(0, i + 1)));
        }
        i = i + 1;
    }
    proof {
        assert(bs@.subrange(0, n as int) =~= bs@);
    }
    out
}

/// An account eligible for auto-invest carries the fixed product id.
pub open spec fn is_eligible(a: AccountData) -> bool {
    a.product_id@ == "101"@
}

/// How many accounts are eligible.
pub open spec fn eligible_count(accts: Seq<AccountData>) -> int
    decreases accts.len(),
{
    if accts.len() == 0 {
        0
    } else {
        eligible_count(accts.drop_last()) + (if is_eligible(accts.last()) {
            1int
        } else {
            0int
        })
    }
}

/// The listing lines of the eligible accounts: id and interest rate.
pub open spec fn invest_lines(accts: Seq<AccountData>) -> Seq<char>
    decreases accts.len(),
{
    if accts.len() == 0 {
        Seq::empty()
    } else {
        invest_lines(accts.drop_last()) + (if is_eligible(accts.last()) {
            accts.last().account_id@ + " - "@ + accts.last().interest_rate@ + "%\n"@
        } else {
            Seq::<char>::empty()
        })
    }
}

/// The pick buttons of the eligible accounts, minus an excluded one.
pub open spec fn invest_buttons(accts: Seq<AccountData>, exclude: Option<Seq<char>>) -> Seq<
    Seq<char>,
>
    decreases accts.len(),
{
    if accts.len() == 0 {
        Seq::empty()
    } else {
        invest_buttons(accts.drop_last(), exclude) + (if is_eligible(accts.last()) && (match exclude {
            Some(e) => accts.last().account_id@ != e,
            None => true,
        }) {
            seq!["Account: "@ + accts.last().account_id@]
        } else {
            Seq::empty()
        })
    }
}

struct InvestMenuParts {
    lines: String,
    buttons: Vec<String>,
    eligible: usize,
}

fn build_invest_menu(accts: &Vec<AccountData>, exclude: &Option<String>) -> (r: InvestMenuParts)
    ensures
        r.lines@ == invest_lines(accts@),
        r.buttons@.map_values(|b: String| b@) == invest_buttons(
            accts@,
            match exclude {
                Some(e) => Some(e@),
                None => None,
            },
        ),
        r.eligible as int == eligible_count(accts@),
{
    let ghost ex: Option<Seq<char>> = match exclude {
        Some(e) => Some(e@),
        None => None,
    };
    let n = accts.len();
    let mut lines = String::new();
    let mut buttons: Vec<String> = Vec::new();
    let mut eligible: usize = 0;
    let mut i: usize = 0;
    proof {
        assert(accts@.subrange(0, 0) =~= Seq::<AccountData>::empty());
        assert(lines@ =~= invest_lines(accts@.subrange(0, 0)));
        assert(buttons@.map_values(|b: String| b@) =~= invest_buttons(accts@.subrange(0, 0), ex));
    }
    while i < n
        invariant
            n == accts@.len(),
            i <= n,
            ex == (match exclude {
                Some(e) => Some(e@),
                None => None,
            }),
            lines@ == invest_lines(accts@.subrange(0, i as int)),
            buttons@.map_values(|b: String| b@) == invest_buttons(accts@.subrange(0, i as int), ex),
            eligible as int == eligible_count(accts@.subrange(0, i as int)),
            eligible <= i,
        decreases n - i,
    {
        proof {
            assert(accts@.subrange(0, i + 1).drop_last() =~= accts@.subrange(0, i as int));
            assert(accts@.subrange(0, i + 1).last() == accts@[i as int]);
        }
        let a = &accts[i];
        if str_eq(a.product_id.as_str(), "101") {
            lines.append(a.account_id.as_str());
            lines.append(" - ");
            lines.append(a.interest_rate.as_str());
            lines.append("%\n");
            eligible = eligible + 1;
            let keep = match exclude {
                Some(e) => !str_eq(a.account_id.as_str(), e.as_str()),
                None => true,
            };
            if keep {
                let mut label = String::from_str("Account: ");
                label.append(a.account_id.as_str());
                buttons.push(label);
            }
        }
        proof {
            assert(lines@ =~= invest_lines(accts@.subrange(0, i + 1)));
            assert(buttons@.map_values(|b: String| b@) =~= invest_buttons(
                accts@.subrange(0, i + 1),
                ex,
            ));
        }
        i = i + 1;
    }
    proof {
        assert(accts@.subrange(0, n as int) =~= accts@);
    }
    InvestMenuParts { lines, buttons, eligible }
}

/// The balance listing lines: account, currency and balance, one per line.
pub open spec fn balance_lines(accts: Seq<AccountData>) -> Seq<char>
    decreases accts.len(),
{
    if accts.len() == 0 {
        Seq::empty()
    } else {
        balance_lines(accts.drop_last()) + accts.last().account_id@ + " - "@
            + accts.last().currency@ + accts.last().balance@ + "\n"@
    }
}

/// One history button per account.
pub open spec fn history_buttons(accts: Seq<AccountData>) -> Seq<Seq<char>>
    decreases accts.len(),
{
    if accts.len() == 0 {
        Seq::empty()
    } else {
        history_buttons(accts.drop_last()).push(
            "View Account "@ + accts.last().account_id@ + " Balance History"@,
        )
    }
}

fn build_balance_list(accts: &Vec<AccountData>) -> (r: (String, Vec<String>))
    ensures
        r.0@ == balance_lines(accts@),
        r.1@.map_values(|b: String| b@) == history_buttons(accts@),
{
    let n = accts.len();
    let mut lines = String::new();
    let mut buttons: Vec<String> = Vec::new();
    let mut i: usize = 0;
    proof {
        assert(accts@.subrange(0, 0) =~= Seq::<AccountData>::empty());
        assert(lines@ =~= balance_lines(accts@.subrange(0, 0)));
        assert(buttons@.map_values(|b: String| b@) =~= history_buttons(accts@.subrange(0, 0)));
    }
    while i < n
        invariant
            n == accts@.len(),
            i <= n,
            lines@ == balance_lines(accts@.subrange(0, i as int)),
            buttons@.map_values(|b: String| b@) == history_buttons(accts@.subrange(0, i as int)),
        decreases n - i,
    {
        proof {
            assert(accts@.subrange(0, i + 1).drop_last() =~= accts@.subrange(0, i as int));
            assert(accts@.subrange(0, i + 1).last() == accts@[i as int]);
        }
        let a = &accts[i];
        lines.append(a.account_id.as_str());
        lines.append(" - ");
        lines.append(a.currency.as_str());
        lines.append(a.balance.as_str());
        lines.append("\n");
        let mut label = String::from_str("View Account ");
        label.append(a.account_id.as_str());
        label.append(" Balance History");
        buttons.push(label);
        proof {
            assert(lines@ =~= balance_lines(accts@.subrange(0, i + 1)));
            assert(buttons@.map_values(|b: String| b@) =~= history_buttons(
                accts@.subrange(0, i + 1),
            ));
        }
        i = i + 1;
    }
    proof {
        assert(accts@.subrange(0, n as int) =~= accts@);
    }
    (lines, buttons)
}

/// The balance of the named account among `accts`: the first record with
/// that id, read as cents; no record reads as zero.
pub open spec fn spec_balance_of(accts: Seq<AccountData>, id: Seq<char>) -> u64
    decreases accts.len(),
{
    if accts.len() == 0 {
        0
    } else if accts.first().account_id@ == id {
        cents_or_zero(accts.first().balance@)
    } else {
        spec_balance_of(accts.drop_first(), id)
    }
}

fn balance_of(accts: &Vec<AccountData>, id: &str) -> (r: u64)
    ensures
        r == spec_balance_of(accts@, id@),
{
    let n = accts.len();
    let mut i: usize = 0;
    proof {
        assert(accts@.skip(0) =~= accts@);
    }
    while i < n
        invariant
            n == accts@.len(),
            i <= n,
            spec_balance_of(accts@.skip(i as int), id@) == spec_balance_of(accts@, id@),
        decreases n - i,
    {
        proof {
            assert(accts@.skip(i as int).first() == accts@[i as int]);
            assert(accts@.skip(i as int).drop_first() =~= accts@.skip(i as int + 1));
        }
        let a = &accts[i];
        if str_eq(a.account_id.as_str(), id) {
            return balance_cents(a.balance.as_str());
        }
        i = i + 1;
    }
    proof {
        assert(accts@.skip(n as int) =~= Seq::<AccountData>::empty());
    }
    0
}

/// The two-leg transfer summary.
pub open spec fn summary_invest_v(t: TransferBody, amount: u64, invest: u64) -> Seq<char> {
    "SUMMARY\nTransferring to: "@ + t.account_to@ + "\nTransferring from "@ + t.account_from@
        + "\nAmount: $"@ + spec_format_cents(amount) + "\nMicro-Invest amount: $"@
        + spec_format_cents(invest)
}

pub open spec fn transfer_done_notice() -> Seq<char> {
    "The transfer has been done"@
}

pub open spec fn partial_invest_notice() -> Seq<char> {
    "The transfer has been done except for your Micro Invest"@
}

/// A reply that reports a business success and returns home.
pub open spec fn notice_home_done(
    m: StoreV,
    chat: Seq<char>,
    now: u64,
    notice: Seq<char>,
    r: Outcome,
) -> bool {
    r matches Outcome::Done(rep) && rep@ == home_reply_v(m, chat, now, Some(notice))
}

/// A reply with the authentication-failure notice and the home screen.
pub open spec fn auth_fail_done(m: StoreV, chat: Seq<char>, now: u64, r: Outcome) -> bool {
    r matches Outcome::Done(rep) && rep@ == home_reply_v(m, chat, now, Some(auth_fail_notice()))
}

/// What `resume` does for each continuation and reply; `m0`/`m1` are the
/// store before and after, `r` the outcome. A reply that does not match
/// the continuation counts as a failure.
pub open spec fn resume_post(
    m0: StoreV,
    m1: StoreV,
    chat: Seq<char>,
    cont: Cont,
    reply: GatewayReply,
    now: u64,
    r: Outcome,
) -> bool {
    match cont {
        Cont::OtpStatus { user_id, pin } => {
            match reply {
                GatewayReply::OtpRequested => {
                    match spec_login_cont(m1, chat, now) {
                        Some(c2) => {
                            &&& c2.service_name@ == "loginCustomer"@
                            &&& c2.user_id == user_id
                            &&& c2.pin == pin
                            &&& c2.otp@ == Seq::<char>::empty()
                            &&& m1 == m0.insert(
                                (chat, Topic::LoginStep),
                                entry_for(SessionValue::Credentials(c2), true, now),
                            ).insert(
                                (chat, Topic::Action),
                                entry_for(SessionValue::Action(ActionToken::LoginOtp), true, now),
                            )
                            &&& (r matches Outcome::Done(rep) && rep@ == screen_reply_v(
                                prompt_v("Please key in your OTP"@, seq!["Cancel"@]),
                            ))
                        },
                        None => false,
                    }
                },
                _ => m1 == m0 && auth_fail_done(m1, chat, now, r),
            }
        },
        Cont::LoginStatus { cred } => {
            match reply {
                GatewayReply::LoggedIn => {
                    match spec_credentials(m1, chat, now) {
                        Some(c2) => {
                            &&& c2.service_name == cred.service_name
                            &&& c2.user_id == cred.user_id
                            &&& c2.pin == cred.pin
                            &&& c2.otp@ == "999999"@
                            &&& m1 == m0.insert(
                                (chat, Topic::LoginCred),
                                entry_for(SessionValue::Credentials(c2), false, now),
                            )
                            &&& (r matches Outcome::Done(rep) && rep@ == home_reply_v(
                                m1,
                                chat,
                                now,
                                None,
                            ))
                        },
                        None => false,
                    }
                },
                _ => m1 == m0 && auth_fail_done(m1, chat, now, r),
            }
        },
        Cont::SourcesForAmount { amount } => {
            match reply {
                GatewayReply::Accounts(v) => {
                    if source_labels(v@, amount).len() == 0 {
                        m1 == m0 && resync_done(m1, chat, now, r)
                    } else {
                        match spec_transfer_draft(m0, chat, now) {
                            None => m1 == m0 && resync_done(m1, chat, now, r),
                            Some(t0) => {
                                match spec_transfer_draft(m1, chat, now) {
                                    Some(t2) => {
                                        &&& t2.account_from == t0.account_from
                                        &&& t2.account_to == t0.account_to
                                        &&& t2.transaction_amount@ == spec_format_cents(amount)
                                        &&& t2.transaction_reference_number
                                            == t0.transaction_reference_number
                                        &&& t2.narrative == t0.narrative
                                        &&& m1 == m0.insert(
                                            (chat, Topic::Transfer),
                                            entry_for(SessionValue::TransferDraft(t2), true, now),
                                        )
                                        &&& (r matches Outcome::Done(rep) && rep@ == screen_reply_v(
                                            prompt_v(
                                                "Which account would you like to use?"@,
                                                source_labels(v@, amount).push("Back"@),
                                            ),
                                        ))
                                    },
                                    None => false,
                                }
                            },
                        }
                    }
                },
                _ => m1 == m0 && resync_done(m1, chat, now, r),
            }
        },
        Cont::BeneficiaryChoices => {
            match reply {
                GatewayReply::Beneficiaries(list) => {
                    &&& m1 == m0
                    &&& (r matches Outcome::Done(rep) && rep@ == screen_reply_v(
                        prompt_v(
                            "Where would you like to transfer to?"@,
                            beneficiary_labels(list@).push("Add Beneficiary"@).push("Back"@),
                        ),
                    ))
                },
                _ => m1 == m0 && resync_done(m1, chat, now, r),
            }
        },
        Cont::SummaryWithInvest { tx, percent } => {
            match reply {
                GatewayReply::Accounts(v) => {
                    if percent > 100 {
                        m1 == m0 && resync_done(m1, chat, now, r)
                    } else {
                        let amount = cents_or_zero(tx.transaction_amount@);
                        let invest = spec_invest_cents(amount, percent);
                        if spec_balance_of(v@, tx.account_from@) >= amount + invest {
                            &&& m1 == m0
                            &&& (r matches Outcome::Done(rep) && rep@ == screen_reply_v(
                                confirm_screen_v(summary_invest_v(tx, amount, invest)),
                            ))
                        } else {
                            m1 == m0 && resync_done(m1, chat, now, r)
                        }
                    }
                },
                _ => m1 == m0 && resync_done(m1, chat, now, r),
            }
        },
        Cont::PrimaryTransfer { data, tx, invest } => {
            match reply {
                GatewayReply::InvocationOk => {
                    match invest {
                        Some((ia, p)) => {
                            if p > 100 {
                                m1 == m0 && resync_done(m1, chat, now, r)
                            } else {
                                &&& m1 == m0
                                &&& (r matches Outcome::Call(
                                    GatewayOp::Transfer(d2, t2),
                                    Cont::SecondaryTransfer,
                                ) && d2 == data && t2.account_to == ia && t2.account_from
                                    == tx.account_from && t2.transaction_reference_number
                                    == tx.transaction_reference_number && t2.transaction_amount@
                                    == spec_format_cents(
                                    spec_invest_cents(cents_or_zero(tx.transaction_amount@), p),
                                ) && t2.narrative@ == "Micro-Invest"@)
                            }
                        },
                        None => {
                            &&& m1 == m0.remove((chat, Topic::Transfer)).remove(
                                (chat, Topic::Action),
                            )
                            &&& notice_home_done(m1, chat, now, transfer_done_notice(), r)
                        },
                    }
                },
                _ => m1 == m0 && resync_done(m1, chat, now, r),
            }
        },
        Cont::SecondaryTransfer => {
            &&& m1 == m0.remove((chat, Topic::Transfer)).remove((chat, Topic::Action))
            &&& match reply {
                GatewayReply::InvocationOk => notice_home_done(
                    m1,
                    chat,
                    now,
                    transfer_done_notice(),
                    r,
                ),
                _ => notice_home_done(m1, chat, now, partial_invest_notice(), r),
            }
        },
        Cont::AddBenStatus => {
            match reply {
                GatewayReply::InvocationOk => {
                    &&& m1 == m0
                    &&& notice_home_done(m1, chat, now, "Beneficiary has been added"@, r)
                },
                _ => m1 == m0 && resync_done(m1, chat, now, r),
            }
        },
        Cont::DetailsForCreate { data, user_id } => {
            match reply {
                GatewayReply::CertificateNo(Some(cert)) => {
                    &&& m1 == m0
                    &&& (r matches Outcome::Call(
                        GatewayOp::CreateAccount(d2),
                        Cont::CreatedAccount { user_id: u2 },
                    ) && d2.service_name@ == "openDepositAccount"@ && d2.pin@ == "1"@ && d2.otp@
                        == Seq::<char>::empty() && d2.user_id == cert && u2 == user_id)
                },
                _ => m1 == m0 && resync_done(m1, chat, now, r),
            }
        },
        Cont::CreatedAccount { user_id } => {
            match reply {
                GatewayReply::CreatedAccount(Some(id)) => {
                    &&& m1 == m0.insert(
                        (user_id@, Topic::MicroInvest),
                        entry_for(SessionValue::InvestAccount(id), false, now),
                    )
                    &&& (r matches Outcome::Done(rep) && rep@ == ReplyV {
                        notice: Some("We have created: "@ + id@),
                        photo: None,
                        screen: percent_prompt_v(),
                    })
                },
                GatewayReply::CreatedAccount(None) => {
                    &&& m1 == m0
                    &&& (r matches Outcome::Done(rep) && rep@ == ReplyV {
                        notice: Some("Failed creating the account."@),
                        photo: None,
                        screen: home_screen_v(m1, chat, now),
                    })
                },
                _ => m1 == m0 && resync_done(m1, chat, now, r),
            }
        },
        Cont::InvestMenu { updating, current } => {
            match reply {
                GatewayReply::Accounts(v) => {
                    &&& m1 == m0
                    &&& if !updating {
                        if eligible_count(v@) == 1 {
                            r matches Outcome::Done(rep) && rep@ == screen_reply_v(
                                prompt_v(
                                    "You only have one account.\nPlease open a new account"@,
                                    seq!["Create"@, "Back"@],
                                ),
                            )
                        } else {
                            r matches Outcome::Done(rep) && rep@ == screen_reply_v(
                                prompt_v(
                                    "You have more than one account.\nPlease select one or would you like to create a new one?\n"@
                                        + invest_lines(v@),
                                    invest_buttons(v@, None).push("Create"@).push("Back"@),
                                ),
                            )
                        }
                    } else {
                        let cur = match current {
                            Some(a) => a@,
                            None => Seq::<char>::empty(),
                        };
                        let ex = match current {
                            Some(a) => Some(a@),
                            None => None,
                        };
                        r matches Outcome::Done(rep) && rep@ == screen_reply_v(
                            prompt_v(
                                "Your current MicroInvest account "@ + cur
                                    + ".\nPlease select one or would you like to create a new one?\n"@
                                    + invest_lines(v@),
                                invest_buttons(v@, ex).push("Remove Account"@).push("Back"@),
                            ),
                        )
                    }
                },
                _ => m1 == m0 && resync_done(m1, chat, now, r),
            }
        },
        Cont::BalanceList => {
            match reply {
                GatewayReply::Accounts(v) => {
                    &&& m1 == m0
                    &&& (r matches Outcome::Done(rep) && rep@ == screen_reply_v(
                        prompt_v(
                            "Your Account Balance is:\n"@ + balance_lines(v@),
                            history_buttons(v@).push("Back"@),
                        ),
                    ))
                },
                _ => m1 == m0 && resync_done(m1, chat, now, r),
            }
        },
        Cont::TrendForChart { account } => {
            match reply {
                GatewayReply::Trend(cb) => {
                    &&& m1 == m0
                    &&& (r matches Outcome::Call(
                        GatewayOp::GetBalanceChart(cb2),
                        Cont::ChartImage { account: a2 },
                    ) && cb2 == cb && a2 == account)
                },
                _ => m1 == m0 && resync_done(m1, chat, now, r),
            }
        },
        Cont::ChartImage { account } => {
            match reply {
                GatewayReply::ChartImage(bytes) => {
                    &&& m1 == m0
                    &&& (r matches Outcome::Done(rep) && rep@ == ReplyV {
                        notice: None,
                        photo: Some(bytes@),
                        screen: prompt_v(
                            account@ + " balance over the past 6 months"@,
                            seq!["Back"@],
                        ),
                    })
                },
                _ => m1 == m0 && resync_done(m1, chat, now, r),
            }
        },
    }
}

fn screen_one_button(text: String, label: &str) -> (r: Screen)
    ensures
        r@ == prompt_v(text@, seq![label@]),
{
    let mut buttons: Vec<String> = Vec::new();
    buttons.push(String::from_str(label));
    let s = Screen { text, buttons, row_width: 1 };
    proof {
        assert(s@.buttons =~= seq![label@]);
    }
    s
}

/// Continue a step once the gateway call it was waiting on has come back.
pub fn resume(
    store: &mut SessionStore,
    chat: &str,
    cont: Cont,
    reply: GatewayReply,
    now: u64,
) -> (r: Outcome)
    requires
        old(store).wf(),
        now <= u64::MAX - SESSION_TTL_SECS,
    ensures
        final(store).wf(),
        resume_post(old(store)@, final(store)@, chat@, cont, reply, now, r),
{
    match cont {
        Cont::OtpStatus { user_id, pin } => {
            match reply {
                GatewayReply::OtpRequested => {
                    let c2 = CustomerRequest {
                        service_name: String::from_str("loginCustomer"),
                        user_id,
                        pin,
                        otp: String::new(),
                    };
                    proof {
                        assert(c2.otp@ =~= Seq::<char>::empty());
                    }
                    store.set(chat, Topic::LoginStep, SessionValue::Credentials(c2), true, now);
                    store.set(
                        chat,
                        Topic::Action,
                        SessionValue::Action(ActionToken::LoginOtp),
                        true,
                        now,
                    );
                    let s = screen_one_button(String::from_str("Please key in your OTP"), "Cancel");
                    Outcome::Done(Reply { notice: None, photo: None, screen: s })
                },
                _ => {
                    Outcome::Done(
                        home_reply(
                            store,
                            chat,
                            now,
                            Some(
                                String::from_str(
                                    "Sorry It seems like we could not authenticate you. Please try again.",
                                ),
                            ),
                        ),
                    )
                },
            }
        },
        Cont::LoginStatus { cred } => {
            match reply {
                GatewayReply::LoggedIn => {
                    let c2 = CustomerRequest {
                        service_name: cred.service_name,
                        user_id: cred.user_id,
                        pin: cred.pin,
                        otp: String::from_str("999999"),
                    };
                    store.set(chat, Topic::LoginCred, SessionValue::Credentials(c2), false, now);
                    Outcome::Done(home_reply(store, chat, now, None))
                },
                _ => {
                    Outcome::Done(
                        home_reply(
                            store,
                            chat,
                            now,
                            Some(
                                String::from_str(
                                    "Sorry It seems like we could not authenticate you. Please try again.",
                                ),
                            ),
                        ),
                    )
                },
            }
        },
        Cont::SourcesForAmount { amount } => {
            match reply {
                GatewayReply::Accounts(v) => {
                    let mut labels = build_source_labels(&v, amount);
                    if labels.len() == 0 {
                        return Outcome::Done(resync(store, chat, now));
                    }
                    let draft = match store.get(chat, Topic::Transfer, now) {
                        Some(SessionValue::TransferDraft(t)) => Some(t),
                        _ => None,
                    };
                    match draft {
                        None => Outcome::Done(resync(store, chat, now)),
                        Some(t0) => {
                            let t2 = TransferBody {
                                account_from: t0.account_from,
                                account_to: t0.account_to,
                                transaction_amount: format_cents(amount),
                                transaction_reference_number: t0.transaction_reference_number,
                                narrative: t0.narrative,
                            };
                            store.set(
                                chat,
                                Topic::Transfer,
                                SessionValue::TransferDraft(t2),
                                true,
                                now,
                            );
                            let ghost pre = labels@.map_values(|b: String| b@);
                            labels.push(String::from_str("Back"));
                            proof {
                                assert(labels@.map_values(|b: String| b@) =~= pre.push("Back"@));
                            }
                            let s = Screen {
                                text: String::from_str("Which account would you like to use?"),
                                buttons: labels,
                                row_width: 1,
                            };
                            Outcome::Done(Reply { notice: None, photo: None, screen: s })
                        },
                    }
                },
                _ => Outcome::Done(resync(store, chat, now)),
            }
        },
        Cont::BeneficiaryChoices => {
            match reply {
                GatewayReply::Beneficiaries(list) => {
                    let mut labels = build_beneficiary_labels(&list);
                    let ghost pre = labels@.map_values(|b: String| b@);
                    labels.push(String::from_str("Add Beneficiary"));
                    labels.push(String::from_str("Back"));
                    proof {
                        assert(labels@.map_values(|b: String| b@) =~= pre.push(
                            "Add Beneficiary"@,
                        ).push("Back"@));
                    }
                    let s = Screen {
                        text: String::from_str("Where would you like to transfer to?"),
                        buttons: labels,
                        row_width: 1,
                    };
                    Outcome::Done(Reply { notice: None, photo: None, screen: s })
                },
                _ => Outcome::Done(resync(store, chat, now)),
            }
        },
        Cont::SummaryWithInvest { tx, percent } => {
            match reply {
                GatewayReply::Accounts(v) => {
                    if percent > 100 {
                        return Outcome::Done(resync(store, chat, now));
                    }
                    let amount = balance_cents(tx.transaction_amount.as_str());
                    let invest = invest_cents(amount, percent);
                    let bal = balance_of(&v, tx.account_from.as_str());
                    if (bal as u128) >= (amount as u128) + (invest as u128) {
                        let mut text = String::from_str("SUMMARY\nTransferring to: ");
                        text.append(tx.account_to.as_str());
                        text.append("\nTransferring from ");
                        text.append(tx.account_from.as_str());
                        text.append("\nAmount: $");
                        let fa = format_cents(amount);
                        text.append(fa.as_str());
                        text.append("\nMicro-Invest amount: $");
                        let fi = format_cents(invest);
                        text.append(fi.as_str());
                        proof {
                            assert(text@ =~= summary_invest_v(tx, amount, invest));
                        }
                        Outcome::Done(
                            Reply { notice: None, photo: None, screen: confirm_screen(text) },
                        )
                    } else {
                        Outcome::Done(resync(store, chat, now))
                    }
                },
                _ => Outcome::Done(resync(store, chat, now)),
            }
        },
        Cont::PrimaryTransfer { data, tx, invest } => {
            match reply {
                GatewayReply::InvocationOk => {
                    match invest {
                        Some((ia, p)) => {
                            if p > 100 {
                                return Outcome::Done(resync(store, chat, now));
                            }
                            let amount = balance_cents(tx.transaction_amount.as_str());
                            let inv = invest_cents(amount, p);
                            let t2 = TransferBody {
                                account_from: tx.account_from,
                                account_to: ia,
                                transaction_amount: format_cents(inv),
                                transaction_reference_number: tx.transaction_reference_number,
                                narrative: String::from_str("Micro-Invest"),
                            };
                            Outcome::Call(GatewayOp::Transfer(data, t2), Cont::SecondaryTransfer)
                        },
                        None => {
                            store.delete(chat, Topic::Transfer);
                            store.delete(chat, Topic::Action);
                            Outcome::Done(
                                home_reply(
                                    store,
                                    chat,
                                    now,
                                    Some(String::from_str("The transfer has been done")),
                                ),
                            )
                        },
                    }
                },
                _ => Outcome::Done(resync(store, chat, now)),
            }
        },
        Cont::SecondaryTransfer => {
            store.delete(chat, Topic::Transfer);
            store.delete(chat, Topic::Action);
            match reply {
                GatewayReply::InvocationOk => {
                    Outcome::Done(
                        home_reply(
                            store,
                            chat,
                            now,
                            Some(String::from_str("The transfer has been done")),
                        ),
                    )
                },
                _ => {
                    Outcome::Done(
                        home_reply(
                            store,
                            chat,
                            now,
                            Some(
                                String::from_str(
                                    "The transfer has been done except for your Micro Invest",
                                ),
                            ),
                        ),
                    )
                },
            }
        },
        Cont::AddBenStatus => {
            match reply {
                GatewayReply::InvocationOk => {
                    Outcome::Done(
                        home_reply(
                            store,
                            chat,
                            now,
                            Some(String::from_str("Beneficiary has been added")),
                        ),
                    )
                },
                _ => Outcome::Done(resync(store, chat, now)),
            }
        },
        Cont::DetailsForCreate { data, user_id } => {
            match reply {
                GatewayReply::CertificateNo(Some(cert)) => {
                    let d2 = CustomerRequest {
                        service_name: String::from_str("openDepositAccount"),
                        user_id: cert,
                        pin: String::from_str("1"),
                        otp: String::new(),
                    };
                    proof {
                        assert(d2.otp@ =~= Seq::<char>::empty());
                    }
                    Outcome::Call(GatewayOp::CreateAccount(d2), Cont::CreatedAccount { user_id })
                },
                _ => Outcome::Done(resync(store, chat, now)),
            }
        },
        Cont::CreatedAccount { user_id } => {
            match reply {
                GatewayReply::CreatedAccount(Some(id)) => {
                    let mut notice = String::from_str("We have created: ");
                    notice.append(id.as_str());
                    store.set(
                        user_id.as_str(),
                        Topic::MicroInvest,
                        SessionValue::InvestAccount(id),
                        false,
                        now,
                    );
                    Outcome::Done(
                        Reply { notice: Some(notice), photo: None, screen: percent_prompt() },
                    )
                },
                GatewayReply::CreatedAccount(None) => {
                    Outcome::Done(
                        Reply {
                            notice: Some(String::from_str("Failed creating the account.")),
                            photo: None,
                            screen: render_home(store, chat, now),
                        },
                    )
                },
                _ => Outcome::Done(resync(store, chat, now)),
            }
        },
        Cont::InvestMenu { updating, current } => {
            match reply {
                GatewayReply::Accounts(v) => {
                    let none_opt: Option<String> = None;
                    let parts = build_invest_menu(
                        &v,
                        if updating {
                            &current
                        } else {
                            &none_opt
                        },
                    );
                    if !updating {
                        if parts.eligible == 1 {
                            proof {
                                assert(eligible_count(v@) == 1);
                            }
                            let mut buttons: Vec<String> = Vec::new();
                            buttons.push(String::from_str("Create"));
                            buttons.push(String::from_str("Back"));
                            let s = Screen {
                                text: String::from_str(
                                    "You only have one account.\nPlease open a new account",
                                ),
                                buttons,
                                row_width: 1,
                            };
                            proof {
                                assert(s@.buttons =~= seq!["Create"@, "Back"@]);
                            }
                            Outcome::Done(Reply { notice: None, photo: None, screen: s })
                        } else {
                            let mut text = String::from_str(
                                "You have more than one account.\nPlease select one or would you like to create a new one?\n",
                            );
                            text.append(parts.lines.as_str());
                            let mut buttons = parts.buttons;
                            let ghost pre = buttons@.map_values(|b: String| b@);
                            buttons.push(String::from_str("Create"));
                            buttons.push(String::from_str("Back"));
                            proof {
                                assert(buttons@.map_values(|b: String| b@) =~= pre.push(
                                    "Create"@,
                                ).push("Back"@));
                            }
                            let s = Screen { text, buttons, row_width: 1 };
                            Outcome::Done(Reply { notice: None, photo: None, screen: s })
                        }
                    } else {
                        let mut text = String::from_str("Your current MicroInvest account ");
                        match &current {
                            Some(a) => {
                                text.append(a.as_str());
                            },
                            None => {},
                        }
                        text.append(
                            ".\nPlease select one or would you like to create a new one?\n",
                        );
                        text.append(parts.lines.as_str());
                        let mut buttons = parts.buttons;
                        let ghost pre = buttons@.map_values(|b: String| b@);
                        buttons.push(String::from_str("Remove Account"));
                        buttons.push(String::from_str("Back"));
                        proof {
                            let cur = match &current {
                                Some(a) => a@,
                                None => Seq::<char>::empty(),
                            };
                            let ex: Option<Seq<char>> = match &current {
                                Some(a) => Some(a@),
                                None => None,
                            };
                            assert(buttons@.map_values(|b: String| b@) =~= invest_buttons(
                                v@,
                                ex,
                            ).push("Remove Account"@).push("Back"@));
                            assert(text@ =~= "Your current MicroInvest account "@ + cur
                                + ".\nPlease select one or would you like to create a new one?\n"@
                                + invest_lines(v@));
                        }
                        let s = Screen { text, buttons, row_width: 1 };
                        Outcome::Done(Reply { notice: None, photo: None, screen: s })
                    }
                },
                _ => Outcome::Done(resync(store, chat, now)),
            }
        },
        Cont::BalanceList => {
            match reply {
                GatewayReply::Accounts(v) => {
                    let (lines, mut buttons) = build_balance_list(&v);
                    let mut text = String::from_str("Your Account Balance is:\n");
                    text.append(lines.as_str());
                    let ghost pre = buttons@.map_values(|b: String| b@);
                    buttons.push(String::from_str("Back"));
                    proof {
                        assert(buttons@.map_values(|b: String| b@) =~= pre.push("Back"@));
                    }
                    let s = Screen { text, buttons, row_width: 1 };
                    Outcome::Done(Reply { notice: None, photo: None, screen: s })
                },
                _ => Outcome::Done(resync(store, chat, now)),
            }
        },
        Cont::TrendForChart { account } => {
            match reply {
                GatewayReply::Trend(cb) => {
                    Outcome::Call(
                        GatewayOp::GetBalanceChart(cb),
                        Cont::ChartImage { account },
                    )
                },
                _ => Outcome::Done(resync(store, chat, now)),
            }
        },
        Cont::ChartImage { account } => {
            match reply {
                GatewayReply::ChartImage(bytes) => {
                    let mut text = account;
                    text.append(" balance over the past 6 months");
                    let s = screen_one_button(text, "Back");
                    Outcome::Done(Reply { notice: None, photo: Some(bytes), screen: s })
                },
                _ => Outcome::Done(resync(store, chat, now)),
            }
        },
    }
}

} // verus!
