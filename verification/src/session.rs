//! The session store: a namespaced, TTL-aware key/value store.
//!
//! A key is a *scope* (a chat id or an authenticated user id) paired with a
//! *topic*; at most one live value exists per key. Writing a key replaces any
//! prior value outright. An *ephemeral* write carries a fixed TTL; once that
//! TTL has elapsed the entry behaves exactly like an absent one. The store is
//! driven by an explicit clock (`now` in seconds), so expiry is a property of
//! the data, not of a hidden timer.

use vstd::prelude::*;

use crate::SESSION_TTL_SECS;
use crate::models::{AddBeneficiaryBody, CustomerRequest, RequestOTP, TransferBody};
use crate::text::str_eq;

verus! {

/// Topic of a session entry within one scope (chat or user).
#[derive(Clone, Copy, PartialEq, Eq, Structural, Debug)]
pub enum Topic {
    /// The conversation step the chat is waiting on.
    Action,
    /// Partial login data collected so far (ephemeral).
    LoginStep,
    /// Durable credentials of an authenticated chat.
    LoginCred,
    /// Pending transfer draft (built across several steps).
    Transfer,
    /// Pending beneficiary draft.
    AddBen,
    /// Durable auto-invest target account, scoped to the user.
    MicroInvest,
    /// Durable auto-invest percentage, scoped to the user.
    Percentage,
}

/// The conversation step stored under `Topic::Action`.
#[derive(Clone, Copy, PartialEq, Eq, Structural, Debug)]
pub enum ActionToken {
    /// Waiting for the username.
    Login,
    /// Waiting for the PIN.
    LoginPin,
    /// Waiting for the one-time passcode.
    LoginOtp,
    /// Waiting for the transfer amount.
    Amount,
    /// Waiting for the account number of a new beneficiary.
    AddBeneficiary,
    /// Waiting for the label of a new beneficiary.
    AddBenDesc,
}

/// A value stored in the session: a closed union of everything the
/// conversation persists between updates.
pub enum SessionValue {
    Action(ActionToken),
    LoginDraft(RequestOTP),
    Credentials(CustomerRequest),
    TransferDraft(TransferBody),
    BeneficiaryDraft(AddBeneficiaryBody),
    InvestAccount(String),
    InvestPercent(u8),
}

impl Clone for SessionValue {
    fn clone(&self) -> (r: Self)
        ensures
            r == *self,
    {
        match self {
            SessionValue::Action(t) => SessionValue::Action(*t),
            SessionValue::LoginDraft(d) => SessionValue::LoginDraft(d.clone()),
            SessionValue::Credentials(c) => SessionValue::Credentials(c.clone()),
            SessionValue::TransferDraft(t) => SessionValue::TransferDraft(t.clone()),
            SessionValue::BeneficiaryDraft(b) => SessionValue::BeneficiaryDraft(b.clone()),
            SessionValue::InvestAccount(a) => SessionValue::InvestAccount(a.clone()),
            SessionValue::InvestPercent(p) => SessionValue::InvestPercent(*p),
        }
    }
}

/// What the store holds for one key: the value and, for an ephemeral entry,
/// the instant at which it stops existing.
pub ghost struct EntryV {
    pub value: SessionValue,
    pub expiry: Option<u64>,
}

/// The entry that a `set` with the given arguments creates.
pub open spec fn entry_for(value: SessionValue, ephemeral: bool, now: u64) -> EntryV {
    EntryV {
        value,
        expiry: if ephemeral {
            Some((now + SESSION_TTL_SECS) as u64)
        } else {
            None
        },
    }
}

/// What `get` observes at time `now` on a store whose contents are `m`: the
/// stored value, unless the key is absent or its expiry has passed.
pub open spec fn lookup(
    m: Map<(Seq<char>, Topic), EntryV>,
    scope: Seq<char>,
    topic: Topic,
    now: u64,
) -> Option<SessionValue> {
    if m.contains_key((scope, topic)) {
        let e = m[(scope, topic)];
        if e.expiry is Some && e.expiry->0 <= now {
            None
        } else {
            Some(e.value)
        }
    } else {
        None
    }
}

struct StoreEntry {
    scope: String,
    topic: Topic,
    value: SessionValue,
    expiry: Option<u64>,
}

spec fn store_key(e: StoreEntry) -> (Seq<char>, Topic) {
    (e.scope@, e.topic)
}

spec fn store_payload(e: StoreEntry) -> EntryV {
    EntryV { value: e.value, expiry: e.expiry }
}

spec fn entries_map(s: Seq<StoreEntry>) -> Map<(Seq<char>, Topic), EntryV>
    decreases s.len(),
{
    if s.len() == 0 {
        Map::empty()
    } else {
        entries_map(s.drop_last()).insert(store_key(s.last()), store_payload(s.last()))
    }
}

spec fn unique_keys(s: Seq<StoreEntry>) -> bool {
    forall|i: int, j: int|
        0 <= i < j < s.len() ==> store_key(s[i]) != store_key(s[j])
}

proof fn lemma_not_found(s: Seq<StoreEntry>, k: (Seq<char>, Topic))
    requires
        forall|i: int| 0 <= i < s.len() ==> store_key(s[i]) != k,
    ensures
        !entries_map(s).contains_key(k),
    decreases s.len(),
{
    if s.len() > 0 {
        lemma_not_found(s.drop_last(), k);
    }
}

proof fn lemma_lookup(s: Seq<StoreEntry>, i: int)
    requires
        0 <= i < s.len(),
        unique_keys(s),
    ensures
        entries_map(s).contains_key(store_key(s[i])),
        entries_map(s)[store_key(s[i])] == store_payload(s[i]),
    decreases s.len(),
{
    if i == s.len() - 1 {
    } else {
        assert(store_key(s.last()) != store_key(s[i]));
        assert(s.drop_last()[i] == s[i]);
        lemma_lookup(s.drop_last(), i);
    }
}

proof fn lemma_remove_idx(s: Seq<StoreEntry>, i: int)
    requires
        0 <= i < s.len(),
        unique_keys(s),
    ensures
        entries_map(s.remove(i)) == entries_map(s).remove(store_key(s[i])),
    decreases s.len(),
{
    if i == s.len() - 1 {
        assert(s.remove(i) =~= s.drop_last());
        lemma_not_found(s.drop_last(), store_key(s[i]));
        assert(entries_map(s.drop_last()) =~= entries_map(s).remove(store_key(s[i])));
    } else {
        let k = store_key(s[i]);
        let kl = store_key(s.last());
        assert(k != kl);
        assert(s.remove(i).drop_last() =~= s.drop_last().remove(i));
        assert(s.remove(i).last() == s.last());
        assert(s.drop_last()[i] == s[i]);
        lemma_remove_idx(s.drop_last(), i);
        assert(entries_map(s.remove(i)) == entries_map(s.drop_last()).remove(k).insert(
            kl,
            store_payload(s.last()),
        ));
        assert(entries_map(s.drop_last()).remove(k).insert(kl, store_payload(s.last()))
            =~= entries_map(s.drop_last()).insert(kl, store_payload(s.last())).remove(k));
    }
}

/// The session store itself: a flat list of entries, at most one per key.
pub struct SessionStore {
    entries: Vec<StoreEntry>,
}

impl View for SessionStore {
    type V = Map<(Seq<char>, Topic), EntryV>;

    closed spec fn view(&self) -> Map<(Seq<char>, Topic), EntryV> {
        entries_map(self.entries@)
    }
}

impl SessionStore {
    /// Internal shape: no two entries share a key.
    pub closed spec fn wf(&self) -> bool {
        unique_keys(self.entries@)
    }

    /// What `get` returns at time `now`.
    pub open spec fn spec_get(&self, scope: Seq<char>, topic: Topic, now: u64) -> Option<
        SessionValue,
    > {
        lookup(self@, scope, topic, now)
    }

    /// An empty store.
    pub fn new() -> (r: SessionStore)
        ensures
            r.wf(),
            r@ == Map::<(Seq<char>, Topic), EntryV>::empty(),
    {
        SessionStore { entries: Vec::new() }
    }

    fn find_index(&self, scope: &str, topic: Topic) -> (r: Option<usize>)
        ensures
            match r {
                Some(i) => i < self.entries@.len() && store_key(self.entries@[i as int]) == (
                    scope@,
                    topic,
                ),
                None => forall|i: int|
                    0 <= i < self.entries@.len() ==> store_key(self.entries@[i]) != (scope@, topic),
            },
    {
        let n = self.entries.len();
        let mut i: usize = 0;
        while i < n
            invariant
                n == self.entries@.len(),
                i <= n,
                forall|j: int| 0 <= j < i ==> store_key(self.entries@[j]) != (scope@, topic),
            decreases n - i,
        {
            let e = &self.entries[i];
            if e.topic == topic && str_eq(e.scope.as_str(), scope) {
                return Some(i);
            }
            i = i + 1;
        }
        None
    }

    /// Read the live value under a key, if any. A missing or expired entry
    /// reads as nothing; an expired entry is not distinguishable from an
    /// absent one.
    pub fn get(&self, scope: &str, topic: Topic, now: u64) -> (r: Option<SessionValue>)
        requires
            self.wf(),
        ensures
            r == self.spec_get(scope@, topic, now),
    {
        match self.find_index(scope, topic) {
            Some(i) => {
                proof {
                    lemma_lookup(self.entries@, i as int);
                }
                let e = &self.entries[i];
                match e.expiry {
                    Some(x) => {
                        if x <= now {
                            None
                        } else {
                            Some(e.value.clone())
                        }
                    },
                    None => Some(e.value.clone()),
                }
            },
            None => {
                proof {
                    lemma_not_found(self.entries@, (scope@, topic));
                }
                None
            },
        }
    }

    /// Drop the entry under a key, expired or not. Deleting an absent key is
    /// harmless.
    pub fn delete(&mut self, scope: &str, topic: Topic)
        requires
            old(self).wf(),
        ensures
            final(self).wf(),
            final(self)@ == old(self)@.remove((scope@, topic)),
    {
        match self.find_index(scope, topic) {
            Some(i) => {
                proof {
                    lemma_remove_idx(self.entries@, i as int);
                }
                self.entries.remove(i);
                proof {
                    assert forall|a: int, b: int|
                        0 <= a < b < self.entries@.len() implies store_key(self.entries@[a])
                        != store_key(self.entries@[b]) by {
                        assert(self.entries@[a] == old(self).entries@[if a < i as int {
                            a
                        } else {
                            a + 1
                        }]);
                        assert(self.entries@[b] == old(self).entries@[if b < i as int {
                            b
                        } else {
                            b + 1
                        }]);
                    }
                }
            },
            None => {
                proof {
                    lemma_not_found(self.entries@, (scope@, topic));
                    assert(old(self)@.remove((scope@, topic)) =~= old(self)@);
                }
            },
        }
    }

    /// Write a value under a key, replacing whatever was there. With
    /// `ephemeral` the entry lasts `SESSION_TTL_SECS` seconds from `now`;
    /// without it, until an explicit `delete`.
    pub fn set(&mut self, scope: &str, topic: Topic, value: SessionValue, ephemeral: bool, now: u64)
        requires
            old(self).wf(),
            now <= u64::MAX - SESSION_TTL_SECS,
        ensures
            final(self).wf(),
            final(self)@ == old(self)@.insert((scope@, topic), entry_for(value, ephemeral, now)),
    {
        self.delete(scope, topic);
        let ghost mid = self.entries@;
        let expiry = if ephemeral {
            Some(now + SESSION_TTL_SECS)
        } else {
            None
        };
        let entry = StoreEntry { scope: scope.to_owned(), topic, value, expiry };
        proof {
            // after delete, the key is absent from the list
            lemma_not_found_converse(mid, (scope@, topic));
        }
        self.entries.push(entry);
        proof {
            assert(self.entries@.drop_last() =~= mid);
            assert(old(self)@.remove((scope@, topic)).insert(
                (scope@, topic),
                entry_for(value, ephemeral, now),
            ) =~= old(self)@.insert((scope@, topic), entry_for(value, ephemeral, now)));
        }
    }
}

proof fn lemma_not_found_converse(s: Seq<StoreEntry>, k: (Seq<char>, Topic))
    requires
        !entries_map(s).contains_key(k),
    ensures
        forall|i: int| 0 <= i < s.len() ==> store_key(s[i]) != k,
    decreases s.len(),
{
    if s.len() > 0 {
        lemma_not_found_converse(s.drop_last(), k);
        assert forall|i: int| 0 <= i < s.len() implies store_key(s[i]) != k by {
            if i < s.len() - 1 {
                assert(s.drop_last()[i] == s[i]);
            }
        }
    }
}

/// Law: a `get` that follows a `set` of the same key, with no delete in
/// between, observes exactly the value set — whatever the store held before —
/// provided an ephemeral entry is read before its TTL elapses.
pub proof fn lemma_get_after_set(
    m: Map<(Seq<char>, Topic), EntryV>,
    scope: Seq<char>,
    topic: Topic,
    value: SessionValue,
    ephemeral: bool,
    t: u64,
    now: u64,
)
    requires
        t <= u64::MAX - SESSION_TTL_SECS,
        ephemeral ==> now < t + SESSION_TTL_SECS,
    ensures
        lookup(m.insert((scope, topic), entry_for(value, ephemeral, t)), scope, topic, now)
            == Some(value),
{
}

/// Law: once its TTL has elapsed, an ephemeral entry is indistinguishable
/// from one that was never set: `get` observes nothing, exactly as it does on
/// the same store with the key absent.
pub proof fn lemma_ephemeral_expires(
    m: Map<(Seq<char>, Topic), EntryV>,
    scope: Seq<char>,
    topic: Topic,
    value: SessionValue,
    t: u64,
    now: u64,
)
    requires
        t <= u64::MAX - SESSION_TTL_SECS,
        now >= t + SESSION_TTL_SECS,
    ensures
        lookup(m.insert((scope, topic), entry_for(value, true, t)), scope, topic, now)
            == None::<SessionValue>,
        lookup(m.insert((scope, topic), entry_for(value, true, t)), scope, topic, now) == lookup(
            m.remove((scope, topic)),
            scope,
            topic,
            now,
        ),
{
}

} // verus!
