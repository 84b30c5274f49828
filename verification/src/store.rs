//! An in-memory model of the relational store the service persists into:
//! the `subscriptions`, `subscription_tokens` and `users` tables, with the
//! operations the services need. Row identifiers are handed out by a
//! counter, so they are unique by construction.

use vstd::prelude::*;

use crate::domain::person::Person;

verus! {

/// Relies on `chrono::Utc::now`: the clock decides the value, so nothing is
/// promised of it.
#[verifier::external_body]
fn current_timestamp() -> i64 {
    chrono::Utc::now().timestamp()
}

/// The lifecycle state of a subscription row. A row is created pending and
/// moves to confirmed at most once; there is no way back.
#[derive(Debug, Clone, Copy, PartialEq, Eq, Structural)]
pub enum SubscriberStatus {
    PendingConfirmation,
    Confirmed,
}

/// One row of the `subscriptions` table.
#[derive(Debug)]
pub struct SubscriptionRow {
    pub id: u64,
    pub email: String,
    pub name: String,
    pub subscribed_at: i64,
    pub status: SubscriberStatus,
}

/// One row of the `subscription_tokens` table: a token maps to exactly one
/// subscriber, and rows are only ever appended.
#[derive(Debug)]
pub struct TokenRow {
    pub subscription_token: String,
    pub subscriber_id: u64,
}

/// One row of the `users` table; read-only for this crate.
#[derive(Debug)]
pub struct UserRow {
    pub user_id: u64,
    pub username: String,
    pub password_hash: String,
}

/// The subscriber id the given token maps to: the first row carrying the
/// token, if any.
pub open spec fn token_lookup(tokens: Seq<TokenRow>, token: Seq<char>) -> Option<u64>
    decreases tokens.len(),
{
    if tokens.len() == 0 {
        None
    } else if tokens[0].subscription_token@ == token {
        Some(tokens[0].subscriber_id)
    } else {
        token_lookup(tokens.drop_first(), token)
    }
}

/// The user row the given username maps to: the first row carrying the
/// username, if any.
pub open spec fn user_lookup(users: Seq<UserRow>, username: Seq<char>) -> Option<UserRow>
    decreases users.len(),
{
    if users.len() == 0 {
        None
    } else if users[0].username@ == username {
        Some(users[0])
    } else {
        user_lookup(users.drop_first(), username)
    }
}

/// The `(name, email)` pairs of the confirmed subscription rows, in table
/// order.
pub open spec fn confirmed_pairs(rows: Seq<SubscriptionRow>) -> Seq<(Seq<char>, Seq<char>)>
    decreases rows.len(),
{
    if rows.len() == 0 {
        Seq::empty()
    } else {
        confirmed_pairs(rows.drop_last()) + if rows.last().status == SubscriberStatus::Confirmed {
            seq![(rows.last().name@, rows.last().email@)]
        } else {
            Seq::empty()
        }
    }
}

/// How one subscription row reacts to a confirmation of `subscriber_id`:
/// a pending row with that id flips to confirmed, any other row is left
/// alone.
pub open spec fn confirm_update(row: SubscriptionRow, subscriber_id: u64) -> SubscriptionRow {
    if row.id == subscriber_id && row.status == SubscriberStatus::PendingConfirmation {
        SubscriptionRow { status: SubscriberStatus::Confirmed, ..row }
    } else {
        row
    }
}

/// The three tables, plus the counter that mints row identifiers.
#[derive(Debug)]
pub struct Store {
    pub subscriptions: Vec<SubscriptionRow>,
    pub tokens: Vec<TokenRow>,
    pub users: Vec<UserRow>,
    pub next_id: u64,
}

impl Store {
    /// Every subscription id was minted by the counter, so ids are unique
    /// and below `next_id`.
    pub open spec fn wf(&self) -> bool {
        &&& forall|i: int|
            0 <= i < self.subscriptions@.len() ==> (#[trigger] self.subscriptions@[i].id)
                < self.next_id
        &&& forall|i: int, j: int|
            0 <= i < j < self.subscriptions@.len() ==> (#[trigger] self.subscriptions@[i].id) != (
            #[trigger] self.subscriptions@[j].id)
    }

    /// An empty store.
    pub fn new() -> (s: Store)
        ensures
            s.wf(),
            s.subscriptions@ == Seq::<SubscriptionRow>::empty(),
            s.tokens@ == Seq::<TokenRow>::empty(),
            s.users@ == Seq::<UserRow>::empty(),
    {
        Store { subscriptions: Vec::new(), tokens: Vec::new(), users: Vec::new(), next_id: 0 }
    }

    /// Append a subscription row in the pending state, stamped with the
    /// current time, and hand back its fresh id; `INSERT INTO subscriptions
    /// ... VALUES (..., 'pending_confirmation')` in the relational schema.
    pub fn insert_subscriber(&mut self, form: &Person) -> (id: u64)
        requires
            old(self).wf(),
            old(self).next_id < u64::MAX,
        ensures
            final(self).wf(),
            id == old(self).next_id,
            final(self).next_id == old(self).next_id + 1,
            final(self).subscriptions@.len() == old(self).subscriptions@.len() + 1,
            forall|i: int|
                0 <= i < old(self).subscriptions@.len() ==> final(self).subscriptions@[i] == old(
                    self,
                ).subscriptions@[i],
            final(self).subscriptions@.last().id == id,
            final(self).subscriptions@.last().email@ == form.email@,
            final(self).subscriptions@.last().name@ == form.name@,
            final(self).subscriptions@.last().status == SubscriberStatus::PendingConfirmation,
            final(self).tokens == old(self).tokens,
            final(self).users == old(self).users,
    {
        let id = self.next_id;
        self.next_id = self.next_id + 1;
        let row = SubscriptionRow {
            id,
            email: form.email.as_str().to_owned(),
            name: form.name.as_str().to_owned(),
            subscribed_at: current_timestamp(),
            status: SubscriberStatus::PendingConfirmation,
        };
        self.subscriptions.push(row);
        id
    }

    /// Append a token row linking `token` to `subscriber_id`.
    pub fn insert_token(&mut self, subscriber_id: u64, token: &str)
        requires
            old(self).wf(),
        ensures
            final(self).wf(),
            final(self).tokens@.len() == old(self).tokens@.len() + 1,
            forall|i: int|
                0 <= i < old(self).tokens@.len() ==> final(self).tokens@[i] == old(self).tokens@[i],
            final(self).tokens@.last().subscription_token@ == token@,
            final(self).tokens@.last().subscriber_id == subscriber_id,
            final(self).subscriptions == old(self).subscriptions,
            final(self).users == old(self).users,
            final(self).next_id == old(self).next_id,
    {
        let row = TokenRow { subscription_token: token.to_owned(), subscriber_id };
        self.tokens.push(row);
    }

    /// Append a user row; test fixtures and operator provisioning use this,
    /// the services only read users.
    pub fn insert_user(&mut self, user_id: u64, username: &str, password_hash: &str)
        requires
            old(self).wf(),
        ensures
            final(self).wf(),
            final(self).users@.len() == old(self).users@.len() + 1,
            forall|i: int|
                0 <= i < old(self).users@.len() ==> final(self).users@[i] == old(self).users@[i],
            final(self).users@.last().user_id == user_id,
            final(self).users@.last().username@ == username@,
            final(self).users@.last().password_hash@ == password_hash@,
            final(self).subscriptions == old(self).subscriptions,
            final(self).tokens == old(self).tokens,
            final(self).next_id == old(self).next_id,
    {
        let row = UserRow { user_id, username: username.to_owned(), password_hash: password_hash.to_owned() };
        self.users.push(row);
    }

    /// Look a confirmation token up, as `SELECT subscriber_id FROM
    /// subscription_tokens WHERE subscription_token = $1` would.
    pub fn get_subscriber_id(&self, subscription_token: &str) -> (r: Option<u64>)
        ensures
            r == token_lookup(self.tokens@, subscription_token@),
    {
        let n = self.tokens.len();
        let mut i: usize = 0;
        proof {
            assert(self.tokens@.skip(0) =~= self.tokens@);
        }
        while i < n
            invariant
                i <= n,
                n == self.tokens@.len(),
                token_lookup(self.tokens@, subscription_token@) == token_lookup(
                    self.tokens@.skip(i as int),
                    subscription_token@,
                ),
            decreases n - i,
        {
            proof {
                assert(self.tokens@.skip(i as int)[0] == self.tokens@[i as int]);
                assert(self.tokens@.skip(i as int).drop_first() =~= self.tokens@.skip(i + 1));
            }
            if str_eq(self.tokens[i].subscription_token.as_str(), subscription_token) {
                return Some(self.tokens[i].subscriber_id);
            }
            i = i + 1;
        }
        proof {
            assert(self.tokens@.skip(n as int) =~= Seq::<TokenRow>::empty());
        }
        None
    }

    /// Look a username up, as `SELECT user_id, username, password_hash FROM
    /// users WHERE username = $1` would.
    pub fn get_user(&self, username: &str) -> (r: Option<&UserRow>)
        ensures
            match r {
                Some(u) => user_lookup(self.users@, username@) == Some(*u),
                None => user_lookup(self.users@, username@) is None,
            },
    {
        let n = self.users.len();
        let mut i: usize = 0;
        proof {
            assert(self.users@.skip(0) =~= self.users@);
        }
        while i < n
            invariant
                i <= n,
                n == self.users@.len(),
                user_lookup(self.users@, username@) == user_lookup(
                    self.users@.skip(i as int),
                    username@,
                ),
            decreases n - i,
        {
            proof {
                assert(self.users@.skip(i as int)[0] == self.users@[i as int]);
                assert(self.users@.skip(i as int).drop_first() =~= self.users@.skip(i + 1));
            }
            if str_eq(self.users[i].username.as_str(), username) {
                return Some(&self.users[i]);
            }
            i = i + 1;
        }
        proof {
            assert(self.users@.skip(n as int) =~= Seq::<UserRow>::empty());
        }
        None
    }

    /// Flip the row with the given id from pending to confirmed, as `UPDATE
    /// subscriptions SET status = 'confirmed' WHERE id = $1 AND status =
    /// 'pending_confirmation'` would: an already-confirmed or absent row is
    /// left untouched, without an error.
    pub fn confirm_subscriber(&mut self, subscriber_id: u64)
        requires
            old(self).wf(),
        ensures
            final(self).wf(),
            final(self).subscriptions@.len() == old(self).subscriptions@.len(),
            forall|i: int|
                0 <= i < old(self).subscriptions@.len() ==> final(self).subscriptions@[i]
                    == confirm_update(old(self).subscriptions@[i], subscriber_id),
            final(self).tokens == old(self).tokens,
            final(self).users == old(self).users,
            final(self).next_id == old(self).next_id,
    {
        let n = self.subscriptions.len();
        let mut i: usize = 0;
        while i < n
            invariant
                i <= n,
                n == self.subscriptions@.len(),
                self.subscriptions@.len() == old(self).subscriptions@.len(),
                forall|j: int|
                    0 <= j < i ==> self.subscriptions@[j] == confirm_update(
                        old(self).subscriptions@[j],
                        subscriber_id,
                    ),
                forall|j: int|
                    i <= j < n ==> self.subscriptions@[j] == old(self).subscriptions@[j],
                self.tokens == old(self).tokens,
                self.users == old(self).users,
                self.next_id == old(self).next_id,
            decreases n - i,
        {
            if self.subscriptions[i].id == subscriber_id && self.subscriptions[i].status
                == SubscriberStatus::PendingConfirmation {
                let row = &mut self.subscriptions[i];
                row.status = SubscriberStatus::Confirmed;
            }
            i = i + 1;
        }
    }

    /// The `(name, email)` pairs of every confirmed subscriber, as `SELECT
    /// email, name FROM subscriptions WHERE status = 'confirmed'` would
    /// return them.
    pub fn get_confirmed_subscribers(&self) -> (r: Vec<(String, String)>)
        ensures
            r@.len() == confirmed_pairs(self.subscriptions@).len(),
            forall|i: int|
                0 <= i < r@.len() ==> ((#[trigger] r@[i]).0@, r@[i].1@) == confirmed_pairs(
                    self.subscriptions@,
                )[i],
    {
        let n = self.subscriptions.len();
        let mut out: Vec<(String, String)> = Vec::new();
        let mut i: usize = 0;
        while i < n
            invariant
                i <= n,
                n == self.subscriptions@.len(),
                out@.len() == confirmed_pairs(self.subscriptions@.take(i as int)).len(),
                forall|j: int|
                    0 <= j < out@.len() ==> ((#[trigger] out@[j]).0@, out@[j].1@)
                        == confirmed_pairs(self.subscriptions@.take(i as int))[j],
            decreases n - i,
        {
            proof {
                assert(self.subscriptions@.take(i + 1).drop_last() =~= self.subscriptions@.take(
                    i as int,
                ));
                assert(self.subscriptions@.take(i + 1).last() == self.subscriptions@[i as int]);
            }
            let row = &self.subscriptions[i];
            if row.status == SubscriberStatus::Confirmed {
                out.push((row.name.clone(), row.email.clone()));
            }
            i = i + 1;
        }
        proof {
            assert(self.subscriptions@.take(n as int) =~= self.subscriptions@);
        }
        out
    }
}

/// A token, once issued, is never reassigned: rows are only appended, and
/// appending one cannot change what an already-resolving token maps to.
pub proof fn lemma_token_never_reassigned(tokens: Seq<TokenRow>, row: TokenRow, token: Seq<char>)
    requires
        token_lookup(tokens, token) is Some,
    ensures
        token_lookup(tokens.push(row), token) == token_lookup(tokens, token),
    decreases tokens.len(),
{
    assert(tokens.len() > 0);
    assert(tokens.push(row)[0] == tokens[0]);
    if tokens[0].subscription_token@ == token {
    } else {
        assert(tokens.push(row).drop_first() =~= tokens.drop_first().push(row));
        lemma_token_never_reassigned(tokens.drop_first(), row, token);
    }
}

/// Character-for-character equality of two string slices.
pub(crate) fn str_eq(a: &str, b: &str) -> (r: bool)
    ensures
        r == (a@ == b@),
{
    let sa = a.to_owned();
    let sb = b.to_owned();
    sa == sb
}

} // verus!
