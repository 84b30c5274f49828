//! Confirming a subscription: look the token up, and flip the subscriber it
//! names from pending to confirmed. An unknown or absent token is the
//! caller's mistake; re-confirming is a harmless no-op.

use vstd::prelude::*;

use crate::store::confirm_update;
use crate::store::token_lookup;
use crate::store::Store;
use crate::store::SubscriberStatus;
use crate::store::SubscriptionRow;

verus! {

/// The query parameters of a confirmation request.
#[derive(Debug)]
pub struct Parameters {
    pub subscription_token: String,
}

/// Why a confirmation failed. An unknown token is a bad request, not a
/// server fault; `Database` is reserved for faults of the store itself.
#[derive(Debug, Clone, PartialEq, Eq)]
pub enum ConfirmError {
    NotFound,
    Database,
}

/// Confirm the subscription a token was issued for. An absent or unknown
/// token changes nothing and reports `NotFound`; a known token flips its
/// subscriber from pending to confirmed, and is accepted again (with no
/// further effect) once the subscriber is confirmed.
pub fn confirm(store: &mut Store, params: Option<&Parameters>) -> (r: Result<(), ConfirmError>)
    requires
        old(store).wf(),
    ensures
        final(store).wf(),
        final(store).tokens == old(store).tokens,
        final(store).users == old(store).users,
        final(store).next_id == old(store).next_id,
        match params {
            None => r == Err::<(), ConfirmError>(ConfirmError::NotFound) && *final(store) == *old(store),
            Some(p) => match token_lookup(old(store).tokens@, p.subscription_token@) {
                None => r == Err::<(), ConfirmError>(ConfirmError::NotFound) && *final(store) == *old(store),
                Some(id) => {
                    &&& r == Ok::<(), ConfirmError>(())
                    &&& final(store).subscriptions@.len() == old(store).subscriptions@.len()
                    &&& forall|i: int|
                        0 <= i < old(store).subscriptions@.len()
                            ==> final(store).subscriptions@[i] == confirm_update(
                            old(store).subscriptions@[i],
                            id,
                        )
                },
            },
        },
{
    let p = match params {
        Some(p) => p,
        None => {
            return Err(ConfirmError::NotFound);
        },
    };

    let subscriber_id = match store.get_subscriber_id(p.subscription_token.as_str()) {
        Some(id) => id,
        None => {
            return Err(ConfirmError::NotFound);
        },
    };

    store.confirm_subscriber(subscriber_id);
    Ok(())
}

/// Confirming is idempotent on every row: a second confirmation with the
/// same id changes nothing further.
pub proof fn lemma_confirm_idempotent(row: SubscriptionRow, subscriber_id: u64)
    ensures
        confirm_update(confirm_update(row, subscriber_id), subscriber_id) == confirm_update(
            row,
            subscriber_id,
        ),
{
}

/// A confirmed row is terminal: no confirmation, of this subscriber or any
/// other, alters it.
pub proof fn lemma_confirmed_is_terminal(row: SubscriptionRow, subscriber_id: u64)
    requires
        row.status == SubscriberStatus::Confirmed,
    ensures
        confirm_update(row, subscriber_id) == row,
{
}

/// The only transition is pending-to-confirmed, and only for the named
/// subscriber: everything but the status is kept, and the status changes
/// exactly on a pending row with a matching id.
pub proof fn lemma_confirm_transitions(row: SubscriptionRow, subscriber_id: u64)
    ensures
        confirm_update(row, subscriber_id).id == row.id,
        confirm_update(row, subscriber_id).email == row.email,
        confirm_update(row, subscriber_id).name == row.name,
        confirm_update(row, subscriber_id).subscribed_at == row.subscribed_at,
        confirm_update(row, subscriber_id).status == (if row.id == subscriber_id && row.status
            == SubscriberStatus::PendingConfirmation {
            SubscriberStatus::Confirmed
        } else {
            row.status
        }),
{
}

} // verus!
