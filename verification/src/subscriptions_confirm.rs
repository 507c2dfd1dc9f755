//! The confirmation entry point: redeem a token and promote its subscriber.

use vstd::prelude::*;

use crate::store::{
    confirm_row, contains_id, lemma_token_lookup_skip, spec_confirm_rows, spec_token_lookup,
    store_contents_wf, unique_ids, Store, SubscriberStatus,
};
use crate::text::str_eq;

verus! {

/// The query parameters of a confirmation request.
pub struct Parameters {
    pub subscription_token: String,
}

/// Resolves a token to the subscriber it was issued for; an unknown token is a
/// valid outcome, not an error.
pub fn get_subscriber_id(store: &Store, subscription_token: &str) -> (r: Option<u128>)
    ensures
        r == spec_token_lookup(store.tokens@, subscription_token@),
{
    let n = store.tokens.len();
    let mut i: usize = 0;
    while i < n
        invariant
            0 <= i <= n,
            n == store.tokens@.len(),
            forall|j: int| 0 <= j < i ==> store.tokens@[j].token@ != subscription_token@,
        decreases n - i,
    {
        if str_eq(store.tokens[i].token.as_str(), subscription_token) {
            proof {
                lemma_token_lookup_skip(store.tokens@, subscription_token@, i as int);
                assert(store.tokens@.skip(i as int).first() == store.tokens@[i as int]);
            }
            return Some(store.tokens[i].subscriber_id);
        }
        i = i + 1;
    }
    proof {
        lemma_token_lookup_skip(store.tokens@, subscription_token@, n as int);
        assert(store.tokens@.skip(n as int).len() == 0);
    }
    None
}

/// Sets the subscriber's status to confirmed. Idempotent: a subscriber that is
/// already confirmed is written again with the same value, and an unknown id
/// changes nothing — neither case is an error.
pub fn confirm_subscriber(store: &mut Store, id: u128)
    requires
        old(store).wf(),
    ensures
        final(store).subscribers@ == spec_confirm_rows(old(store).subscribers@, id),
        final(store).tokens@ == old(store).tokens@,
        final(store).wf(),
{
    let ghost rows0 = store.subscribers@;
    proof {
        assert(rows0 == old(store).subscribers@);
        assert(unique_ids(rows0)) by {
            assert forall|x: int, y: int| 0 <= x < y < rows0.len() implies rows0[x].id
                != rows0[y].id by {
                assert(old(store).subscribers@[x].id != old(store).subscribers@[y].id);
            }
        }
    }
    let n = store.subscribers.len();
    let mut i: usize = 0;
    let mut found = false;
    while i < n && !found
        invariant
            0 <= i <= n,
            n == rows0.len(),
            unique_ids(rows0),
            store.tokens@ == old(store).tokens@,
            !found ==> store.subscribers@ == rows0 && forall|j: int|
                0 <= j < i ==> rows0[j].id != id,
            found ==> i <= n && store.subscribers@ == spec_confirm_rows(rows0, id),
        decreases n - i + if found {
            0int
        } else {
            1int
        },
    {
        if store.subscribers[i].id == id {
            proof {
                assert(rows0[i as int].id == id);
            }
            store.subscribers[i].status = SubscriberStatus::Confirmed;
            proof {
                assert(store.subscribers@ == rows0.update(
                    i as int,
                    confirm_row(rows0[i as int]),
                ));
                assert forall|j: int|
                    0 <= j < rows0.len() implies store.subscribers@[j] == spec_confirm_rows(
                    rows0,
                    id,
                )[j] by {
                    if j != i as int && rows0[j].id == id {
                        if j < i as int {
                            assert(rows0[j].id != rows0[i as int].id);
                        } else {
                            assert(rows0[i as int].id != rows0[j].id);
                        }
                    }
                }
                assert(store.subscribers@ =~= spec_confirm_rows(rows0, id));
            }
            found = true;
        } else {
            i = i + 1;
        }
    }
    proof {
        if !found {
            assert forall|j: int|
                0 <= j < rows0.len() implies spec_confirm_rows(rows0, id)[j] == rows0[j] by {
                assert(rows0[j].id != id);
            }
            assert(store.subscribers@ =~= spec_confirm_rows(rows0, id));
        }
        lemma_confirm_rows_wf(rows0, old(store).tokens@, id);
    }
}

// Promotion preserves every id and email, so the store's constraints survive.
proof fn lemma_confirm_rows_wf(rows: Seq<crate::store::SubscriberRow>, toks: Seq<
    crate::store::TokenRow,
>, id: u128)
    requires
        store_contents_wf(rows, toks),
    ensures
        store_contents_wf(spec_confirm_rows(rows, id), toks),
{
    let updated = spec_confirm_rows(rows, id);
    assert(updated.len() == rows.len());
    assert(forall|j: int| 0 <= j < rows.len() ==> updated[j].id == rows[j].id);
    assert(forall|j: int| 0 <= j < rows.len() ==> updated[j].email@ == rows[j].email@);
    assert forall|i: int| 0 <= i < toks.len() implies contains_id(
        updated,
        toks[i].subscriber_id,
    ) by {
        let w = choose|w: int| 0 <= w < rows.len() && rows[w].id == toks[i].subscriber_id;
        assert(updated[w].id == toks[i].subscriber_id);
    }
}

/// Confirms the subscriber behind the given token: an unknown token yields a
/// client error (400) and changes nothing; a known one promotes its subscriber
/// and reports success (200), also when it was already confirmed.
pub fn confirm(store: &mut Store, parameters: &Parameters) -> (status: u16)
    requires
        old(store).wf(),
    ensures
        spec_token_lookup(old(store).tokens@, parameters.subscription_token@) is None ==> status
            == 400 && *final(store) == *old(store),
        spec_token_lookup(old(store).tokens@, parameters.subscription_token@) matches Some(id)
            ==> status == 200 && final(store).subscribers@ == spec_confirm_rows(
            old(store).subscribers@,
            id,
        ) && final(store).tokens@ == old(store).tokens@,
        final(store).wf(),
{
    match get_subscriber_id(store, parameters.subscription_token.as_str()) {
        Some(id) => {
            confirm_subscriber(store, id);
            200
        },
        None => 400,
    }
}

} // verus!
