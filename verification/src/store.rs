//! Transactional persistence of subscriber rows and confirmation tokens.
//!
//! The store keeps every subscriber row and token row, enforces the uniqueness
//! constraints at commit time, and guarantees that a transaction's staged rows
//! become visible together or not at all.

use vstd::prelude::*;

use crate::text::str_eq;

verus! {

/// Lifecycle status of a subscriber: starts pending, moves once to confirmed.
#[derive(Clone, Copy, PartialEq, Eq, Structural, Debug)]
pub enum SubscriberStatus {
    PendingConfirmation,
    Confirmed,
}

/// One stored subscriber. The email is kept as raw text: rows written by other
/// processes may hold a malformed address, and readers re-validate.
#[derive(Debug)]
pub struct SubscriberRow {
    pub id: u128,
    pub email: String,
    pub name: String,
    pub subscribed_at: i64,
    pub status: SubscriberStatus,
}

/// One stored confirmation token, a lookup key for exactly one subscriber.
#[derive(Debug)]
pub struct TokenRow {
    pub token: String,
    pub subscriber_id: u128,
}

/// A constraint violation surfaced by the store.
#[derive(Clone, Copy, PartialEq, Eq, Structural, Debug)]
pub enum StorageError {
    DuplicateId,
    DuplicateEmail,
    DuplicateToken,
    UnknownSubscriber,
}

impl StorageError {
    /// A short description, used as the cause in error reports.
    pub fn describe(&self) -> (r: String)
        ensures
            self is DuplicateId ==> r@ == "duplicate subscriber id"@,
            self is DuplicateEmail ==> r@ == "duplicate subscriber email"@,
            self is DuplicateToken ==> r@ == "duplicate subscription token"@,
            self is UnknownSubscriber ==> r@ == "token references an unknown subscriber"@,
    {
        match self {
            StorageError::DuplicateId => "duplicate subscriber id".to_owned(),
            StorageError::DuplicateEmail => "duplicate subscriber email".to_owned(),
            StorageError::DuplicateToken => "duplicate subscription token".to_owned(),
            StorageError::UnknownSubscriber => "token references an unknown subscriber".to_owned(),
        }
    }
}

/// Some row in `rows` carries this id.
pub open spec fn contains_id(rows: Seq<SubscriberRow>, id: u128) -> bool {
    exists|i: int| 0 <= i < rows.len() && rows[i].id == id
}

/// Some row in `rows` carries this email.
pub open spec fn contains_email(rows: Seq<SubscriberRow>, email: Seq<char>) -> bool {
    exists|i: int| 0 <= i < rows.len() && rows[i].email@ == email
}

/// Some row in `toks` carries this token.
pub open spec fn contains_token(toks: Seq<TokenRow>, token: Seq<char>) -> bool {
    exists|i: int| 0 <= i < toks.len() && toks[i].token@ == token
}

/// No two rows share an id.
pub open spec fn unique_ids(rows: Seq<SubscriberRow>) -> bool {
    forall|i: int, j: int| 0 <= i < j < rows.len() ==> rows[i].id != rows[j].id
}

/// No two rows share an email.
pub open spec fn unique_emails(rows: Seq<SubscriberRow>) -> bool {
    forall|i: int, j: int| 0 <= i < j < rows.len() ==> rows[i].email@ != rows[j].email@
}

/// No two token rows share a token.
pub open spec fn unique_tokens(toks: Seq<TokenRow>) -> bool {
    forall|i: int, j: int| 0 <= i < j < toks.len() ==> toks[i].token@ != toks[j].token@
}

/// Well-formed store contents: unique ids, unique emails, unique tokens, and
/// every token resolving to a stored subscriber.
pub open spec fn store_contents_wf(rows: Seq<SubscriberRow>, toks: Seq<TokenRow>) -> bool {
    &&& unique_ids(rows)
    &&& unique_emails(rows)
    &&& unique_tokens(toks)
    &&& forall|i: int| 0 <= i < toks.len() ==> contains_id(rows, toks[i].subscriber_id)
}

/// The subscriber id that this token resolves to, if any: the first row whose
/// token matches.
pub open spec fn spec_token_lookup(toks: Seq<TokenRow>, token: Seq<char>) -> Option<u128>
    decreases toks.len(),
{
    if toks.len() == 0 {
        None
    } else if toks.first().token@ == token {
        Some(toks.first().subscriber_id)
    } else {
        spec_token_lookup(toks.drop_first(), token)
    }
}

pub(crate) proof fn lemma_token_lookup_skip(toks: Seq<TokenRow>, token: Seq<char>, i: int)
    requires
        0 <= i <= toks.len(),
        forall|j: int| 0 <= j < i ==> toks[j].token@ != token,
    ensures
        spec_token_lookup(toks, token) == spec_token_lookup(toks.skip(i), token),
    decreases i,
{
    if i > 0 {
        lemma_token_lookup_skip(toks, token, i - 1);
        assert(toks.skip(i - 1).len() > 0);
        assert(toks.skip(i - 1).first() == toks[i - 1]);
        assert(toks.skip(i - 1).first().token@ != token);
        assert(spec_token_lookup(toks.skip(i - 1), token) == spec_token_lookup(
            toks.skip(i - 1).drop_first(),
            token,
        ));
        assert(toks.skip(i - 1).drop_first() =~= toks.skip(i));
        assert(spec_token_lookup(toks.skip(i - 1).drop_first(), token) == spec_token_lookup(
            toks.skip(i),
            token,
        ));
    } else {
        assert(toks.skip(0) =~= toks);
    }
}

/// The in-memory database: all subscriber rows and all token rows.
pub struct Store {
    pub subscribers: Vec<SubscriberRow>,
    pub tokens: Vec<TokenRow>,
}

/// Rows staged by an open transaction; they reach the store only on commit.
pub struct Transaction {
    pub staged_subscribers: Vec<SubscriberRow>,
    pub staged_tokens: Vec<TokenRow>,
}

/// A commit of this transaction into this store would keep the contents
/// well-formed.
pub open spec fn commit_compatible(s: Store, tx: Transaction) -> bool {
    store_contents_wf(
        s.subscribers@ + tx.staged_subscribers@,
        s.tokens@ + tx.staged_tokens@,
    )
}

// True of `rows[i].id` somewhere in either part exactly when true in the whole.
pub(crate) proof fn lemma_contains_id_concat(a: Seq<SubscriberRow>, b: Seq<SubscriberRow>, id: u128)
    ensures
        contains_id(a + b, id) == (contains_id(a, id) || contains_id(b, id)),
{
    if contains_id(a, id) {
        let i = choose|i: int| 0 <= i < a.len() && a[i].id == id;
        assert((a + b)[i].id == id);
    }
    if contains_id(b, id) {
        let i = choose|i: int| 0 <= i < b.len() && b[i].id == id;
        assert((a + b)[a.len() + i].id == id);
    }
    if contains_id(a + b, id) {
        let i = choose|i: int| 0 <= i < (a + b).len() && (a + b)[i].id == id;
        if i < a.len() {
            assert(a[i].id == id);
        } else {
            assert(b[i - a.len()].id == id);
        }
    }
}

pub(crate) proof fn lemma_unique_ids_concat(a: Seq<SubscriberRow>, b: Seq<SubscriberRow>)
    requires
        unique_ids(a),
        unique_ids(b),
        forall|m: int| 0 <= m < b.len() ==> !contains_id(a, b[m].id),
    ensures
        unique_ids(a + b),
{
    assert forall|i: int, j: int| 0 <= i < j < (a + b).len() implies (a + b)[i].id != (a
        + b)[j].id by {
        if j < a.len() {
        } else if i < a.len() {
            assert(!contains_id(a, b[j - a.len()].id));
            assert((a + b)[i] == a[i]);
        } else {
            assert((a + b)[i] == b[i - a.len()]);
            assert((a + b)[j] == b[j - a.len()]);
        }
    }
}

pub(crate) proof fn lemma_unique_emails_concat(a: Seq<SubscriberRow>, b: Seq<SubscriberRow>)
    requires
        unique_emails(a),
        unique_emails(b),
        forall|m: int| 0 <= m < b.len() ==> !contains_email(a, b[m].email@),
    ensures
        unique_emails(a + b),
{
    assert forall|i: int, j: int| 0 <= i < j < (a + b).len() implies (a + b)[i].email@ != (a
        + b)[j].email@ by {
        if j < a.len() {
        } else if i < a.len() {
            assert(!contains_email(a, b[j - a.len()].email@));
            assert((a + b)[i] == a[i]);
        } else {
            assert((a + b)[i] == b[i - a.len()]);
            assert((a + b)[j] == b[j - a.len()]);
        }
    }
}

pub(crate) proof fn lemma_unique_tokens_concat(a: Seq<TokenRow>, b: Seq<TokenRow>)
    requires
        unique_tokens(a),
        unique_tokens(b),
        forall|m: int| 0 <= m < b.len() ==> !contains_token(a, b[m].token@),
    ensures
        unique_tokens(a + b),
{
    assert forall|i: int, j: int| 0 <= i < j < (a + b).len() implies (a + b)[i].token@ != (a
        + b)[j].token@ by {
        if j < a.len() {
        } else if i < a.len() {
            assert(!contains_token(a, b[j - a.len()].token@));
            assert((a + b)[i] == a[i]);
        } else {
            assert((a + b)[i] == b[i - a.len()]);
            assert((a + b)[j] == b[j - a.len()]);
        }
    }
}

/// True of `rows@[i].id == id` for some `i < upto`.
pub(crate) fn contains_id_upto(rows: &Vec<SubscriberRow>, upto: usize, id: u128) -> (r: bool)
    requires
        upto <= rows@.len(),
    ensures
        r == exists|i: int| 0 <= i < upto && rows@[i].id == id,
{
    let mut i: usize = 0;
    while i < upto
        invariant
            0 <= i <= upto <= rows@.len(),
            forall|j: int| 0 <= j < i ==> rows@[j].id != id,
        decreases upto - i,
    {
        if rows[i].id == id {
            return true;
        }
        i = i + 1;
    }
    false
}

/// True of `rows@[i].email@ == email@` for some `i < upto`.
pub(crate) fn contains_email_upto(rows: &Vec<SubscriberRow>, upto: usize, email: &str) -> (r: bool)
    requires
        upto <= rows@.len(),
    ensures
        r == exists|i: int| 0 <= i < upto && rows@[i].email@ == email@,
{
    let mut i: usize = 0;
    while i < upto
        invariant
            0 <= i <= upto <= rows@.len(),
            forall|j: int| 0 <= j < i ==> rows@[j].email@ != email@,
        decreases upto - i,
    {
        if str_eq(rows[i].email.as_str(), email) {
            return true;
        }
        i = i + 1;
    }
    false
}

/// True of `toks@[i].token@ == token@` for some `i < upto`.
pub(crate) fn contains_token_upto(toks: &Vec<TokenRow>, upto: usize, token: &str) -> (r: bool)
    requires
        upto <= toks@.len(),
    ensures
        r == exists|i: int| 0 <= i < upto && toks@[i].token@ == token@,
{
    let mut i: usize = 0;
    while i < upto
        invariant
            0 <= i <= upto <= toks@.len(),
            forall|j: int| 0 <= j < i ==> toks@[j].token@ != token@,
        decreases upto - i,
    {
        if str_eq(toks[i].token.as_str(), token) {
            return true;
        }
        i = i + 1;
    }
    false
}

impl Store {
    /// Well-formed store: the contents satisfy the uniqueness and reference
    /// constraints.
    pub open spec fn wf(&self) -> bool {
        store_contents_wf(self.subscribers@, self.tokens@)
    }

    /// An empty store.
    pub fn new() -> (s: Store)
        ensures
            s.subscribers@ == Seq::<SubscriberRow>::empty(),
            s.tokens@ == Seq::<TokenRow>::empty(),
            s.wf(),
    {
        Store { subscribers: Vec::new(), tokens: Vec::new() }
    }

    /// Builds a store from pre-existing rows — for example rows written by an
    /// earlier process — accepting them exactly when they satisfy the store's
    /// constraints. The emails themselves are not validated here: readers
    /// re-validate them row by row.
    pub fn from_rows(subscribers: Vec<SubscriberRow>, tokens: Vec<TokenRow>) -> (r: Result<
        Store,
        StorageError,
    >)
        ensures
            r is Ok <==> store_contents_wf(subscribers@, tokens@),
            r is Ok ==> r->Ok_0.subscribers@ == subscribers@ && r->Ok_0.tokens@ == tokens@
                && r->Ok_0.wf(),
    {
        let mut s = Store::new();
        let ghost subs = subscribers@;
        let ghost toks = tokens@;
        let tx = Transaction { staged_subscribers: subscribers, staged_tokens: tokens };
        proof {
            assert(s.subscribers@ + tx.staged_subscribers@ =~= subs);
            assert(s.tokens@ + tx.staged_tokens@ =~= toks);
        }
        match s.commit(tx) {
            Ok(()) => Ok(s),
            Err(e) => Err(e),
        }
    }

    /// Opens a transaction: nothing is staged yet, and nothing reaches the
    /// store until `commit`.
    pub fn begin_transaction(&self) -> (tx: Transaction)
        ensures
            tx.staged_subscribers@ == Seq::<SubscriberRow>::empty(),
            tx.staged_tokens@ == Seq::<TokenRow>::empty(),
    {
        Transaction { staged_subscribers: Vec::new(), staged_tokens: Vec::new() }
    }

    /// Makes the transaction's staged rows durable, all of them or none: on any
    /// constraint violation the store is left exactly as it was.
    pub fn commit(&mut self, transaction: Transaction) -> (r: Result<(), StorageError>)
        requires
            old(self).wf(),
        ensures
            r is Ok <==> commit_compatible(*old(self), transaction),
            r is Ok ==> final(self).subscribers@ == old(self).subscribers@
                + transaction.staged_subscribers@ && final(self).tokens@ == old(self).tokens@
                + transaction.staged_tokens@ && final(self).wf(),
            r is Err ==> *final(self) == *old(self),
            r == Err::<(), StorageError>(StorageError::DuplicateId) ==> !unique_ids(
                old(self).subscribers@ + transaction.staged_subscribers@,
            ),
            r == Err::<(), StorageError>(StorageError::DuplicateEmail) ==> !unique_emails(
                old(self).subscribers@ + transaction.staged_subscribers@,
            ),
            r == Err::<(), StorageError>(StorageError::DuplicateToken) ==> !unique_tokens(
                old(self).tokens@ + transaction.staged_tokens@,
            ),
            r == Err::<(), StorageError>(StorageError::UnknownSubscriber) ==> exists|i: int|
                0 <= i < transaction.staged_tokens@.len() && !contains_id(
                    old(self).subscribers@ + transaction.staged_subscribers@,
                    transaction.staged_tokens@[i].subscriber_id,
                ),
    {
        let ghost a = self.subscribers@;
        let ghost b = transaction.staged_subscribers@;
        let ghost ta = self.tokens@;
        let ghost tb = transaction.staged_tokens@;

        let staged_len = transaction.staged_subscribers.len();
        let mut k: usize = 0;
        while k < staged_len
            invariant
                staged_len == b.len(),
                0 <= k <= staged_len,
                self.subscribers@ == a,
                self.tokens@ == ta,
                transaction.staged_subscribers@ == b,
                transaction.staged_tokens@ == tb,
                forall|m: int| 0 <= m < k ==> !contains_id(a, b[m].id),
                forall|m: int| 0 <= m < k ==> !contains_email(a, b[m].email@),
                forall|m1: int, m2: int| 0 <= m1 < m2 < k ==> b[m1].id != b[m2].id,
                forall|m1: int, m2: int| 0 <= m1 < m2 < k ==> b[m1].email@ != b[m2].email@,
            decreases staged_len - k,
        {
            let id = transaction.staged_subscribers[k].id;
            if contains_id_upto(&self.subscribers, self.subscribers.len(), id) {
                proof {
                    let i = choose|i: int| 0 <= i < a.len() && a[i].id == id;
                    assert((a + b)[i].id == (a + b)[a.len() + k as int].id);
                    assert(!unique_ids(a + b));
                }
                return Err(StorageError::DuplicateId);
            }
            if contains_id_upto(&transaction.staged_subscribers, k, id) {
                proof {
                    let m = choose|m: int| 0 <= m < k && b[m].id == id;
                    assert((a + b)[a.len() + m].id == (a + b)[a.len() + k as int].id);
                    assert(!unique_ids(a + b));
                }
                return Err(StorageError::DuplicateId);
            }
            let email = transaction.staged_subscribers[k].email.as_str();
            if contains_email_upto(&self.subscribers, self.subscribers.len(), email) {
                proof {
                    let i = choose|i: int| 0 <= i < a.len() && a[i].email@ == email@;
                    assert((a + b)[i].email@ == (a + b)[a.len() + k as int].email@);
                    assert(!unique_emails(a + b));
                }
                return Err(StorageError::DuplicateEmail);
            }
            if contains_email_upto(&transaction.staged_subscribers, k, email) {
                proof {
                    let m = choose|m: int| 0 <= m < k && b[m].email@ == email@;
                    assert((a + b)[a.len() + m].email@ == (a + b)[a.len() + k as int].email@);
                    assert(!unique_emails(a + b));
                }
                return Err(StorageError::DuplicateEmail);
            }
            k = k + 1;
        }

        let staged_tok_len = transaction.staged_tokens.len();
        let mut t: usize = 0;
        while t < staged_tok_len
            invariant
                staged_tok_len == tb.len(),
                0 <= t <= staged_tok_len,
                self.subscribers@ == a,
                self.tokens@ == ta,
                transaction.staged_subscribers@ == b,
                transaction.staged_tokens@ == tb,
                forall|m: int| 0 <= m < t ==> !contains_token(ta, tb[m].token@),
                forall|m1: int, m2: int| 0 <= m1 < m2 < t ==> tb[m1].token@ != tb[m2].token@,
                forall|m: int| 0 <= m < t ==> contains_id(a, tb[m].subscriber_id) || contains_id(
                    b,
                    tb[m].subscriber_id,
                ),
            decreases staged_tok_len - t,
        {
            let token = transaction.staged_tokens[t].token.as_str();
            if contains_token_upto(&self.tokens, self.tokens.len(), token) {
                proof {
                    let i = choose|i: int| 0 <= i < ta.len() && ta[i].token@ == token@;
                    assert((ta + tb)[i].token@ == (ta + tb)[ta.len() + t as int].token@);
                    assert(!unique_tokens(ta + tb));
                }
                return Err(StorageError::DuplicateToken);
            }
            if contains_token_upto(&transaction.staged_tokens, t, token) {
                proof {
                    let m = choose|m: int| 0 <= m < t && tb[m].token@ == token@;
                    assert((ta + tb)[ta.len() + m].token@ == (ta + tb)[ta.len() + t as int].token@);
                    assert(!unique_tokens(ta + tb));
                }
                return Err(StorageError::DuplicateToken);
            }
            let subscriber_id = transaction.staged_tokens[t].subscriber_id;
            let in_store = contains_id_upto(&self.subscribers, self.subscribers.len(), subscriber_id);
            let in_staged = contains_id_upto(
                &transaction.staged_subscribers,
                transaction.staged_subscribers.len(),
                subscriber_id,
            );
            if !in_store && !in_staged {
                proof {
                    lemma_contains_id_concat(a, b, subscriber_id);
                    assert((ta + tb)[ta.len() + t as int] == tb[t as int]);
                    assert(!contains_id(a + b, (ta + tb)[ta.len() + t as int].subscriber_id));
                    assert(!store_contents_wf(a + b, ta + tb));
                }
                return Err(StorageError::UnknownSubscriber);
            }
            t = t + 1;
        }

        proof {
            lemma_unique_ids_concat(a, b);
            lemma_unique_emails_concat(a, b);
            lemma_unique_tokens_concat(ta, tb);
            assert forall|i: int| 0 <= i < (ta + tb).len() implies contains_id(
                a + b,
                (ta + tb)[i].subscriber_id,
            ) by {
                lemma_contains_id_concat(a, b, (ta + tb)[i].subscriber_id);
                if i < ta.len() {
                    assert(contains_id(a, ta[i].subscriber_id));
                } else {
                    assert((ta + tb)[i] == tb[i - ta.len()]);
                }
            }
            assert(commit_compatible(*old(self), transaction));
        }

        let mut transaction = transaction;
        self.subscribers.append(&mut transaction.staged_subscribers);
        self.tokens.append(&mut transaction.staged_tokens);
        Ok(())
    }
}

/// The row promoted to confirmed status; every other field is kept.
pub open spec fn confirm_row(r: SubscriberRow) -> SubscriberRow {
    SubscriberRow {
        id: r.id,
        email: r.email,
        name: r.name,
        subscribed_at: r.subscribed_at,
        status: SubscriberStatus::Confirmed,
    }
}

/// The rows after promoting the subscriber with this id to confirmed status.
pub open spec fn spec_confirm_rows(rows: Seq<SubscriberRow>, id: u128) -> Seq<SubscriberRow> {
    rows.map(
        |i: int, r: SubscriberRow|
            if r.id == id {
                confirm_row(r)
            } else {
                r
            },
    )
}

/// Promotion to confirmed status is idempotent: confirming the same subscriber
/// a second time changes nothing.
pub proof fn lemma_confirm_idempotent(rows: Seq<SubscriberRow>, id: u128)
    ensures
        spec_confirm_rows(spec_confirm_rows(rows, id), id) == spec_confirm_rows(rows, id),
{
    assert(spec_confirm_rows(spec_confirm_rows(rows, id), id) =~= spec_confirm_rows(rows, id));
}

/// Promotion never reverts: a subscriber already confirmed stays confirmed,
/// whichever subscriber a redemption targets.
pub proof fn lemma_confirm_monotone(rows: Seq<SubscriberRow>, id: u128)
    ensures
        forall|i: int|
            0 <= i < rows.len() && rows[i].status is Confirmed ==> (#[trigger] spec_confirm_rows(
                rows,
                id,
            )[i]).status is Confirmed,
{
}

/// A token resolves to at most one subscriber: wherever a token row sits in a
/// store with unique tokens, the lookup returns exactly its subscriber.
pub proof fn lemma_token_resolves_uniquely(toks: Seq<TokenRow>, i: int)
    requires
        unique_tokens(toks),
        0 <= i < toks.len(),
    ensures
        spec_token_lookup(toks, toks[i].token@) == Some(toks[i].subscriber_id),
{
    lemma_token_lookup_skip(toks, toks[i].token@, i);
    assert(toks.skip(i).first() == toks[i]);
}

/// How many rows carry this email.
pub open spec fn count_rows_with_email(rows: Seq<SubscriberRow>, email: Seq<char>) -> nat
    decreases rows.len(),
{
    if rows.len() == 0 {
        0
    } else {
        count_rows_with_email(rows.drop_last(), email) + if rows.last().email@ == email {
            1nat
        } else {
            0nat
        }
    }
}

/// How many token rows reference this subscriber.
pub open spec fn count_tokens_for(toks: Seq<TokenRow>, id: u128) -> nat
    decreases toks.len(),
{
    if toks.len() == 0 {
        0
    } else {
        count_tokens_for(toks.drop_last(), id) + if toks.last().subscriber_id == id {
            1nat
        } else {
            0nat
        }
    }
}

proof fn lemma_count_rows_zero(rows: Seq<SubscriberRow>, email: Seq<char>)
    requires
        !contains_email(rows, email),
    ensures
        count_rows_with_email(rows, email) == 0,
    decreases rows.len(),
{
    if rows.len() > 0 {
        assert(rows.last().email@ != email);
        assert(forall|i: int|
            0 <= i < rows.drop_last().len() ==> rows.drop_last()[i] == rows[i]);
        lemma_count_rows_zero(rows.drop_last(), email);
    }
}

proof fn lemma_count_tokens_zero(toks: Seq<TokenRow>, id: u128)
    requires
        forall|i: int| 0 <= i < toks.len() ==> toks[i].subscriber_id != id,
    ensures
        count_tokens_for(toks, id) == 0,
    decreases toks.len(),
{
    if toks.len() > 0 {
        lemma_count_tokens_zero(toks.drop_last(), id);
    }
}

/// After one successful subscription commits into a well-formed store — the
/// staged transaction holding exactly the new pending row and its token, and
/// the commit accepted — the store holds exactly one row with the subscriber's
/// email, that row is the staged one, and exactly one token row references its
/// id.
pub proof fn lemma_subscription_recorded(before: Store, after: Store, tx: Transaction)
    requires
        before.wf(),
        tx.staged_subscribers@.len() == 1,
        tx.staged_tokens@.len() == 1,
        tx.staged_tokens@[0].subscriber_id == tx.staged_subscribers@[0].id,
        commit_compatible(before, tx),
        after.subscribers@ == before.subscribers@ + tx.staged_subscribers@,
        after.tokens@ == before.tokens@ + tx.staged_tokens@,
    ensures
        count_rows_with_email(after.subscribers@, tx.staged_subscribers@[0].email@) == 1,
        count_tokens_for(after.tokens@, tx.staged_subscribers@[0].id) == 1,
        forall|i: int|
            0 <= i < after.subscribers@.len() && after.subscribers@[i].email@
                == tx.staged_subscribers@[0].email@ ==> after.subscribers@[i]
                == tx.staged_subscribers@[0],
{
    let row = tx.staged_subscribers@[0];
    let tok = tx.staged_tokens@[0];
    let a = before.subscribers@;
    let b = tx.staged_subscribers@;
    // The commit's uniqueness constraints make the new row's email and id fresh.
    assert(!contains_email(a, row.email@)) by {
        if contains_email(a, row.email@) {
            let i = choose|i: int| 0 <= i < a.len() && a[i].email@ == row.email@;
            assert((a + b)[i].email@ == (a + b)[a.len() as int].email@);
        }
    }
    assert(!contains_id(a, row.id)) by {
        if contains_id(a, row.id) {
            let i = choose|i: int| 0 <= i < a.len() && a[i].id == row.id;
            assert((a + b)[i].id == (a + b)[a.len() as int].id);
        }
    }
    assert(after.subscribers@ =~= a.push(row));
    assert(after.subscribers@.drop_last() =~= a);
    assert(after.subscribers@.last() == row);
    lemma_count_rows_zero(a, row.email@);

    assert(after.tokens@ =~= before.tokens@.push(tok));
    assert(after.tokens@.drop_last() =~= before.tokens@);
    assert(after.tokens@.last() == tok);
    assert forall|i: int|
        0 <= i < before.tokens@.len() implies before.tokens@[i].subscriber_id != row.id by {
        if before.tokens@[i].subscriber_id == row.id {
            assert(contains_id(a, row.id));
        }
    }
    lemma_count_tokens_zero(before.tokens@, row.id);

    assert forall|i: int|
        0 <= i < after.subscribers@.len() && after.subscribers@[i].email@
            == row.email@ implies after.subscribers@[i] == row by {
        if i < a.len() {
            assert(contains_email(a, row.email@));
        }
    }
}

/// Relies on uuid::Uuid::new_v4 and Uuid::as_u128: a randomly drawn identifier;
/// nothing is promised of the drawn value — the store enforces uniqueness.
#[verifier::external_body]
pub(crate) fn fresh_subscriber_id() -> u128 {
    uuid::Uuid::new_v4().as_u128()
}

/// Relies on chrono::Utc::now and DateTime::timestamp_millis: the wall clock at
/// the moment of the call; nothing is promised of the reading.
#[verifier::external_body]
pub(crate) fn now_timestamp() -> i64 {
    chrono::Utc::now().timestamp_millis()
}

} // verus!
