//! The subscription workflow: validation, transactional insertion of the
//! subscriber and its confirmation token, and the confirmation email.

use rand::Rng;
use vstd::prelude::*;

use crate::configuration::ApplicationBaseUrl;
use crate::domain::{
    blank_string, char_is_forbidden_in_name, char_is_whitespace, email_error_message,
    grapheme_count, valid_email, valid_name, NewSubscriber, SubscriberEmail, SubscriberName,
};
use crate::email::EmailRequest;
use crate::errors::ErrorChain;
use crate::store::{
    commit_compatible, contains_email, contains_id, contains_email_upto, contains_id_upto,
    contains_token, contains_token_upto, fresh_subscriber_id, lemma_contains_id_concat,
    lemma_unique_emails_concat, lemma_unique_ids_concat, lemma_unique_tokens_concat,
    now_timestamp, store_contents_wf, StorageError, Store, SubscriberRow, SubscriberStatus,
    TokenRow, Transaction,
};

verus! {

/// Decides `valid_name`: rejects a name that is blank, longer than 256
/// grapheme clusters, or holding a forbidden character.
pub fn is_valid_name(s: &str) -> (r: bool)
    ensures
        r == valid_name(s@),
{
    let len: usize = s.unicode_len();
    let mut all_whitespace = true;
    let mut any_forbidden = false;
    let mut i: usize = 0;
    while i < len
        invariant
            0 <= i <= len,
            len == s@.len(),
            all_whitespace == blank_string(s@.take(i as int)),
            any_forbidden == exists|j: int|
                0 <= j < i && crate::domain::forbidden_name_char(s@[j]),
        decreases len - i,
    {
        let c = s.get_char(i);
        if !char_is_whitespace(c) {
            all_whitespace = false;
        }
        if char_is_forbidden_in_name(c) {
            any_forbidden = true;
        }
        proof {
            assert(s@.take(i + 1).len() == i + 1);
            assert(forall|j: int|
                0 <= j < i + 1 ==> s@.take(i + 1)[j] == s@[j]);
        }
        i = i + 1;
    }
    proof {
        assert(s@.take(len as int) =~= s@);
    }
    let too_long = grapheme_count(s) > 256;
    !(all_whitespace || too_long || any_forbidden)
}

/// The raw fields of a subscription request.
pub struct FormData {
    pub email: String,
    pub name: String,
}

/// Why a subscription request failed: a user-correctable validation error
/// (400) or an unexpected one (500).
#[derive(Debug)]
pub enum SubscribeError {
    UnexpectedError(ErrorChain),
    ValidationError(String),
}

impl SubscribeError {
    /// The HTTP status this error maps to.
    pub fn status_code(&self) -> (r: u16)
        ensures
            self is ValidationError ==> r == 400,
            self is UnexpectedError ==> r == 500,
    {
        match self {
            SubscribeError::ValidationError(_) => 400,
            SubscribeError::UnexpectedError(_) => 500,
        }
    }
}

/// Validates both fields of the form; the name is checked first, and the
/// reported message names the defect.
pub fn parse_subscriber(form: FormData) -> (r: Result<NewSubscriber, String>)
    ensures
        r is Ok <==> valid_name(form.name@) && valid_email(form.email@),
        r is Ok ==> r->Ok_0.name@ == form.name@ && r->Ok_0.email@ == form.email@,
        !valid_name(form.name@) ==> r is Err && r->Err_0@ == "Invalid subscriber name"@,
        valid_name(form.name@) && !valid_email(form.email@) ==> r is Err && r->Err_0@
            == email_error_message(form.email@),
{
    let name = match SubscriberName::parse(form.name) {
        Ok(name) => name,
        Err(e) => { return Err(e) },
    };
    let email = match SubscriberEmail::parse(form.email) {
        Ok(email) => email,
        Err(e) => { return Err(e) },
    };
    Ok(NewSubscriber { email, name })
}

/// The ASCII letters and digits, the alphabet of subscription tokens.
pub open spec fn is_ascii_alphanumeric_char(c: char) -> bool {
    ||| ('a' as u32) <= c as u32 && c as u32 <= ('z' as u32)
    ||| ('A' as u32) <= c as u32 && c as u32 <= ('Z' as u32)
    ||| ('0' as u32) <= c as u32 && c as u32 <= ('9' as u32)
}

/// Relies on rand::thread_rng and Rng::sample with the Alphanumeric
/// distribution, which draws one of the sixty-two ASCII alphanumeric bytes;
/// which one is drawn is not promised.
#[verifier::external_body]
fn random_alphanumeric_char() -> (c: char)
    ensures
        is_ascii_alphanumeric_char(c),
{
    char::from(rand::thread_rng().sample(rand::distributions::Alphanumeric))
}

/// Relies on String::push: appends exactly the one character.
#[verifier::external_body]
fn push_char(s: &mut String, c: char)
    ensures
        final(s)@ == old(s)@.push(c),
{
    s.push(c);
}

/// Draws a fresh confirmation token: 25 random alphanumeric characters.
/// Uniqueness is not guaranteed here; the store enforces it at persistence
/// time.
pub fn generate_subscription_token() -> (token: String)
    ensures
        token@.len() == 25,
        forall|i: int| 0 <= i < token@.len() ==> is_ascii_alphanumeric_char(token@[i]),
{
    let mut token = String::new();
    let mut i: usize = 0;
    while i < 25
        invariant
            0 <= i <= 25,
            token@.len() == i,
            forall|j: int| 0 <= j < i ==> is_ascii_alphanumeric_char(token@[j]),
        decreases 25 - i,
    {
        let c = random_alphanumeric_char();
        push_char(&mut token, c);
        i = i + 1;
    }
    token
}

/// Stages the new subscriber as a pending row in the transaction. The id is
/// drawn at random, so unconditional success is not owed: a duplicate email is
/// always rejected, and an id collision — possible only where rows already
/// exist to collide with — is reported as such.
pub fn insert_subscriber(
    store: &Store,
    transaction: &mut Transaction,
    new_subscriber: &NewSubscriber,
) -> (r: Result<u128, StorageError>)
    ensures
        final(transaction).staged_tokens@ == old(transaction).staged_tokens@,
        (contains_email(store.subscribers@, new_subscriber.email@) || contains_email(
            old(transaction).staged_subscribers@,
            new_subscriber.email@,
        )) <==> r == Err::<u128, StorageError>(StorageError::DuplicateEmail),
        r is Err ==> *final(transaction) == *old(transaction) && (r->Err_0 is DuplicateEmail
            || r->Err_0 is DuplicateId),
        r == Err::<u128, StorageError>(StorageError::DuplicateId) ==> store.subscribers@.len()
            + old(transaction).staged_subscribers@.len() > 0,
        r is Ok ==> {
            let st = final(transaction).staged_subscribers@;
            &&& st.len() == old(transaction).staged_subscribers@.len() + 1
            &&& st.drop_last() == old(transaction).staged_subscribers@
            &&& st.last().id == r->Ok_0
            &&& st.last().email@ == new_subscriber.email@
            &&& st.last().name@ == new_subscriber.name@
            &&& st.last().status is PendingConfirmation
            &&& !contains_id(store.subscribers@, r->Ok_0)
            &&& !contains_id(old(transaction).staged_subscribers@, r->Ok_0)
            &&& !contains_email(store.subscribers@, new_subscriber.email@)
            &&& !contains_email(old(transaction).staged_subscribers@, new_subscriber.email@)
        },
{
    let email_str = new_subscriber.email.as_str();
    if contains_email_upto(&store.subscribers, store.subscribers.len(), email_str) {
        return Err(StorageError::DuplicateEmail);
    }
    if contains_email_upto(
        &transaction.staged_subscribers,
        transaction.staged_subscribers.len(),
        email_str,
    ) {
        return Err(StorageError::DuplicateEmail);
    }
    let id = fresh_subscriber_id();
    if contains_id_upto(&store.subscribers, store.subscribers.len(), id) {
        return Err(StorageError::DuplicateId);
    }
    if contains_id_upto(
        &transaction.staged_subscribers,
        transaction.staged_subscribers.len(),
        id,
    ) {
        return Err(StorageError::DuplicateId);
    }
    let row = SubscriberRow {
        id,
        email: email_str.to_owned(),
        name: new_subscriber.name.as_str().to_owned(),
        subscribed_at: now_timestamp(),
        status: SubscriberStatus::PendingConfirmation,
    };
    transaction.staged_subscribers.push(row);
    proof {
        assert(final(transaction).staged_subscribers@.drop_last() =~= old(
            transaction,
        ).staged_subscribers@);
    }
    Ok(id)
}

/// Stages the token row binding this token to the new subscriber; a token
/// already present in the store or in the transaction is rejected.
pub fn store_token(
    store: &Store,
    transaction: &mut Transaction,
    subscriber_id: u128,
    subscription_token: &str,
) -> (r: Result<(), StorageError>)
    ensures
        final(transaction).staged_subscribers@ == old(transaction).staged_subscribers@,
        (contains_token(store.tokens@, subscription_token@) || contains_token(
            old(transaction).staged_tokens@,
            subscription_token@,
        )) <==> r is Err,
        r is Err ==> *final(transaction) == *old(transaction) && r->Err_0 is DuplicateToken,
        r is Ok ==> {
            let tt = final(transaction).staged_tokens@;
            &&& tt.len() == old(transaction).staged_tokens@.len() + 1
            &&& tt.drop_last() == old(transaction).staged_tokens@
            &&& tt.last().token@ == subscription_token@
            &&& tt.last().subscriber_id == subscriber_id
        },
{
    if contains_token_upto(&store.tokens, store.tokens.len(), subscription_token) {
        return Err(StorageError::DuplicateToken);
    }
    if contains_token_upto(
        &transaction.staged_tokens,
        transaction.staged_tokens.len(),
        subscription_token,
    ) {
        return Err(StorageError::DuplicateToken);
    }
    let row = TokenRow { token: subscription_token.to_owned(), subscriber_id };
    transaction.staged_tokens.push(row);
    proof {
        assert(final(transaction).staged_tokens@.drop_last() =~= old(transaction).staged_tokens@);
    }
    Ok(())
}

/// The link a subscriber visits to confirm, embedding the token.
pub open spec fn confirmation_link(base_url: Seq<char>, token: Seq<char>) -> Seq<char> {
    base_url + "/subscriptions/confirm?subscription_token="@ + token
}

/// The HTML body of the confirmation email.
pub open spec fn confirmation_html(link: Seq<char>) -> Seq<char> {
    "welcome to our newsletter! <br /> Click <a href=\""@ + link
        + "\">here</a> to confirm your subscription."@
}

/// The plain-text body of the confirmation email.
pub open spec fn confirmation_text(link: Seq<char>) -> Seq<char> {
    "welcome to our newsletter! \n Visit "@ + link + " to confirm your subscription."@
}

/// Builds the confirmation email for this subscriber: the subject is
/// `Welcome` and both bodies carry the confirmation link.
pub fn confirmation_email(
    base_url: &ApplicationBaseUrl,
    recipient: &SubscriberEmail,
    subscription_token: &str,
) -> (r: EmailRequest)
    ensures
        r.to@ == recipient@,
        r.subject@ == "Welcome"@,
        r.html_content@ == confirmation_html(confirmation_link(base_url.0@, subscription_token@)),
        r.text_content@ == confirmation_text(confirmation_link(base_url.0@, subscription_token@)),
{
    let mut link = base_url.0.clone();
    link.append("/subscriptions/confirm?subscription_token=");
    link.append(subscription_token);

    let mut html = "welcome to our newsletter! <br /> Click <a href=\"".to_owned();
    html.append(link.as_str());
    html.append("\">here</a> to confirm your subscription.");

    let mut text = "welcome to our newsletter! \n Visit ".to_owned();
    text.append(link.as_str());
    text.append(" to confirm your subscription.");

    EmailRequest {
        to: recipient.as_str().to_owned(),
        subject: "Welcome".to_owned(),
        html_content: html,
        text_content: text,
    }
}

/// A subscription that validated and staged its rows; the staged transaction
/// commits only after the confirmation email is reported sent.
pub struct PendingSubscription {
    pub transaction: Transaction,
    pub subscriber_id: u128,
    pub token: String,
    pub email: EmailRequest,
}

/// Starts a subscription: validates the form, stages the pending subscriber
/// and its token in a fresh transaction, and builds the confirmation email.
/// The store itself is not touched: a validation failure has no side effects,
/// and the staged rows become durable only through `complete_subscription`.
pub fn subscribe(store: &Store, form: FormData, base_url: &ApplicationBaseUrl) -> (r: Result<
    PendingSubscription,
    SubscribeError,
>)
    requires
        store.wf(),
    ensures
        (!valid_name(form.name@) || !valid_email(form.email@)) <==> (r is Err
            && r->Err_0 is ValidationError),
        valid_name(form.name@) && valid_email(form.email@) && contains_email(
            store.subscribers@,
            form.email@,
        ) ==> r is Err && r->Err_0 is UnexpectedError
            && r->Err_0->UnexpectedError_0.message@
            == "Failed to insert new subscriber in the database"@
            && r->Err_0->UnexpectedError_0.cause is Some
            && (*r->Err_0->UnexpectedError_0.cause->0).message@ == "duplicate subscriber email"@,
        r is Err && r->Err_0 is UnexpectedError ==> r->Err_0->UnexpectedError_0.cause is Some && (
        r->Err_0->UnexpectedError_0.message@ == "Failed to insert new subscriber in the database"@
            || r->Err_0->UnexpectedError_0.message@
            == "Failed to store subscription token in the database"@),
        // The random draws can only collide with rows that already exist, so a
        // store with no rows and no tokens owes success on every valid form.
        r is Err && r->Err_0 is UnexpectedError ==> store.subscribers@.len() > 0
            || store.tokens@.len() > 0,
        valid_name(form.name@) && valid_email(form.email@) && store.subscribers@.len() == 0
            && store.tokens@.len() == 0 ==> r is Ok,
        r is Ok ==> {
            let p = r->Ok_0;
            &&& p.transaction.staged_subscribers@.len() == 1
            &&& p.transaction.staged_subscribers@[0].id == p.subscriber_id
            &&& p.transaction.staged_subscribers@[0].email@ == form.email@
            &&& p.transaction.staged_subscribers@[0].name@ == form.name@
            &&& p.transaction.staged_subscribers@[0].status is PendingConfirmation
            &&& p.transaction.staged_tokens@.len() == 1
            &&& p.transaction.staged_tokens@[0].token@ == p.token@
            &&& p.transaction.staged_tokens@[0].subscriber_id == p.subscriber_id
            &&& p.token@.len() == 25
            &&& (forall|i: int| 0 <= i < p.token@.len() ==> is_ascii_alphanumeric_char(p.token@[i]))
            &&& !contains_email(store.subscribers@, form.email@)
            &&& commit_compatible(*store, p.transaction)
            &&& p.email.to@ == form.email@
            &&& p.email.subject@ == "Welcome"@
            &&& p.email.html_content@ == confirmation_html(
                confirmation_link(base_url.0@, p.token@),
            )
            &&& p.email.text_content@ == confirmation_text(
                confirmation_link(base_url.0@, p.token@),
            )
        },
{
    let ghost name_view = form.name@;
    let ghost email_view = form.email@;
    let new_subscriber = match parse_subscriber(form) {
        Ok(n) => n,
        Err(e) => { return Err(SubscribeError::ValidationError(e)) },
    };
    let mut transaction = store.begin_transaction();
    let subscriber_id = match insert_subscriber(store, &mut transaction, &new_subscriber) {
        Ok(id) => id,
        Err(e) => {
            return Err(
                SubscribeError::UnexpectedError(
                    ErrorChain::with_cause(
                        "Failed to insert new subscriber in the database".to_owned(),
                        ErrorChain::new(e.describe()),
                    ),
                ),
            );
        },
    };
    let subscription_token = generate_subscription_token();
    match store_token(store, &mut transaction, subscriber_id, subscription_token.as_str()) {
        Ok(()) => {},
        Err(e) => {
            return Err(
                SubscribeError::UnexpectedError(
                    ErrorChain::with_cause(
                        "Failed to store subscription token in the database".to_owned(),
                        ErrorChain::new(e.describe()),
                    ),
                ),
            );
        },
    }
    let email = confirmation_email(base_url, &new_subscriber.email, subscription_token.as_str());
    proof {
        let a = store.subscribers@;
        let b = transaction.staged_subscribers@;
        let ta = store.tokens@;
        let tb = transaction.staged_tokens@;
        assert(b.len() == 1 && b[0] == b.last());
        assert(tb.len() == 1 && tb[0] == tb.last());
        lemma_unique_ids_concat(a, b);
        lemma_unique_emails_concat(a, b);
        lemma_unique_tokens_concat(ta, tb);
        assert forall|i: int| 0 <= i < (ta + tb).len() implies crate::store::contains_id(
            a + b,
            (ta + tb)[i].subscriber_id,
        ) by {
            lemma_contains_id_concat(a, b, (ta + tb)[i].subscriber_id);
            if i < ta.len() {
                assert(contains_id(a, ta[i].subscriber_id));
            } else {
                assert((ta + tb)[i] == tb[i - ta.len()]);
                assert(b[0].id == tb[0].subscriber_id);
            }
        }
        assert(store_contents_wf(a + b, ta + tb));
    }
    Ok(
        PendingSubscription {
            transaction,
            subscriber_id,
            token: subscription_token,
            email,
        },
    )
}

/// Finishes a subscription once the confirmation email outcome is known.
/// A failed send aborts the whole operation: the staged rows are discarded
/// and the store is untouched. A successful send commits them atomically.
pub fn complete_subscription(
    store: &mut Store,
    pending: PendingSubscription,
    email_sent: bool,
) -> (r: Result<u128, SubscribeError>)
    requires
        old(store).wf(),
    ensures
        !email_sent ==> r is Err && r->Err_0 is UnexpectedError && *final(store) == *old(store)
            && r->Err_0->UnexpectedError_0.message@ == "Failed to send confirmation email"@
            && r->Err_0->UnexpectedError_0.cause is None,
        email_sent && commit_compatible(*old(store), pending.transaction) ==> r is Ok && r->Ok_0
            == pending.subscriber_id && final(store).subscribers@ == old(store).subscribers@
            + pending.transaction.staged_subscribers@ && final(store).tokens@ == old(store).tokens@
            + pending.transaction.staged_tokens@,
        email_sent && !commit_compatible(*old(store), pending.transaction) ==> r is Err
            && r->Err_0 is UnexpectedError && *final(store) == *old(store),
        final(store).wf(),
{
    if !email_sent {
        return Err(
            SubscribeError::UnexpectedError(
                ErrorChain::new("Failed to send confirmation email".to_owned()),
            ),
        );
    }
    match store.commit(pending.transaction) {
        Ok(()) => Ok(pending.subscriber_id),
        Err(e) => Err(
            SubscribeError::UnexpectedError(
                ErrorChain::with_cause(
                    "Failed to commit SQL transaction".to_owned(),
                    ErrorChain::new(e.describe()),
                ),
            ),
        ),
    }
}

} // verus!
