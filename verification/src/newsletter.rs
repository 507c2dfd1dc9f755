//! The newsletter fan-out engine: authenticated publishing to every confirmed
//! subscriber, skipping corrupt rows and failing fast on a send failure.

use vstd::prelude::*;

use crate::domain::{email_error_message, valid_email, SubscriberEmail};
use crate::email::EmailRequest;
use crate::errors::ErrorChain;
use crate::store::{Store, SubscriberRow};
use vstd::utf8::{decode_utf8, valid_utf8};

verus! {

/// The JSON body of a publish request: a title and the content in both forms.
pub struct BodyData {
    pub title: String,
    pub content: Content,
}

/// Newsletter content: plain text and HTML.
pub struct Content {
    pub plain: String,
    pub html: String,
}

/// Why a publish request failed: malformed or missing credentials (401, with
/// a challenge) or an unexpected error (500).
#[derive(Debug)]
pub enum PublishError {
    UnexpectedError(ErrorChain),
    AuthError(ErrorChain),
}

impl PublishError {
    /// The HTTP status this error maps to.
    pub fn status_code(&self) -> (r: u16)
        ensures
            self is AuthError ==> r == 401,
            self is UnexpectedError ==> r == 500,
    {
        match self {
            PublishError::AuthError(_) => 401,
            PublishError::UnexpectedError(_) => 500,
        }
    }
}

/// The WWW-Authenticate value sent beside a 401.
pub fn basic_auth_challenge() -> (r: String)
    ensures
        r@ == "Basic realm=\"publish\""@,
{
    "Basic realm=\"publish\"".to_owned()
}

/// A subscriber that a newsletter may be delivered to.
#[derive(Debug)]
pub struct ConfirmedSubscriber {
    pub email: SubscriberEmail,
}

/// Well-formed Basic credentials, as decoded from the Authorization header.
#[derive(Debug)]
pub struct Credentials {
    pub username: String,
    pub password: String,
}

/// The confirmed rows of the store, in storage order.
pub open spec fn spec_confirmed(rows: Seq<SubscriberRow>) -> Seq<SubscriberRow>
    decreases rows.len(),
{
    if rows.len() == 0 {
        Seq::<SubscriberRow>::empty()
    } else {
        spec_confirmed(rows.drop_last()) + if rows.last().status is Confirmed {
            seq![rows.last()]
        } else {
            Seq::<SubscriberRow>::empty()
        }
    }
}

/// The confirmed rows whose stored email is still valid: the recipients of a
/// fan-out.
pub open spec fn spec_deliverable(rows: Seq<SubscriberRow>) -> Seq<SubscriberRow>
    decreases rows.len(),
{
    if rows.len() == 0 {
        Seq::<SubscriberRow>::empty()
    } else {
        spec_deliverable(rows.drop_last()) + if rows.last().status is Confirmed && valid_email(
            rows.last().email@,
        ) {
            seq![rows.last()]
        } else {
            Seq::<SubscriberRow>::empty()
        }
    }
}

proof fn lemma_confirmed_take_step(rows: Seq<SubscriberRow>, i: int)
    requires
        0 <= i < rows.len(),
    ensures
        spec_confirmed(rows.take(i + 1)) == spec_confirmed(rows.take(i)) + if rows[i].status
            is Confirmed {
            seq![rows[i]]
        } else {
            Seq::<SubscriberRow>::empty()
        },
{
    assert(rows.take(i + 1).drop_last() =~= rows.take(i));
    assert(rows.take(i + 1).last() == rows[i]);
}

proof fn lemma_deliverable_take_step(rows: Seq<SubscriberRow>, i: int)
    requires
        0 <= i < rows.len(),
    ensures
        spec_deliverable(rows.take(i + 1)) == spec_deliverable(rows.take(i)) + if rows[i].status
            is Confirmed && valid_email(rows[i].email@) {
            seq![rows[i]]
        } else {
            Seq::<SubscriberRow>::empty()
        },
{
    assert(rows.take(i + 1).drop_last() =~= rows.take(i));
    assert(rows.take(i + 1).last() == rows[i]);
}

/// Newsletter dispatch only ever targets confirmed subscribers whose stored
/// email is valid: a corrupt row is skipped, never delivered to.
pub proof fn lemma_deliverable_are_confirmed(rows: Seq<SubscriberRow>)
    ensures
        forall|i: int|
            0 <= i < spec_deliverable(rows).len() ==> (#[trigger] spec_deliverable(rows)[i]).status
                is Confirmed && valid_email(spec_deliverable(rows)[i].email@),
    decreases rows.len(),
{
    if rows.len() > 0 {
        lemma_deliverable_are_confirmed(rows.drop_last());
    }
}

/// A fan-out over a store with no confirmed subscriber plans no email at all.
pub proof fn lemma_empty_fanout(rows: Seq<SubscriberRow>)
    requires
        forall|i: int| 0 <= i < rows.len() ==> !((#[trigger] rows[i]).status is Confirmed),
    ensures
        spec_deliverable(rows).len() == 0,
    decreases rows.len(),
{
    if rows.len() > 0 {
        assert(!(rows.last().status is Confirmed));
        lemma_empty_fanout(rows.drop_last());
    }
}

/// Reads every confirmed subscriber, re-validating each stored email: a
/// corrupt row yields a per-row error instead of aborting the whole listing.
pub fn get_confirmed_subscribers(store: &Store) -> (r: Vec<Result<ConfirmedSubscriber, String>>)
    ensures
        r@.len() == spec_confirmed(store.subscribers@).len(),
        forall|i: int|
            0 <= i < r@.len() ==> {
                let row = spec_confirmed(store.subscribers@)[i];
                &&& ((#[trigger] r@[i]) is Ok <==> valid_email(row.email@))
                &&& (r@[i] is Ok ==> r@[i]->Ok_0.email@ == row.email@)
                &&& (r@[i] is Err ==> r@[i]->Err_0@ == email_error_message(row.email@))
            },
{
    let ghost rows = store.subscribers@;
    let n = store.subscribers.len();
    let mut out: Vec<Result<ConfirmedSubscriber, String>> = Vec::new();
    let mut i: usize = 0;
    while i < n
        invariant
            0 <= i <= n,
            n == rows.len(),
            store.subscribers@ == rows,
            out@.len() == spec_confirmed(rows.take(i as int)).len(),
            forall|k: int|
                0 <= k < out@.len() ==> {
                    let row = spec_confirmed(rows.take(i as int))[k];
                    &&& ((#[trigger] out@[k]) is Ok <==> valid_email(row.email@))
                    &&& (out@[k] is Ok ==> out@[k]->Ok_0.email@ == row.email@)
                    &&& (out@[k] is Err ==> out@[k]->Err_0@ == email_error_message(row.email@))
                },
        decreases n - i,
    {
        proof {
            lemma_confirmed_take_step(rows, i as int);
        }
        let confirmed = store.subscribers[i].status == crate::store::SubscriberStatus::Confirmed;
        if confirmed {
            match SubscriberEmail::parse(store.subscribers[i].email.clone()) {
                Ok(email) => out.push(Ok(ConfirmedSubscriber { email })),
                Err(e) => out.push(Err(e)),
            }
        }
        i = i + 1;
    }
    proof {
        assert(rows.take(n as int) =~= rows);
    }
    out
}

/// One fan-out run: the planned emails, sent one at a time in order.
pub struct NewsletterRun {
    pub emails: Vec<EmailRequest>,
    pub sent: usize,
}

impl NewsletterRun {
    /// The run never counts more sends than it planned.
    pub open spec fn wf(&self) -> bool {
        self.sent <= self.emails@.len()
    }

    /// The next email to send, or nothing once the run is complete.
    pub fn next_email(&self) -> (r: Option<&EmailRequest>)
        ensures
            self.sent < self.emails@.len() ==> r is Some && *r->0 == self.emails@[self.sent as int],
            self.sent >= self.emails@.len() ==> r is None,
    {
        if self.sent < self.emails.len() {
            Some(&self.emails[self.sent])
        } else {
            None
        }
    }

    /// Records that the current email was delivered.
    pub fn record_success(&mut self)
        requires
            old(self).sent < old(self).emails@.len(),
        ensures
            final(self).emails == old(self).emails,
            final(self).sent == old(self).sent + 1,
            final(self).wf(),
    {
        let n = self.emails.len();
        assert(self.sent < n);
        self.sent = self.sent + 1;
    }

    /// The error that aborts the run when sending the current email failed:
    /// fail-fast, with the failing recipient named.
    pub fn send_failure(&self) -> (r: PublishError)
        requires
            self.sent < self.emails@.len(),
        ensures
            r is UnexpectedError,
            r->UnexpectedError_0.message@ == "Failed to send email to "@
                + self.emails@[self.sent as int].to@,
            r->UnexpectedError_0.cause is None,
    {
        let mut msg = "Failed to send email to ".to_owned();
        msg.append(self.emails[self.sent].to.as_str());
        PublishError::UnexpectedError(ErrorChain::new(msg))
    }

    /// True once every planned email has been sent.
    pub fn is_complete(&self) -> (r: bool)
        ensures
            r == (self.sent >= self.emails@.len()),
    {
        self.sent >= self.emails.len()
    }
}

/// The view of an optional header value.
pub open spec fn spec_header_view(h: Option<&str>) -> Option<Seq<char>> {
    match h {
        None => None,
        Some(s) => Some(s@),
    }
}

/// Some character of `s` is a colon.
pub open spec fn has_colon(s: Seq<char>) -> bool {
    exists|i: int| 0 <= i < s.len() && s[i] == ':'
}

/// What base64 decoding with the standard alphabet yields for these
/// characters, if they decode at all.
pub uninterp spec fn base64_standard_decoding(s: Seq<char>) -> Option<Seq<u8>>;

/// Relies on base64::decode_config with the STANDARD configuration: the
/// outcome depends on the characters alone.
#[verifier::external_body]
fn decode_base64_standard(s: &str) -> (r: Option<Vec<u8>>)
    ensures
        r is Some <==> base64_standard_decoding(s@) is Some,
        r is Some ==> r->0@ == base64_standard_decoding(s@)->0,
{
    base64::decode_config(s, base64::STANDARD).ok()
}

/// Relies on String::from_utf8: it succeeds exactly on valid UTF-8 and
/// returns the string those bytes encode.
#[verifier::external_body]
fn string_from_utf8(bytes: Vec<u8>) -> (r: Option<String>)
    ensures
        r is Some <==> valid_utf8(bytes@),
        r is Some ==> r->0@ == decode_utf8(bytes@),
{
    String::from_utf8(bytes).ok()
}

/// A well-formed Authorization header: present, `Basic ` scheme, base64 of a
/// valid UTF-8 `username:password` pair.
pub open spec fn spec_basic_auth_ok(header: Option<Seq<char>>) -> bool {
    match header {
        None => false,
        Some(h) => {
            &&& h.len() >= 6
            &&& h.subrange(0, 6) == "Basic "@
            &&& match base64_standard_decoding(h.skip(6)) {
                None => false,
                Some(bytes) => valid_utf8(bytes) && has_colon(decode_utf8(bytes)),
            }
        },
    }
}

// True exactly of a header value that starts with the `Basic ` scheme.
fn has_basic_prefix(header: &str) -> (r: bool)
    ensures
        r == (header@.len() >= 6 && header@.subrange(0, 6) == "Basic "@),
{
    let hlen: usize = header.unicode_len();
    proof {
        reveal_strlit("Basic ");
    }
    if hlen < 6 {
        return false;
    }
    let scheme = "Basic ";
    let mut i: usize = 0;
    while i < 6
        invariant
            0 <= i <= 6,
            hlen == header@.len(),
            hlen >= 6,
            scheme@ == "Basic "@,
            scheme@.len() == 6,
            forall|j: int| 0 <= j < i ==> header@[j] == scheme@[j],
        decreases 6 - i,
    {
        if header.get_char(i) != scheme.get_char(i) {
            proof {
                assert(header@[i as int] != scheme@[i as int]);
                if header@.subrange(0, 6) == "Basic "@ {
                    assert(header@.subrange(0, 6)[i as int] == header@[i as int]);
                }
            }
            return false;
        }
        i = i + 1;
    }
    proof {
        assert(header@.subrange(0, 6) =~= "Basic "@);
    }
    true
}

// Splits `username:password` at the first colon; `None` exactly when there is
// no colon at all.
fn split_at_first_colon(decoded: &str) -> (r: Option<(String, String)>)
    ensures
        r is Some <==> has_colon(decoded@),
        r is Some ==> {
            &&& !has_colon((r->0).0@)
            &&& decoded@ == (r->0).0@ + seq![':'] + (r->0).1@
        },
{
    let dlen: usize = decoded.unicode_len();
    let mut j: usize = 0;
    while j < dlen
        invariant
            0 <= j <= dlen,
            dlen == decoded@.len(),
            forall|k: int| 0 <= k < j ==> decoded@[k] != ':',
        decreases dlen - j,
    {
        if decoded.get_char(j) == ':' {
            let username = decoded.substring_char(0, j).to_owned();
            let password = decoded.substring_char(j + 1, dlen).to_owned();
            proof {
                assert(decoded@ =~= decoded@.subrange(0, j as int) + seq![':']
                    + decoded@.subrange(j + 1, dlen as int));
                assert(decoded@[j as int] == ':');
                assert(has_colon(decoded@));
                assert forall|k: int| 0 <= k < username@.len() implies username@[k] != ':' by {
                    assert(username@[k] == decoded@[k]);
                }
            }
            return Some((username, password));
        }
        j = j + 1;
    }
    proof {
        assert(!has_colon(decoded@));
    }
    None
}

/// Parses HTTP Basic credentials from the Authorization header value: the
/// username is everything before the first colon of the decoded pair, the
/// password everything after it. Every malformed shape is an `AuthError`
/// whose message names the first failed check.
pub fn basic_authentication(authorization: Option<&str>) -> (r: Result<Credentials, PublishError>)
    ensures
        r is Ok <==> spec_basic_auth_ok(spec_header_view(authorization)),
        r is Err ==> r->Err_0 is AuthError,
        r is Ok ==> {
            let h = authorization->0@;
            let decoded = decode_utf8(base64_standard_decoding(h.skip(6))->0);
            &&& !has_colon(r->Ok_0.username@)
            &&& decoded == r->Ok_0.username@ + seq![':'] + r->Ok_0.password@
        },
        authorization is None ==> r is Err && r->Err_0->AuthError_0.message@
            == "The authorization header is missing"@,
        authorization matches Some(h) ==> {
            let hv = h@;
            &&& (!(hv.len() >= 6 && hv.subrange(0, 6) == "Basic "@) ==> r is Err
                && r->Err_0->AuthError_0.message@
                == "The authorization scheme was not 'Basic '."@)
            &&& (hv.len() >= 6 && hv.subrange(0, 6) == "Basic "@ ==> match base64_standard_decoding(
                hv.skip(6),
            ) {
                None => r is Err && r->Err_0->AuthError_0.message@
                    == "The authorization header is not base64-encoded."@,
                Some(bytes) => {
                    &&& (!valid_utf8(bytes) ==> r is Err && r->Err_0->AuthError_0.message@
                        == "The authorization header contains invalid utf-8"@)
                    &&& (valid_utf8(bytes) && !has_colon(decode_utf8(bytes)) ==> r is Err
                        && r->Err_0->AuthError_0.message@
                        == "A password must be provided in 'Basic' auth"@)
                },
            })
        },
{
    let header = match authorization {
        Some(h) => h,
        None => {
            return Err(
                PublishError::AuthError(
                    ErrorChain::new("The authorization header is missing".to_owned()),
                ),
            );
        },
    };
    if !has_basic_prefix(header) {
        return Err(
            PublishError::AuthError(
                ErrorChain::new("The authorization scheme was not 'Basic '.".to_owned()),
            ),
        );
    }
    let hlen: usize = header.unicode_len();
    let rest = header.substring_char(6, hlen);
    proof {
        assert(rest@ =~= header@.skip(6));
    }
    let bytes = match decode_base64_standard(rest) {
        Some(b) => b,
        None => {
            return Err(
                PublishError::AuthError(
                    ErrorChain::new("The authorization header is not base64-encoded.".to_owned()),
                ),
            );
        },
    };
    let decoded = match string_from_utf8(bytes) {
        Some(s) => s,
        None => {
            return Err(
                PublishError::AuthError(
                    ErrorChain::new("The authorization header contains invalid utf-8".to_owned()),
                ),
            );
        },
    };
    match split_at_first_colon(decoded.as_str()) {
        Some((username, password)) => Ok(Credentials { username, password }),
        None => Err(
            PublishError::AuthError(
                ErrorChain::new("A password must be provided in 'Basic' auth".to_owned()),
            ),
        ),
    }
}

/// Plans a newsletter fan-out: the caller must present well-formed Basic
/// credentials before anything is read from the store; then one email per
/// confirmed subscriber with a valid stored address is planned, in storage
/// order, while corrupt rows are skipped without aborting the run.
pub fn publish_newsletter(store: &Store, authorization: Option<&str>, body: &BodyData) -> (r:
    Result<NewsletterRun, PublishError>)
    ensures
        r is Ok <==> spec_basic_auth_ok(spec_header_view(authorization)),
        authorization is None ==> r is Err && r->Err_0 is AuthError,
        r is Err ==> r->Err_0 is AuthError,
        r is Ok ==> {
            let run = r->Ok_0;
            let plan = spec_deliverable(store.subscribers@);
            &&& run.sent == 0
            &&& run.wf()
            &&& run.emails@.len() == plan.len()
            &&& forall|i: int|
                0 <= i < plan.len() ==> (#[trigger] run.emails@[i]).to@ == plan[i].email@
                    && run.emails@[i].subject@ == body.title@ && run.emails@[i].html_content@
                    == body.content.html@ && run.emails@[i].text_content@ == body.content.plain@
        },
{
    let _credentials = match basic_authentication(authorization) {
        Ok(c) => c,
        Err(e) => { return Err(e) },
    };
    let ghost rows = store.subscribers@;
    let n = store.subscribers.len();
    let mut emails: Vec<EmailRequest> = Vec::new();
    let mut i: usize = 0;
    while i < n
        invariant
            0 <= i <= n,
            n == rows.len(),
            store.subscribers@ == rows,
            emails@.len() == spec_deliverable(rows.take(i as int)).len(),
            forall|k: int|
                0 <= k < emails@.len() ==> (#[trigger] emails@[k]).to@ == spec_deliverable(
                    rows.take(i as int),
                )[k].email@ && emails@[k].subject@ == body.title@ && emails@[k].html_content@
                    == body.content.html@ && emails@[k].text_content@ == body.content.plain@,
        decreases n - i,
    {
        proof {
            lemma_deliverable_take_step(rows, i as int);
        }
        let confirmed = store.subscribers[i].status == crate::store::SubscriberStatus::Confirmed;
        if confirmed {
            match SubscriberEmail::parse(store.subscribers[i].email.clone()) {
                Ok(email) => {
                    emails.push(
                        EmailRequest {
                            to: email.as_str().to_owned(),
                            subject: body.title.clone(),
                            html_content: body.content.html.clone(),
                            text_content: body.content.plain.clone(),
                        },
                    );
                },
                Err(_) => {},
            }
        }
        i = i + 1;
    }
    proof {
        assert(rows.take(n as int) =~= rows);
    }
    Ok(NewsletterRun { emails, sent: 0 })
}

} // verus!
