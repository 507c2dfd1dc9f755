//! Subscriber input validation: email addresses and subscriber names.

use unicode_segmentation::UnicodeSegmentation;
use vstd::prelude::*;

verus! {

/// True exactly of the characters a subscriber name may not contain.
pub open spec fn forbidden_name_char(c: char) -> bool {
    c == '/' || c == '(' || c == ')' || c == '"' || c == '<' || c == '>' || c == '\\' || c == '{'
        || c == '}'
}

/// Number of occurrences of `c` in `s`.
pub open spec fn count_char(s: Seq<char>, c: char) -> nat
    decreases s.len(),
{
    if s.len() == 0 {
        0
    } else {
        count_char(s.drop_last(), c) + if s.last() == c {
            1nat
        } else {
            0nat
        }
    }
}

/// A well-formed subscriber email: non-empty, with exactly one `@` separating a
/// non-empty local part from a non-empty domain part.
pub open spec fn valid_email(s: Seq<char>) -> bool {
    &&& s.len() > 0
    &&& count_char(s, '@') == 1
    &&& s.first() != '@'
    &&& s.last() != '@'
}

proof fn lemma_count_char_take_step(s: Seq<char>, c: char, i: int)
    requires
        0 <= i < s.len(),
    ensures
        count_char(s.take(i + 1), c) == count_char(s.take(i), c) + if s[i] == c {
            1nat
        } else {
            0nat
        },
{
    assert(s.take(i + 1).drop_last() =~= s.take(i));
    assert(s.take(i + 1).last() == s[i]);
}

/// Counts how many characters of `s` are `c`.
fn count_char_occurrences(s: &str, c: char) -> (n: usize)
    ensures
        n as nat == count_char(s@, c),
{
    let len: usize = s.unicode_len();
    let mut n: usize = 0;
    let mut i: usize = 0;
    while i < len
        invariant
            0 <= i <= len,
            len == s@.len(),
            n <= i,
            n as nat == count_char(s@.take(i as int), c),
        decreases len - i,
    {
        let ch = s.get_char(i);
        proof {
            lemma_count_char_take_step(s@, c, i as int);
        }
        if ch == c {
            n = n + 1;
        }
        i = i + 1;
    }
    proof {
        assert(s@.take(len as int) =~= s@);
    }
    n
}

/// The message reported for a malformed email, by the shape of the defect.
pub open spec fn email_error_message(s: Seq<char>) -> Seq<char> {
    if s.len() == 0 {
        "Email should not be empty"@
    } else if count_char(s, '@') != 1 {
        "Invalid email"@
    } else if s.first() == '@' {
        "Invalid email: no user"@
    } else {
        "Invalid email: no domain"@
    }
}

/// A validated subscriber email address.
#[derive(Debug)]
pub struct SubscriberEmail(String);

impl View for SubscriberEmail {
    type V = Seq<char>;

    closed spec fn view(&self) -> Seq<char> {
        self.0@
    }
}

impl SubscriberEmail {
    /// Accepts exactly the well-formed emails and keeps the input unchanged;
    /// each malformed shape is reported with its own message.
    pub fn parse(s: String) -> (r: Result<SubscriberEmail, String>)
        ensures
            r is Ok <==> valid_email(s@),
            r is Ok ==> r->Ok_0@ == s@,
            !valid_email(s@) ==> r is Err && r->Err_0@ == email_error_message(s@),
    {
        let len: usize = s.as_str().unicode_len();
        if len == 0 {
            return Err("Email should not be empty".to_owned());
        }
        let at_signs = count_char_occurrences(s.as_str(), '@');
        if at_signs != 1 {
            return Err("Invalid email".to_owned());
        }
        if s.as_str().get_char(0) == '@' {
            return Err("Invalid email: no user".to_owned());
        }
        if s.as_str().get_char(len - 1) == '@' {
            return Err("Invalid email: no domain".to_owned());
        }
        Ok(SubscriberEmail(s))
    }

    /// Accepts exactly the emails that the outside validator accepts.
    pub fn parse_use_external_library(s: String) -> (r: Result<SubscriberEmail, String>)
        ensures
            r is Ok <==> validator_email_check(s@),
            r is Ok ==> r->Ok_0@ == s@,
            r is Err ==> r->Err_0@ == "Invalid email"@,
    {
        if !email_passes_validator(s.as_str()) {
            Err("Invalid email".to_owned())
        } else {
            Ok(SubscriberEmail(s))
        }
    }

    /// The address as a string slice.
    pub fn as_str(&self) -> (r: &str)
        ensures
            r@ == self@,
    {
        self.0.as_str()
    }
}

/// The verdict of the outside email validator on the given characters.
pub uninterp spec fn validator_email_check(s: Seq<char>) -> bool;

/// Relies on validator::validate_email: the verdict depends on the characters
/// alone, and a string that is empty or holds no `@` is rejected.
#[verifier::external_body]
fn email_passes_validator(s: &str) -> (r: bool)
    ensures
        r == validator_email_check(s@),
        s@.len() == 0 ==> !r,
        count_char(s@, '@') == 0 ==> !r,
{
    validator::validate_email(s)
}

/// The characters with the Unicode `White_Space` property.
pub open spec fn is_whitespace_char(c: char) -> bool {
    ||| c == ' '
    ||| c == '\t'
    ||| c == '\n'
    ||| c == '\r'
    ||| c as u32 == 0x0B
    ||| c as u32 == 0x0C
    ||| c as u32 == 0x85
    ||| c as u32 == 0xA0
    ||| c as u32 == 0x1680
    ||| (0x2000 <= c as u32 && c as u32 <= 0x200A)
    ||| c as u32 == 0x2028
    ||| c as u32 == 0x2029
    ||| c as u32 == 0x202F
    ||| c as u32 == 0x205F
    ||| c as u32 == 0x3000
}

/// Decides `is_whitespace_char`.
pub fn char_is_whitespace(c: char) -> (r: bool)
    ensures
        r == is_whitespace_char(c),
{
    let v = c as u32;
    v == 0x20 || v == 0x09 || v == 0x0A || v == 0x0D || v == 0x0B || v == 0x0C || v == 0x85 || v
        == 0xA0 || v == 0x1680 || (0x2000 <= v && v <= 0x200A) || v == 0x2028 || v == 0x2029 || v
        == 0x202F || v == 0x205F || v == 0x3000
}

/// True of a string whose trimmed form is empty: every character is whitespace.
pub open spec fn blank_string(s: Seq<char>) -> bool {
    forall|i: int| 0 <= i < s.len() ==> is_whitespace_char(s[i])
}

/// The number of extended grapheme clusters in the given characters.
pub uninterp spec fn grapheme_count_of(s: Seq<char>) -> nat;

/// Relies on unicode_segmentation's UnicodeSegmentation::graphemes: the number
/// of extended grapheme clusters depends on the characters alone.
#[verifier::external_body]
pub(crate) fn grapheme_count(s: &str) -> (n: usize)
    ensures
        n as nat == grapheme_count_of(s@),
{
    s.graphemes(true).count()
}

/// A well-formed subscriber name: not blank, at most 256 grapheme clusters,
/// and free of the forbidden characters.
pub open spec fn valid_name(s: Seq<char>) -> bool {
    &&& !blank_string(s)
    &&& grapheme_count_of(s) <= 256
    &&& forall|i: int| 0 <= i < s.len() ==> !forbidden_name_char(s[i])
}

/// Decides `forbidden_name_char`.
pub fn char_is_forbidden_in_name(c: char) -> (r: bool)
    ensures
        r == forbidden_name_char(c),
{
    c == '/' || c == '(' || c == ')' || c == '"' || c == '<' || c == '>' || c == '\\' || c == '{'
        || c == '}'
}

/// A validated subscriber name.
#[derive(Debug)]
pub struct SubscriberName(String);

impl View for SubscriberName {
    type V = Seq<char>;

    closed spec fn view(&self) -> Seq<char> {
        self.0@
    }
}

impl SubscriberName {
    /// Accepts exactly the well-formed names and keeps the input unchanged.
    pub fn parse(s: String) -> (r: Result<SubscriberName, String>)
        ensures
            r is Ok <==> valid_name(s@),
            r is Ok ==> r->Ok_0@ == s@,
            r is Err ==> r->Err_0@ == "Invalid subscriber name"@,
    {
        if crate::subscriptions::is_valid_name(s.as_str()) {
            Ok(SubscriberName(s))
        } else {
            Err("Invalid subscriber name".to_owned())
        }
    }

    /// The name as a string slice.
    pub fn as_str(&self) -> (r: &str)
        ensures
            r@ == self@,
    {
        self.0.as_str()
    }
}

/// A subscription request whose fields have both been validated.
#[derive(Debug)]
pub struct NewSubscriber {
    pub email: SubscriberEmail,
    pub name: SubscriberName,
}

} // verus!
