//! Error reports as a tagged chain: a message with an optional wrapped cause,
//! and the formatting routine that walks the chain.

use vstd::prelude::*;

verus! {

/// An error message together with the chain of causes behind it.
#[derive(Debug)]
pub struct ErrorChain {
    pub message: String,
    pub cause: Option<Box<ErrorChain>>,
}

/// The rendering of a chain of causes: one `caused by:` line per link.
pub open spec fn spec_cause_fmt(c: Option<Box<ErrorChain>>) -> Seq<char>
    decreases c,
{
    match c {
        None => Seq::<char>::empty(),
        Some(b) => "caused by: "@ + b.message@ + "\n"@ + spec_cause_fmt(b.cause),
    }
}

/// The rendering of a whole report: the message, then every cause in order.
pub open spec fn spec_chain_fmt(e: ErrorChain) -> Seq<char> {
    e.message@ + "\n"@ + spec_cause_fmt(e.cause)
}

impl ErrorChain {
    /// A report with no cause behind it.
    pub fn new(message: String) -> (r: ErrorChain)
        ensures
            r.message@ == message@,
            r.cause is None,
    {
        ErrorChain { message, cause: None }
    }

    /// A report wrapping the cause it was derived from.
    pub fn with_cause(message: String, cause: ErrorChain) -> (r: ErrorChain)
        ensures
            r.message@ == message@,
            r.cause is Some,
            *r.cause->0 == cause,
    {
        ErrorChain { message, cause: Some(Box::new(cause)) }
    }
}

fn cause_fmt(c: &Option<Box<ErrorChain>>) -> (r: String)
    ensures
        r@ == spec_cause_fmt(*c),
    decreases *c,
{
    match c {
        None => String::new(),
        Some(b) => {
            let mut out = "caused by: ".to_owned();
            out.append(b.message.as_str());
            out.append("\n");
            let rest = cause_fmt(&b.cause);
            out.append(rest.as_str());
            out
        },
    }
}

/// Renders the report: the message on its own line, then one `caused by:`
/// line for each cause in the chain.
pub fn error_chain_fmt(e: &ErrorChain) -> (r: String)
    ensures
        r@ == spec_chain_fmt(*e),
{
    let mut out = e.message.clone();
    out.append("\n");
    let rest = cause_fmt(&e.cause);
    out.append(rest.as_str());
    out
}

} // verus!
