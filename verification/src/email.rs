//! The outbound email contract: one value per send.

use vstd::prelude::*;

verus! {

/// One outbound email, handed to the send-one-email capability: a recipient,
/// a subject, and the content in both forms.
#[derive(Clone, Debug)]
pub struct EmailRequest {
    pub to: String,
    pub subject: String,
    pub html_content: String,
    pub text_content: String,
}

} // verus!
