use vstd::prelude::*;

use crate::messages::Message;
use crate::text::{after_last, text_after_last};

verus! {

/// The marker after which a verification message gives its link.
pub const LINK_MARKER: &'static str = "Email: ";

/// The link of a verification message: the text after the last
/// `"Email: "`, or the whole text when the marker does not occur.
pub fn extract_link(message: Message) -> (r: String)
    ensures
        r@ == after_last(message.text@, LINK_MARKER@),
{
    text_after_last(message.text.as_str(), LINK_MARKER)
}

} // verus!
