//! Small page fragments.
use vstd::prelude::*;

verus! {

/// The HTML page that names a message, as the canned responses show it.
pub open spec fn message_page(message: Seq<char>) -> Seq<char> {
    "<center><h1>"@ + message + "</h1><hr><span>saaba</span></center>"@
}

/// Builds the HTML page that names `message`.
pub fn construct_message(message: String) -> (r: String)
    ensures
        r@ == message_page(message@),
{
    crate::text::join3("<center><h1>", message.as_str(), "</h1><hr><span>saaba</span></center>")
}

} // verus!
