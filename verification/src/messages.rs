//! The user-visible message texts of the workflow.
//!
//! Two messages are posted: a confirmation in the originating location that
//! names the created channel and invites opt-in reactions, and a welcome
//! message inside the new channel whose first reaction closes it.

use vstd::prelude::*;
use vstd::string::StringExecFns;

verus! {

/// Text of the announcement posted in the originating location; `mention`
/// is the platform's rendering of the created channel's name.
pub open spec fn announcement_text_spec(mention: Seq<char>) -> Seq<char> {
    "The channel "@ + mention + " was created! React to this post if interested."@
}

/// Text of the welcome message posted inside the new channel, named after
/// the channel.
pub open spec fn welcome_text_spec(name: Seq<char>) -> Seq<char> {
    "Welcome to "@ + name + ", react to close this channel."@
}

/// Build the announcement: it names the channel and invites reactions.
pub fn announcement_text(mention: &str) -> (r: String)
    ensures
        r@ == announcement_text_spec(mention@),
{
    let mut s: String = "The channel ".to_owned();
    s.append(mention);
    s.append(" was created! React to this post if interested.");
    assert(s@ =~= announcement_text_spec(mention@));
    s
}

/// Build the welcome message for the freshly created channel.
pub fn welcome_text(name: &str) -> (r: String)
    ensures
        r@ == welcome_text_spec(name@),
{
    let mut s: String = "Welcome to ".to_owned();
    s.append(name);
    s.append(", react to close this channel.");
    assert(s@ =~= welcome_text_spec(name@));
    s
}

} // verus!
