//! How identities are written on the screen.

use vstd::prelude::*;
use vstd::string::*;
use crate::text::optional;

verus! {

/// A DID that fits into `max` characters: the whole of it, or its front with an
/// ellipsis in the last place.
pub open spec fn shortened(did: Seq<char>, max: nat) -> Seq<char> {
    if did.len() <= max {
        did
    } else if max == 0 {
        Seq::empty()
    } else {
        did.take(max - 1) + "…"@
    }
}

/// Fits a DID into `max` characters.
pub fn truncate_did(did: &str, max: usize) -> (text: String)
    ensures
        text@ == shortened(did@, max as nat),
{
    if did.unicode_len() <= max {
        did.to_owned()
    } else if max == 0 {
        String::new()
    } else {
        let mut text = did.substring_char(0, max - 1).to_owned();
        text.append("…");
        text
    }
}

/// How an identity is shown: by its verified name, or else by its DID.
pub open spec fn identifier(name: Option<Seq<char>>, did: Seq<char>, width: nat) -> Seq<char> {
    match name {
        Some(n) => n,
        None => shortened(did, width),
    }
}

/// Shows an identity by its verified name, or else by its DID.
pub fn display_identifier(name: &Option<String>, did: &str, width: usize) -> (text: String)
    ensures
        text@ == identifier(optional(*name), did@, width as nat),
{
    match name {
        Some(n) => n.clone(),
        None => truncate_did(did, width),
    }
}

/// What is shown of a DID never takes more room than there is.
pub proof fn shortened_fits(did: Seq<char>, max: nat)
    ensures
        shortened(did, max).len() <= max,
{
    reveal_strlit("…");
}

/// A DID that fits is shown whole; one that does not is shown as its front, with
/// an ellipsis in the last place there is room for.
pub proof fn a_did_keeps_its_front(did: &str, max: usize, text: String)
    requires
        call_ensures(truncate_did, (did, max), text),
    ensures
        did@.len() <= max ==> text@ == did@,
        did@.len() > max ==> text@.len() == max,
        did@.len() > max && max > 0 ==> text@.last() == '…' && forall|i: int|
            0 <= i < max - 1 ==> #[trigger] text@[i] == did@[i],
{
    reveal_strlit("…");
}

/// An identity with a verified name is shown by it, whatever its DID and the
/// room there is; one without by its DID.
pub proof fn a_name_comes_before_the_did(
    name: &Option<String>,
    did: &str,
    width: usize,
    text: String,
)
    requires
        call_ensures(display_identifier, (name, did, width), text),
    ensures
        *name matches Some(n) ==> text@ == n@,
        name is None && did@.len() <= width ==> text@ == did@,
        name is None && did@.len() > width ==> text@.len() == width,
{
    reveal_strlit("…");
}

} // verus!
