//! Client identifiers as text.

use vstd::prelude::*;
use core::str::FromStr;

verus! {

/// The text of the identifier that the `ibc` crate makes for a client of the kind tagged `tag`
/// that is created after `counter` others, or `None` where it makes none.
pub uninterp spec fn client_identifier(tag: Seq<char>, counter: u64) -> Option<Seq<char>>;

/// Parses `tag` with `ibc::core::ics02_client::client_type::ClientType::from_str` and builds the
/// identifier with `ibc::core::ics24_host::identifier::ClientId::new`, which joins the kind's
/// prefix and the counter by a dash and checks the text's length and characters. Trusted: whether
/// an identifier comes out, and its text, are functions of the tag and the counter alone; and
/// one comes out for the Tendermint tag, which `from_str` knows and whose identifiers, the tag,
/// a dash and at most twenty digits, are within the 9 to 64 letters, digits and dashes that
/// `ClientId::new` accepts.
#[verifier::external_body]
pub(crate) fn make_client_identifier(tag: &str, counter: u64) -> (identifier: Option<String>)
    ensures
        identifier is Some <==> client_identifier(tag@, counter) is Some,
        identifier matches Some(text) ==> client_identifier(tag@, counter) == Some(text@),
        tag@ == "07-tendermint"@ ==> identifier is Some,
{
    let client_type = ibc::core::ics02_client::client_type::ClientType::from_str(tag).ok()?;
    let identifier = ibc::core::ics24_host::identifier::ClientId::new(client_type, counter).ok()?;
    Some(identifier.as_str().to_string())
}

} // verus!
