//! Moments in time as the service counts them, and as people read them.

use vstd::prelude::*;
use crate::text::join;

verus! {

/// The text of the moment that lies `seconds` after the start of 1970 in
/// coordinated universal time, where the calendar reaches that far.
pub uninterp spec fn moment_text(seconds: int) -> Option<Seq<char>>;

/// `chrono::DateTime::from_timestamp` at a full second, written out as
/// `Display` does it: the moment that many seconds after the Unix epoch, or
/// nothing where the number is out of the range of the calendar.
#[verifier::external_body]
pub(crate) fn moment(seconds: i64) -> (text: Option<String>)
    ensures
        match moment_text(seconds as int) {
            Some(expected) => text matches Some(text) && text@ == expected,
            None => text is None,
        },
{
    chrono::DateTime::from_timestamp(seconds, 0).map(|moment| moment.to_string())
}

/// The label for the close of a ranking, given the text of the moment.
pub open spec fn expiry_of(text: Option<Seq<char>>) -> Option<Seq<char>> {
    match text {
        Some(text) => Some("Expiring: "@ + text),
        None => None,
    }
}

/// The label for the close of a ranking, given the text of the moment: none
/// for a moment that the calendar does not reach.
pub fn expiry_label(text: Option<String>) -> (label: Option<String>)
    ensures
        match expiry_of(
            match text {
                Some(text) => Some(text@),
                None => None,
            },
        ) {
            Some(expected) => label matches Some(label) && label@ == expected,
            None => label is None,
        },
{
    match text {
        Some(text) => Some(join("Expiring: ", text.as_str())),
        None => None,
    }
}

/// The label for the close of a ranking that closes `seconds` after the
/// start of 1970.
pub fn expiry(seconds: i64) -> (label: Option<String>)
    ensures
        match expiry_of(moment_text(seconds as int)) {
            Some(expected) => label matches Some(label) && label@ == expected,
            None => label is None,
        },
{
    expiry_label(moment(seconds))
}

} // verus!
