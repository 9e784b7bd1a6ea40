//! Construction from an excerpt of a `ropey` rope.

use std::borrow::Cow;
use vstd::prelude::*;

use crate::tiny_str::{fits, TinyBoxedStr, TooLongError};

verus! {

#[verifier::external_type_specification]
#[verifier::external_body]
pub struct ExRopeSlice<'a>(ropey::RopeSlice<'a>);

/// The text that a rope slice holds.
pub uninterp spec fn rope_slice_text(s: ropey::RopeSlice<'_>) -> Seq<char>;

/// Relies on ropey's `From<RopeSlice> for Cow<str>`: it borrows the slice's
/// text where that is contiguous and collects its chunks into a `String`
/// otherwise, so the result holds the slice's text either way.
#[verifier::external_body]
fn rope_slice_to_cow<'a>(slice: ropey::RopeSlice<'a>) -> (r: Cow<'a, str>)
    ensures
        r@ == rope_slice_text(slice),
{
    Cow::from(slice)
}

// The outcome is stated by the `ensures` of `try_from` itself, over the
// view, and not as one exact value.
impl<'a> vstd::std_specs::convert::TryFromSpecImpl<ropey::RopeSlice<'a>> for TinyBoxedStr {
    open spec fn obeys_try_from_spec() -> bool {
        false
    }

    open spec fn try_from_spec(v: ropey::RopeSlice<'a>) -> Result<Self, TooLongError> {
        Err(TooLongError)
    }
}

impl<'a> TryFrom<ropey::RopeSlice<'a>> for TinyBoxedStr {
    type Error = TooLongError;

    /// Builds an instance from the text of a rope slice. Text that the rope
    /// has to collect is taken over without a second copy where it fits
    /// exactly.
    fn try_from(slice: ropey::RopeSlice<'a>) -> (r: Result<Self, TooLongError>)
        ensures
            r is Ok <==> fits(rope_slice_text(slice)),
            r matches Ok(t) ==> t@ == rope_slice_text(slice),
    {
        let s = rope_slice_to_cow(slice);
        Self::try_from(s)
    }
}

} // verus!
