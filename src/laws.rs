//! Properties that relate the view codec, the output slot and the bridge.

use std::str::Utf8Error;
use vstd::prelude::*;
use vstd::utf8::*;
use crate::convert::{delivered, settle, BridgeFault, FfiResult, FromFfi, Interruption};
use crate::view::StringView;

verus! {

/// Text viewed with `to_string_view` and delivered to an unset slot settles
/// to that same text, character for character.
pub proof fn lemma_round_trip<'a>(
    view: StringView<'a>,
    text: Seq<char>,
    after: Option<FfiResult<String, Utf8Error>>,
)
    requires
        view@ == encode_utf8(text),
        delivered::<String>(None, view, after),
    ensures
        settle::<String>(after) matches Ok(Ok(s)) && s@ == text,
{
    encode_utf8_valid_utf8(text);
    encode_utf8_decode_utf8(text);
}

/// A slot is set by its first delivery and left as it is by any later one,
/// so the bridge reads exactly one outcome; a slot that received nothing is
/// reported as a broken contract, never as a value.
pub proof fn lemma_exactly_once<'a, T: FromFfi<'a>>(
    first: T::FfiType,
    second: T::FfiType,
    once: Option<FfiResult<T, T::Error>>,
    twice: Option<FfiResult<T, T::Error>>,
)
    requires
        delivered::<T>(None, first, once),
        delivered::<T>(once, second, twice),
    ensures
        once is Some,
        twice == once,
        !(settle::<T>(twice) matches Err(BridgeFault::CallbackNotInvoked)),
        settle::<T>(None) matches Err(BridgeFault::CallbackNotInvoked),
{
}

/// When converting `data` raises the fault `p`, the bridge reads that fault
/// back, payload unchanged, instead of a value.
pub proof fn lemma_interruption_contained<'a, T: FromFfi<'a>>(
    data: T::FfiType,
    p: Interruption,
    after: Option<FfiResult<T, T::Error>>,
)
    requires
        forall|x: FfiResult<T, T::Error>| T::converts(data, x) ==> x == FfiResult::<T, T::Error>::Interrupted(p),
        delivered::<T>(None, data, after),
    ensures
        settle::<T>(after) == Err::<Result<T, T::Error>, BridgeFault>(BridgeFault::Interrupted(p)),
{
}

} // verus!
