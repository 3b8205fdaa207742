//! The conversion protocol, the single-assignment output slot that a native
//! callback fills, and the bridge that drives a native entry point.

use std::str::Utf8Error;
use vstd::prelude::*;
use crate::view::{from_string_view, strict_decode, StringView};

verus! {

/// A fault raised while converting a value, carried as data so that it never
/// unwinds through native frames. The payload is kept as it was raised.
#[derive(Debug, Clone, PartialEq, Eq)]
pub struct Interruption {
    pub payload: String,
}

/// What one conversion produced: a value, a domain error, or a fault.
#[derive(Debug)]
pub enum FfiResult<T, E> {
    Converted(T),
    Failed(E),
    Interrupted(Interruption),
}

/// A fault that the bridge hands back to its caller instead of a value.
#[derive(Debug, Clone, PartialEq, Eq)]
pub enum BridgeFault {
    /// The conversion raised this fault inside the callback.
    Interrupted(Interruption),
    /// The native entry point returned without invoking the callback.
    CallbackNotInvoked,
}

/// A type that can be built from one value handed over by native code.
pub trait FromFfi<'a>: Sized {
    /// The shape of the data that the native callback delivers.
    type FfiType;

    /// The domain error that conversion may report.
    type Error;

    /// Whether `r` is an outcome that converting `data` may have.
    spec fn converts(data: Self::FfiType, r: FfiResult<Self, Self::Error>) -> bool;

    /// Builds a value from `data`.
    fn from_ffi(data: Self::FfiType) -> (r: FfiResult<Self, Self::Error>)
        ensures
            Self::converts(data, r),
    ;
}

/// The callback's output: unset until the first delivery, then fixed.
pub struct OutputSlot<'a, T: FromFfi<'a>> {
    value: Option<FfiResult<T, T::Error>>,
}

/// Whether `s` is a slot content that deliveries can have produced.
pub open spec fn reachable<'a, T: FromFfi<'a>>(s: Option<FfiResult<T, T::Error>>) -> bool {
    s matches Some(x) ==> exists|d: T::FfiType| T::converts(d, x)
}

/// Whether delivering `data` to a slot holding `before` may leave it holding
/// `after`: the first delivery stores an outcome of converting `data`, and
/// any later one changes nothing.
pub open spec fn delivered<'a, T: FromFfi<'a>>(
    before: Option<FfiResult<T, T::Error>>,
    data: T::FfiType,
    after: Option<FfiResult<T, T::Error>>,
) -> bool {
    match before {
        Some(_) => after == before,
        None => exists|x: FfiResult<T, T::Error>| T::converts(data, x) && after == Some(x),
    }
}

/// What the bridge reports for a slot holding `s` once the call is over.
pub open spec fn settle<'a, T: FromFfi<'a>>(s: Option<FfiResult<T, T::Error>>) -> Result<
    Result<T, T::Error>,
    BridgeFault,
> {
    match s {
        None => Err(BridgeFault::CallbackNotInvoked),
        Some(FfiResult::Converted(v)) => Ok(Ok(v)),
        Some(FfiResult::Failed(e)) => Ok(Err(e)),
        Some(FfiResult::Interrupted(p)) => Err(BridgeFault::Interrupted(p)),
    }
}

impl<'a, T: FromFfi<'a>> View for OutputSlot<'a, T> {
    type V = Option<FfiResult<T, T::Error>>;

    closed spec fn view(&self) -> Self::V {
        self.value
    }
}

impl<'a, T: FromFfi<'a>> OutputSlot<'a, T> {
    #[verifier::type_invariant]
    closed spec fn filled_by_delivery(self) -> bool {
        reachable::<T>(self.value)
    }

    /// An unset slot.
    pub fn new() -> (s: Self)
        ensures
            s@ is None,
    {
        OutputSlot { value: None }
    }

    /// Whether a value has been delivered.
    pub fn is_set(&self) -> (r: bool)
        ensures
            r == self@ is Some,
    {
        self.value.is_some()
    }

    /// The callback that the bridge hands to native code with this slot as
    /// its context: converts `data` and stores the outcome, unless an earlier
    /// delivery already filled the slot, in which case nothing runs.
    pub fn deliver(&mut self, data: T::FfiType)
        ensures
            delivered::<T>(old(self)@, data, final(self)@),
    {
        if self.value.is_none() {
            let x = T::from_ffi(data);
            self.value = Some(x);
        }
    }

    /// Reads the slot once the native call has returned.
    pub fn finish(self) -> (r: Result<Result<T, T::Error>, BridgeFault>)
        ensures
            r == settle::<T>(self@),
    {
        match self.value {
            None => Err(BridgeFault::CallbackNotInvoked),
            Some(FfiResult::Converted(v)) => Ok(Ok(v)),
            Some(FfiResult::Failed(e)) => Ok(Err(e)),
            Some(FfiResult::Interrupted(p)) => Err(BridgeFault::Interrupted(p)),
        }
    }
}

/// A native entry point that takes a context and is expected to deliver one
/// value through `OutputSlot::deliver` before it returns.
pub trait ForeignCall<'a, T: FromFfi<'a>> {
    /// Runs the entry point with `env` as the callback's context.
    fn call(self, env: &mut OutputSlot<'a, T>);
}

/// Drives `f` with a fresh slot and reports what the callback left in it.
/// Whatever the entry point did, the outcome is that of a slot that is either
/// unset or holds what converting some delivered data produced.
pub fn get_ffi_value<'a, T: FromFfi<'a>, F: ForeignCall<'a, T>>(f: F) -> (r: Result<
    Result<T, T::Error>,
    BridgeFault,
>)
    ensures
        exists|s: Option<FfiResult<T, T::Error>>| reachable::<T>(s) && r == settle::<T>(s),
{
    let mut slot = OutputSlot::new();
    f.call(&mut slot);
    proof {
        use_type_invariant(&slot);
    }
    slot.finish()
}

/// Whether `r` is the outcome of strictly decoding `bytes` into owned text.
pub open spec fn string_converts(bytes: Seq<u8>, r: FfiResult<String, Utf8Error>) -> bool {
    match r {
        FfiResult::Converted(s) => strict_decode(bytes) == Some(s@),
        FfiResult::Failed(_) => strict_decode(bytes) is None,
        FfiResult::Interrupted(_) => false,
    }
}

impl<'a> FromFfi<'a> for String {
    type FfiType = StringView<'a>;

    type Error = Utf8Error;

    open spec fn converts(data: StringView<'a>, r: FfiResult<String, Utf8Error>) -> bool {
        string_converts(data@, r)
    }

    /// Decodes strictly, then copies the text out of the borrowed buffer.
    fn from_ffi(data: StringView<'a>) -> (r: FfiResult<String, Utf8Error>) {
        match from_string_view(data) {
            Ok(s) => FfiResult::Converted(s.to_owned()),
            Err(e) => FfiResult::Failed(e),
        }
    }
}

} // verus!
