//! Typed, runtime-validated wrappers for the value handles of a dynamically
//! typed host runtime, and the trampoline that bridges one host callback
//! invocation to one statically typed function.
//!
//! The crate never touches the host's memory itself. Every question to the host
//! is a [`Call`] handed to a [`Host`], every answer a [`Reply`]; a [`Session`]
//! keeps the record of both, and the contracts of the crate are stated over
//! that record. Nothing is assumed of the host: whatever it answers, the
//! wrappers and the trampoline behave as their contracts say.

mod codegen;
mod env;
mod example;
mod host;
mod laws;
mod result;
mod status;
mod text;
mod trampoline;
mod value;
mod variant;

pub use codegen::{
    binding_name, bound, decide, decided, make_args, make_callback, planned, spelled,
    supported, Arguments, Binding, Callback, FnArg, Pattern, Rejection, Signature,
};
pub use env::Env;
pub use example::add;
pub use host::{
    asked, asks, continues, lemma_asked_continues, lemma_continues_index, lemma_continues_refl,
    lemma_continues_trans, Call, CallView, Coercion, Encoding, ErrorClass, Exchange, Host, Payload,
    Predicate, Query, Reply, Script, Session,
};
pub use laws::{
    lemma_accepted_all, lemma_arity_mismatch, lemma_element_kind_named, lemma_exception_identity,
    lemma_f64_round_trip, lemma_i32_round_trip, lemma_i64_round_trip, lemma_short_circuit,
    lemma_string_round_trip, lemma_units_round_trip, lemma_validation_by_tag,
    lemma_validation_total,
};
pub use result::{Error, ErrorKind};
pub use status::Status;
pub use text::{decimal, digit, is_representable, representable, to_decimal};
pub use trampoline::{
    accepted, arity_message, checked_upto, entered, layout_of, leave, return_error, start, threw,
    thrown_text, verdict, Trampoline,
};
pub use value::{
    answered, content, described, fetch_failure, fetch_result, fetched, judged, judged_end,
    judged_outcome, judged_twice, judged_twice_end, judged_twice_outcome, named, named_reply,
    object_like, raised, raised_end, raised_error, read_as_text, tested, typed_checked, unit,
    unusable, viewed, wrapped, Any, Array, ArrayBuffer, AsObject, BigInt64Array,
    BigInt64ArrayElement, BigUInt64Array, BigUInt64ArrayElement, Boolean, Buffer, ElementKind,
    Float32Array, Float32ArrayElement, Float64Array, Float64ArrayElement, Inspect, Int16Array,
    Int16ArrayElement, Int32Array, Int32ArrayElement, Int8Array, Int8ArrayElement, Layout, Null,
    Number, Object, String, TypedArray, TypedArrayElement, UInt16Array, UInt16ArrayElement,
    UInt32Array, UInt32ArrayElement, UInt8Array, UInt8ArrayElement, UInt8ClampedArray,
    UInt8ClampedArrayElement, Undefined, Value, ValueType,
};
pub use variant::{plain_layout, validated, Argument, Variant};
