//! What this crate takes on trust from `tracing-core`.
//!
//! The tracing backend owns span identities, decides which spans are wanted and
//! stores their values. Nothing in this module is proved: each item states what
//! the backend's source shows of one of its functions, and the rest of the
//! crate is verified against these statements.
use vstd::prelude::*;
use crate::names::names_view;
use crate::operation::FieldValue;

verus! {

/// The handle to one instance of the tracing backend. Its contents are hidden.
#[verifier::external_type_specification]
#[verifier::external_body]
pub struct ExDispatch(tracing_core::dispatcher::Dispatch);

/// The backend's description of one span shape. Its contents are hidden; what
/// the contracts need of it goes by [`declared_name`] and [`declared_fields`].
#[verifier::external_type_specification]
#[verifier::external_body]
pub struct ExMetadata<'a>(tracing_core::metadata::Metadata<'a>);

/// The name that a metadata value was made with, as `Metadata::name` returns it.
pub uninterp spec fn declared_name(metadata: tracing_core::metadata::Metadata<'static>) -> Seq<char>;

/// The field names that a metadata value was made with, in their declared
/// order: what walking `Metadata::fields` yields.
pub uninterp spec fn declared_fields(metadata: tracing_core::metadata::Metadata<'static>) -> Seq<Seq<char>>;

/// Trusted: `Metadata::name`, which hands back the name stored in the metadata.
#[verifier::external_body]
pub(crate) fn metadata_name(metadata: &'static tracing_core::metadata::Metadata<'static>) -> (name:
    &'static str)
    ensures
        name@ == declared_name(*metadata),
{
    metadata.name()
}

/// Trusted: `Metadata::fields`, walked with `FieldSet::iter`, each field read
/// with `Field::name`. The iterator runs over the indices of the stored name
/// list from first to last, so the result is that list, in order.
#[verifier::external_body]
pub(crate) fn metadata_field_names(
    metadata: &'static tracing_core::metadata::Metadata<'static>,
) -> (names: Vec<&'static str>)
    ensures
        names_view(names@) == declared_fields(*metadata),
{
    metadata.fields().iter().map(|field| field.name()).collect()
}

/// Trusted: `Dispatch::default`, which clones the dispatcher that is current for
/// the calling thread. Which one that is depends on what the process has
/// installed, so nothing is said of the result.
#[verifier::external_body]
pub(crate) fn current_dispatch() -> (dispatch: tracing_core::dispatcher::Dispatch) {
    tracing_core::dispatcher::Dispatch::default()
}

/// Trusted: `Dispatch::enabled`, which asks the subscriber behind the
/// dispatcher whether it would record a span of this shape. The answer is the
/// subscriber's to give, so nothing is said of it.
#[verifier::external_body]
pub(crate) fn dispatch_enabled(
    dispatch: &tracing_core::dispatcher::Dispatch,
    metadata: &'static tracing_core::metadata::Metadata<'static>,
) -> (enabled: bool) {
    dispatch.enabled(metadata)
}

/// Trusted: `Dispatch::new_span` on root attributes (`Attributes::new_root`)
/// whose value set is made by `FieldSet::value_set_all`.
///
/// `value_set_all` pairs the values with the declared fields by position and
/// asserts in debug builds that there is one value per field, hence the
/// `requires`. A span identity wraps a non-zero integer; `Id::into_u64` hands
/// that integer out. Which identity the subscriber allocates is not stated.
#[verifier::external_body]
pub(crate) fn new_root_span(
    dispatch: &tracing_core::dispatcher::Dispatch,
    metadata: &'static tracing_core::metadata::Metadata<'static>,
    values: &Vec<FieldValue>,
) -> (id: u64)
    requires
        values@.len() == declared_fields(*metadata).len(),
    ensures
        id != 0,
{
    let recorded: Vec<Option<&dyn tracing_core::field::Value>> = values.iter().map(
        |value| match value {
            FieldValue::Absent => None,
            FieldValue::Text(text) => Some(text as &dyn tracing_core::field::Value),
            FieldValue::Bits(bits) => Some(bits as &dyn tracing_core::field::Value),
        },
    ).collect();
    let value_set = metadata.fields().value_set_all(&recorded);
    dispatch.new_span(&tracing_core::span::Attributes::new_root(metadata, &value_set)).into_u64()
}

/// Trusted: `Dispatch::enter` on the span with this identity. `Id::from_u64`
/// panics on zero, hence the `requires`.
#[verifier::external_body]
pub(crate) fn enter_span(dispatch: &tracing_core::dispatcher::Dispatch, id: u64)
    requires
        id != 0,
{
    dispatch.enter(&tracing_core::span::Id::from_u64(id))
}

/// Trusted: `Dispatch::exit` on the span with this identity. `Id::from_u64`
/// panics on zero, hence the `requires`.
#[verifier::external_body]
pub(crate) fn exit_span(dispatch: &tracing_core::dispatcher::Dispatch, id: u64)
    requires
        id != 0,
{
    dispatch.exit(&tracing_core::span::Id::from_u64(id))
}

/// Trusted: `Dispatch::try_close` on the span with this identity; the result
/// says whether the subscriber now holds the span closed, which is the
/// subscriber's to decide. `Id::from_u64` panics on zero, hence the `requires`.
#[verifier::external_body]
pub(crate) fn try_close_span(dispatch: &tracing_core::dispatcher::Dispatch, id: u64) -> (closed:
    bool)
    requires
        id != 0,
{
    dispatch.try_close(tracing_core::span::Id::from_u64(id))
}

} // verus!
