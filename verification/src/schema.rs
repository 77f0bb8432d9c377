//! The field schemas of the two kinds of operation.
//!
//! Every span reports its data under a fixed, ordered list of field names. The
//! order is part of a span's shape: values are later supplied by position, so a
//! value placed at another position would be recorded under the wrong name.
use vstd::prelude::*;
use crate::names::names_view;

verus! {

/// What an operation is about, and with it which fields its span carries.
#[derive(Clone, Copy, Debug, PartialEq, Eq, Structural)]
pub enum OperationKind {
    /// Work on a pipeline element: a state change, a posted message.
    Element,
    /// Work on a pad: data, events and queries that flow through it.
    Pad,
}

/// The name of the element.
pub const ELEMENT_NAME: &'static str = "gstelement.name";

/// The element's current state.
pub const ELEMENT_STATE: &'static str = "gstelement.state";

/// The state that the element is moving to.
pub const ELEMENT_NEXT_STATE: &'static str = "gstelement.next_state";

/// The type of the message that the element posts, if it posts one.
pub const ELEMENT_MESSAGE_TYPE: &'static str = "gstelement.message.type";

/// The pad's flag bits.
pub const PAD_FLAGS: &'static str = "gstpad.flags";

/// The name of the pad.
pub const PAD_NAME: &'static str = "gstpad.name";

/// The name of the element that owns the pad, if one does.
pub const PAD_PARENT_NAME: &'static str = "gstpad.parent.name";

/// The type of the event that travels through the pad, if one does.
pub const PAD_EVENT_TYPE: &'static str = "gstpad.event.type";

/// The type of the query that travels through the pad, if one does.
pub const PAD_QUERY_TYPE: &'static str = "gstpad.query.type";

/// The ordered field names of spans of the given kind.
pub open spec fn schema(kind: OperationKind) -> Seq<Seq<char>> {
    match kind {
        OperationKind::Element => seq![
            ELEMENT_NAME@,
            ELEMENT_STATE@,
            ELEMENT_NEXT_STATE@,
            ELEMENT_MESSAGE_TYPE@,
        ],
        OperationKind::Pad => seq![
            PAD_FLAGS@,
            PAD_NAME@,
            PAD_PARENT_NAME@,
            PAD_EVENT_TYPE@,
            PAD_QUERY_TYPE@,
        ],
    }
}

/// The ordered field names of spans of the given kind.
pub fn field_names(kind: OperationKind) -> (names: Vec<&'static str>)
    ensures
        names_view(names@) == schema(kind),
{
    let mut names: Vec<&'static str> = Vec::new();
    match kind {
        OperationKind::Element => {
            names.push(ELEMENT_NAME);
            names.push(ELEMENT_STATE);
            names.push(ELEMENT_NEXT_STATE);
            names.push(ELEMENT_MESSAGE_TYPE);
        },
        OperationKind::Pad => {
            names.push(PAD_FLAGS);
            names.push(PAD_NAME);
            names.push(PAD_PARENT_NAME);
            names.push(PAD_EVENT_TYPE);
            names.push(PAD_QUERY_TYPE);
        },
    }
    names
}

/// The lengths of the nine field names, and the characters that tell the two
/// names of equal length apart.
pub(crate) proof fn reveal_field_names()
    ensures
        ELEMENT_NAME@.len() == 15,
        ELEMENT_STATE@.len() == 16,
        ELEMENT_NEXT_STATE@.len() == 21,
        ELEMENT_MESSAGE_TYPE@.len() == 23,
        PAD_FLAGS@.len() == 12,
        PAD_NAME@.len() == 11,
        PAD_PARENT_NAME@.len() == 18,
        PAD_EVENT_TYPE@.len() == 17,
        PAD_QUERY_TYPE@.len() == 17,
        PAD_EVENT_TYPE@[7] == 'e',
        PAD_QUERY_TYPE@[7] == 'q',
{
    reveal_strlit("gstelement.name");
    reveal_strlit("gstelement.state");
    reveal_strlit("gstelement.next_state");
    reveal_strlit("gstelement.message.type");
    reveal_strlit("gstpad.flags");
    reveal_strlit("gstpad.name");
    reveal_strlit("gstpad.parent.name");
    reveal_strlit("gstpad.event.type");
    reveal_strlit("gstpad.query.type");
}

/// No field name occurs twice within a schema, and the two schemas differ.
pub proof fn lemma_schemas_are_distinct()
    ensures
        forall|kind: OperationKind| #[trigger] schema(kind).no_duplicates(),
        schema(OperationKind::Element) != schema(OperationKind::Pad),
{
    reveal_field_names();
}

} // verus!
