//! The record of one hook firing and the field values derived from it.
//!
//! A hook hands over what it knows of the operation: the element or the pad
//! involved, and possibly the event, query or message that triggered it. A
//! [`SpanBuilder`] collects these and, once the backend wants the span,
//! supplies one value per field of the operation's schema, in schema order. A
//! source that is not there gives [`FieldValue::Absent`] at its position:
//! leaving the position out would shift every later value under a wrong name.
use vstd::prelude::*;
use crate::backend::{current_dispatch, declared_fields, dispatch_enabled};
use crate::callsite::{answered, declares, CallsiteHandle, DynamicCallsites, GstCallsite};
use crate::callsite::{Descriptor, GstCallsiteKind, Interest, Level, Signature};
use crate::schema::{field_names, lemma_schemas_are_distinct, reveal_field_names, schema};
use crate::schema::{OperationKind, ELEMENT_MESSAGE_TYPE, ELEMENT_NAME, ELEMENT_NEXT_STATE};
use crate::schema::{ELEMENT_STATE, PAD_EVENT_TYPE, PAD_FLAGS, PAD_NAME, PAD_PARENT_NAME};
use crate::schema::PAD_QUERY_TYPE;
use crate::tracer::{opens, TracingTracerPriv};

verus! {

/// The value supplied for one field of a span.
#[derive(Debug, PartialEq, Eq)]
pub enum FieldValue {
    /// The source of the field is not there; the position is kept.
    Absent,
    /// A textual value.
    Text(String),
    /// A set of flag bits.
    Bits(u32),
}

/// What a span reports of a pipeline element.
#[derive(Debug, PartialEq, Eq)]
pub struct Element {
    pub name: String,
    /// The element's current state, spelled out.
    pub state: String,
    /// The state that the element is moving to, spelled out.
    pub next_state: String,
}

/// What a span reports of a pad.
#[derive(Debug, PartialEq, Eq)]
pub struct Pad {
    pub flags: u32,
    pub name: String,
    /// The name of the element that owns the pad, if one does.
    pub parent_name: Option<String>,
}

/// What a span reports of an event that travels through a pad.
#[derive(Debug, PartialEq, Eq)]
pub struct Event {
    pub type_label: String,
}

/// What a span reports of a query that travels through a pad.
#[derive(Debug, PartialEq, Eq)]
pub struct QueryRef {
    pub type_label: String,
}

/// What a span reports of a message that an element posts.
#[derive(Debug, PartialEq, Eq)]
pub struct Message {
    pub type_label: String,
}

/// The value of a field whose source may be missing.
pub open spec fn optional_text(text: Option<String>) -> FieldValue {
    match text {
        Some(text) => FieldValue::Text(text),
        None => FieldValue::Absent,
    }
}

/// What a [`SpanBuilder`] holds.
pub struct Operation {
    pub name: &'static str,
    pub pad: Option<Pad>,
    pub element: Option<Element>,
    pub event: Option<Event>,
    pub query: Option<QueryRef>,
    pub message: Option<Message>,
}

impl Operation {
    /// An operation is about an element or about a pad, never both or neither.
    pub open spec fn wf(self) -> bool {
        self.pad is Some <==> self.element is None
    }

    /// The kind of the operation, which selects its schema.
    pub open spec fn kind(self) -> OperationKind {
        if self.pad is Some {
            OperationKind::Pad
        } else {
            OperationKind::Element
        }
    }

    /// The signature under which the registry files the spans of this
    /// operation: its name, and the fields of its kind.
    pub open spec fn signature(self) -> Signature {
        Signature { name: self.name@, fields: schema(self.kind()) }
    }

    /// The value that the operation has for the field of the given name.
    pub open spec fn value_of(self, field: Seq<char>) -> FieldValue {
        if field == ELEMENT_NAME@ {
            match self.element {
                Some(element) => FieldValue::Text(element.name),
                None => FieldValue::Absent,
            }
        } else if field == ELEMENT_STATE@ {
            match self.element {
                Some(element) => FieldValue::Text(element.state),
                None => FieldValue::Absent,
            }
        } else if field == ELEMENT_NEXT_STATE@ {
            match self.element {
                Some(element) => FieldValue::Text(element.next_state),
                None => FieldValue::Absent,
            }
        } else if field == ELEMENT_MESSAGE_TYPE@ {
            match self.message {
                Some(message) => FieldValue::Text(message.type_label),
                None => FieldValue::Absent,
            }
        } else if field == PAD_FLAGS@ {
            match self.pad {
                Some(pad) => FieldValue::Bits(pad.flags),
                None => FieldValue::Absent,
            }
        } else if field == PAD_NAME@ {
            match self.pad {
                Some(pad) => FieldValue::Text(pad.name),
                None => FieldValue::Absent,
            }
        } else if field == PAD_PARENT_NAME@ {
            match self.pad {
                Some(pad) => optional_text(pad.parent_name),
                None => FieldValue::Absent,
            }
        } else if field == PAD_EVENT_TYPE@ {
            match self.event {
                Some(event) => FieldValue::Text(event.type_label),
                None => FieldValue::Absent,
            }
        } else if field == PAD_QUERY_TYPE@ {
            match self.query {
                Some(query) => FieldValue::Text(query.type_label),
                None => FieldValue::Absent,
            }
        } else {
            FieldValue::Absent
        }
    }

    /// The values that the operation supplies to its span, in order.
    pub open spec fn values(self) -> Seq<FieldValue> {
        match self.element {
            Some(element) => seq![
                FieldValue::Text(element.name),
                FieldValue::Text(element.state),
                FieldValue::Text(element.next_state),
                match self.message {
                    Some(message) => FieldValue::Text(message.type_label),
                    None => FieldValue::Absent,
                },
            ],
            None => match self.pad {
                Some(pad) => seq![
                    FieldValue::Bits(pad.flags),
                    FieldValue::Text(pad.name),
                    optional_text(pad.parent_name),
                    match self.event {
                        Some(event) => FieldValue::Text(event.type_label),
                        None => FieldValue::Absent,
                    },
                    match self.query {
                        Some(query) => FieldValue::Text(query.type_label),
                        None => FieldValue::Absent,
                    },
                ],
                None => Seq::empty(),
            },
        }
    }
}

/// How this crate asks for the shapes of its spans: as spans reported as
/// errors, targeted at their own name, without a source location.
pub open spec fn traces_errors(shape: Descriptor) -> bool {
    &&& shape.level == Level::Error
    &&& shape.target == shape.name
    &&& shape.file is None
    &&& shape.line is None
    &&& shape.module is None
    &&& shape.kind == GstCallsiteKind::Span
}

/// The values of an operation line up with the fields of its schema: there is
/// one value per declared field, and the value at each position is the one that
/// the operation has for the field declared at that position. This holds
/// whichever of the optional sources are there.
pub proof fn lemma_values_follow_schema(operation: Operation)
    requires
        operation.wf(),
    ensures
        operation.values().len() == schema(operation.kind()).len(),
        forall|i: int|
            0 <= i < schema(operation.kind()).len() ==> operation.values()[i] == operation.value_of(
                #[trigger] schema(operation.kind())[i],
            ),
{
    reveal_field_names();
}

/// Where the backend's metadata declares the schema of an operation's kind, the
/// values of the operation line up with the fields that the backend declared:
/// the list handed to the backend has their number and their order.
pub proof fn lemma_values_follow_declared_fields(
    operation: Operation,
    metadata: &'static tracing_core::metadata::Metadata<'static>,
    name: Seq<char>,
)
    requires
        operation.wf(),
        declares(metadata, name, operation.kind()),
    ensures
        operation.values().len() == declared_fields(*metadata).len(),
        forall|i: int|
            0 <= i < declared_fields(*metadata).len() ==> operation.values()[i]
                == operation.value_of(#[trigger] declared_fields(*metadata)[i]),
{
    lemma_values_follow_schema(operation);
}

/// An operation on an element and an operation on a pad are filed under
/// different signatures even where they share a name: the registry keeps two
/// shapes for them.
pub proof fn lemma_kinds_are_told_apart(first: Operation, second: Operation)
    requires
        first.kind() != second.kind(),
    ensures
        first.signature() != second.signature(),
{
    lemma_schemas_are_distinct();
}

/// Collects what one hook firing knows of its operation.
pub struct SpanBuilder {
    name: &'static str,
    pad: Option<Pad>,
    element: Option<Element>,
    event: Option<Event>,
    query: Option<QueryRef>,
    message: Option<Message>,
}

impl View for SpanBuilder {
    type V = Operation;

    closed spec fn view(&self) -> Operation {
        Operation {
            name: self.name,
            pad: self.pad,
            element: self.element,
            event: self.event,
            query: self.query,
            message: self.message,
        }
    }
}

impl SpanBuilder {
    #[verifier::type_invariant]
    spec fn about_one_object(self) -> bool {
        self.pad is Some <==> self.element is None
    }

    /// Starts the record of an operation on an element.
    pub fn new_element(name: &'static str, element: Element) -> (builder: Self)
        ensures
            builder@ == (Operation {
                name,
                pad: None,
                element: Some(element),
                event: None,
                query: None,
                message: None,
            }),
    {
        Self { name, pad: None, event: None, query: None, element: Some(element), message: None }
    }

    /// Starts the record of an operation on a pad.
    pub fn new_pad(name: &'static str, pad: Pad) -> (builder: Self)
        ensures
            builder@ == (Operation {
                name,
                pad: Some(pad),
                element: None,
                event: None,
                query: None,
                message: None,
            }),
    {
        Self { name, pad: Some(pad), event: None, query: None, element: None, message: None }
    }

    /// Attaches the event that triggered the operation.
    pub fn event(self, event: Event) -> (builder: Self)
        ensures
            builder@ == (Operation { event: Some(event), ..self@ }),
    {
        proof {
            use_type_invariant(&self);
        }
        Self { event: Some(event), ..self }
    }

    /// Attaches the query that triggered the operation.
    pub fn query(self, query: QueryRef) -> (builder: Self)
        ensures
            builder@ == (Operation { query: Some(query), ..self@ }),
    {
        proof {
            use_type_invariant(&self);
        }
        Self { query: Some(query), ..self }
    }

    /// Attaches the message that triggered the operation.
    pub fn message(self, message: Message) -> (builder: Self)
        ensures
            builder@ == (Operation { message: Some(message), ..self@ }),
    {
        proof {
            use_type_invariant(&self);
        }
        Self { message: Some(message), ..self }
    }

    /// The name of the operation.
    pub fn name(&self) -> (name: &'static str)
        ensures
            name == self@.name,
            self@.wf(),
    {
        proof {
            use_type_invariant(self);
        }
        self.name
    }

    /// The kind of the operation.
    pub fn kind(&self) -> (kind: OperationKind)
        ensures
            kind == self@.kind(),
            self@.wf(),
    {
        proof {
            use_type_invariant(self);
        }
        if self.pad.is_some() {
            OperationKind::Pad
        } else {
            OperationKind::Element
        }
    }

    /// Resolves the shape of this operation's spans in the registry: reported
    /// as errors, targeted at the operation's name, without a source location,
    /// and with the fields of the operation's kind.
    pub fn callsite(&self, callsites: &mut DynamicCallsites) -> (handle: CallsiteHandle)
        ensures
            old(callsites).wf() ==> final(callsites).wf(),
            answered(old(callsites)@, final(callsites)@, handle, self@.signature()),
            handle.fresh ==> traces_errors(final(callsites)@.last()),
            handle.index < final(callsites)@.len(),
    {
        callsites.callsite_for(
            Level::Error,
            self.name,
            self.name,
            None,
            None,
            None,
            GstCallsiteKind::Span,
            field_names(self.kind()),
        )
    }

    /// Hands out one value per field of the operation's schema, in schema order.
    pub fn values(self) -> (values: Vec<FieldValue>)
        ensures
            values@ == self@.values(),
            values@.len() == schema(self@.kind()).len(),
            forall|i: int|
                0 <= i < values@.len() ==> values@[i] == self@.value_of(
                    #[trigger] schema(self@.kind())[i],
                ),
    {
        proof {
            use_type_invariant(&self);
            lemma_values_follow_schema(self@);
        }
        let SpanBuilder { name: _, pad, element, event, query, message } = self;
        let mut values: Vec<FieldValue> = Vec::new();
        if let Some(element) = element {
            values.push(FieldValue::Text(element.name));
            values.push(FieldValue::Text(element.state));
            values.push(FieldValue::Text(element.next_state));
            values.push(
                match message {
                    Some(message) => FieldValue::Text(message.type_label),
                    None => FieldValue::Absent,
                },
            );
        } else if let Some(pad) = pad {
            values.push(FieldValue::Bits(pad.flags));
            values.push(FieldValue::Text(pad.name));
            values.push(
                match pad.parent_name {
                    Some(name) => FieldValue::Text(name),
                    None => FieldValue::Absent,
                },
            );
            values.push(
                match event {
                    Some(event) => FieldValue::Text(event.type_label),
                    None => FieldValue::Absent,
                },
            );
            values.push(
                match query {
                    Some(query) => FieldValue::Text(query.type_label),
                    None => FieldValue::Absent,
                },
            );
        }
        values
    }

    /// Whether a span is owed, as far as this crate decides it: the backend
    /// has not ruled the shape out, and the shape is the one of this operation.
    pub open spec fn admits(operation: Operation, site: GstCallsite, interest: Interest) -> bool {
        &&& interest != Interest::Never
        &&& site@.name == operation.name@
        &&& site@.kind == operation.kind()
    }

    /// Opens the span of this operation on the calling thread's tracer, if the
    /// backend wants it.
    ///
    /// Nothing is asked of the backend, and nothing changes, where the cached
    /// interest is `Never` or where `site` is the shape of another operation.
    /// Otherwise the current dispatcher is fetched and asked whether the shape
    /// is enabled; what follows from its answer is [`SpanBuilder::open_on`].
    pub fn build(self, site: &GstCallsite, interest: Interest, tracer: &mut TracingTracerPriv) -> (opened:
        bool)
        ensures
            opened ==> Self::admits(self@, *site, interest),
            opened ==> exists|dispatch: tracing_core::dispatcher::Dispatch|
                #[trigger] opens(old(tracer)@, final(tracer)@, dispatch),
            !opened ==> final(tracer)@ == old(tracer)@,
    {
        match interest {
            Interest::Never => {
                return false;
            },
            _ => {},
        }
        if !site.describes(self.name(), self.kind()) {
            return false;
        }
        let dispatch = current_dispatch();
        let enabled = dispatch_enabled(&dispatch, site.metadata());
        self.open_on(site, dispatch, enabled, tracer)
    }

    /// Opens the span of this operation through the given dispatcher exactly
    /// where that dispatcher has enabled the shape and the shape has the fields
    /// of this operation's kind: the values are handed to the backend in schema
    /// order, and the new span is entered and recorded on top of the tracer's
    /// stack together with the dispatcher.
    pub fn open_on(
        self,
        site: &GstCallsite,
        dispatch: tracing_core::dispatcher::Dispatch,
        enabled: bool,
        tracer: &mut TracingTracerPriv,
    ) -> (opened: bool)
        ensures
            opened == (enabled && site@.kind == self@.kind()),
            opened ==> opens(old(tracer)@, final(tracer)@, dispatch),
            !opened ==> final(tracer)@ == old(tracer)@,
    {
        if !enabled || site.kind() != self.kind() {
            return false;
        }
        let values = self.values();
        tracer.push_span(dispatch, site, &values);
        true
    }
}

} // verus!
