//! The stack of entered spans of one thread, and the table of hooks.
//!
//! Each "before" hook may open a span; the matching "after" hook, which the
//! pipeline delivers on the same thread, closes the span that is on top of the
//! thread's stack. Operations nest (a query may be answered while a buffer is
//! pushed), so the stack mirrors the nesting depth. One [`TracingTracerPriv`]
//! is the state of one thread: the embedding keeps one per worker thread and
//! never shares it.
//!
//! An "after" hook never asks the backend whether the span was wanted: it pops
//! what is there, and does nothing on an empty stack. So a hook pair whose
//! "before" was declined leaves an empty stack empty.
use vstd::prelude::*;
use crate::backend::{enter_span, exit_span, new_root_span, try_close_span};
use crate::callsite::{answered, CallsiteHandle, DynamicCallsites, GstCallsite, GstCallsiteKind};
use crate::callsite::{Interest, Level, Signature};
use crate::operation::{traces_errors, Element, Event, FieldValue, Message, Operation, Pad};
use crate::operation::{QueryRef, SpanBuilder};
use crate::schema::{field_names, schema, OperationKind};

verus! {

/// What an [`EnteredSpan`] stands for.
pub struct Entry {
    /// The identity that the backend gave to the span; never zero.
    pub id: u64,
    /// The dispatcher that opened the span, and that alone may close it.
    pub dispatch: tracing_core::dispatcher::Dispatch,
}

/// A span that has been entered and not yet exited.
///
/// The dispatcher is kept with the span: the process may install another
/// default dispatcher before the span ends, and the span must be closed by the
/// one that opened it.
pub struct EnteredSpan {
    id: u64,
    dispatch: tracing_core::dispatcher::Dispatch,
}

impl View for EnteredSpan {
    type V = Entry;

    closed spec fn view(&self) -> Entry {
        Entry { id: self.id, dispatch: self.dispatch }
    }
}

impl EnteredSpan {
    #[verifier::type_invariant]
    spec fn identified(self) -> bool {
        self.id != 0
    }

    /// The identity of the span.
    pub fn id(&self) -> (id: u64)
        ensures
            id == self@.id,
            id != 0,
    {
        proof {
            use_type_invariant(self);
        }
        self.id
    }

    /// Tells the dispatcher that opened the span that the span is exited, then
    /// lets it release the span. Returns whether the backend now holds the span
    /// closed.
    pub fn close(self) -> (released: bool) {
        proof {
            use_type_invariant(&self);
        }
        exit_span(&self.dispatch, self.id);
        try_close_span(&self.dispatch, self.id)
    }
}

/// `after` is `before` with one more span on top, opened by `dispatch`.
pub open spec fn opens(
    before: Seq<Entry>,
    after: Seq<Entry>,
    dispatch: tracing_core::dispatcher::Dispatch,
) -> bool {
    &&& after.len() == before.len() + 1
    &&& after.drop_last() == before
    &&& after.last().dispatch == dispatch
    &&& after.last().id != 0
}

/// The stack after an "after" hook: without its top, or still empty.
pub open spec fn closed_top(stack: Seq<Entry>) -> Seq<Entry> {
    if stack.len() == 0 {
        stack
    } else {
        stack.drop_last()
    }
}

/// What one hook firing did, as far as the stack is concerned.
pub enum Step {
    /// A "before" hook whose span the backend wanted.
    Opened(Entry),
    /// A "before" hook whose span the backend declined.
    Declined,
    /// An "after" hook.
    Closed,
}

/// The stack after one hook firing.
pub open spec fn step(stack: Seq<Entry>, fired: Step) -> Seq<Entry> {
    match fired {
        Step::Opened(entry) => stack.push(entry),
        Step::Declined => stack,
        Step::Closed => closed_top(stack),
    }
}

/// The stack after a run of hook firings.
pub open spec fn run(stack: Seq<Entry>, fired: Seq<Step>) -> Seq<Entry>
    decreases fired.len(),
{
    if fired.len() == 0 {
        stack
    } else {
        step(run(stack, fired.drop_last()), fired.last())
    }
}

/// How many operations are under way after a run of hook firings: the "before"
/// hooks minus the "after" hooks.
pub open spec fn nesting(fired: Seq<Step>) -> int
    decreases fired.len(),
{
    if fired.len() == 0 {
        0
    } else {
        nesting(fired.drop_last()) + if fired.last() is Closed {
            -1int
        } else {
            1int
        }
    }
}

/// No "after" hook comes before its "before" hook.
pub open spec fn paired(fired: Seq<Step>) -> bool {
    forall|k: int| 0 <= k <= fired.len() ==> nesting(#[trigger] fired.take(k)) >= 0
}

/// Every operation that began has ended, each "after" hook following its
/// "before" hook.
pub open spec fn complete(fired: Seq<Step>) -> bool {
    paired(fired) && nesting(fired) == 0
}

/// Every "before" hook of the run opened a span.
pub open spec fn all_opened(fired: Seq<Step>) -> bool {
    forall|i: int| 0 <= i < fired.len() ==> !(#[trigger] fired[i] is Declined)
}

/// What the hooks promise of the stack is a step of this model: a "before" hook
/// that opened a span pushed the span that is now on top, and an "after" hook
/// took the top away.
pub proof fn lemma_hooks_are_steps(
    before: Seq<Entry>,
    after: Seq<Entry>,
    dispatch: tracing_core::dispatcher::Dispatch,
)
    ensures
        opens(before, after, dispatch) ==> after == step(before, Step::Opened(after.last())),
        step(before, Step::Declined) == before,
        step(before, Step::Closed) == closed_top(before),
{
}

/// An "after" hook undoes the "before" hook that opened a span: the stack is
/// again what it was, depth and contents.
pub proof fn lemma_close_undoes_open(stack: Seq<Entry>, entry: Entry)
    ensures
        closed_top(stack.push(entry)) == stack,
        run(stack, seq![Step::Opened(entry), Step::Closed]) == stack,
{
    let pair = seq![Step::Opened(entry), Step::Closed];
    assert(run(stack, pair.drop_last().drop_last()) == stack);
    assert(run(stack, pair.drop_last()) == stack.push(entry));
}

/// What is paired stays paired when its last firing is left out.
proof fn lemma_paired_prefix(fired: Seq<Step>)
    requires
        paired(fired),
        fired.len() > 0,
    ensures
        paired(fired.drop_last()),
        nesting(fired) >= 0,
{
    let shorter = fired.drop_last();
    assert forall|k: int| 0 <= k <= shorter.len() implies nesting(#[trigger] shorter.take(k))
        >= 0 by {
        assert(shorter.take(k) =~= fired.take(k));
    }
    assert(fired.take(fired.len() as int) =~= fired);
}

/// While every "before" hook opens a span, the stack holds what it held at the
/// start and, above that, one span for each operation under way.
pub proof fn lemma_stack_mirrors_nesting(stack: Seq<Entry>, fired: Seq<Step>)
    requires
        paired(fired),
        all_opened(fired),
    ensures
        run(stack, fired).len() == stack.len() + nesting(fired),
        run(stack, fired).take(stack.len() as int) == stack,
    decreases fired.len(),
{
    if fired.len() > 0 {
        let shorter = fired.drop_last();
        lemma_paired_prefix(fired);
        assert forall|i: int| 0 <= i < shorter.len() implies !(#[trigger] shorter[i] is Declined) by {}
        lemma_stack_mirrors_nesting(stack, shorter);
    }
}

/// Whenever every "before" hook of a run opened a span and every operation of
/// the run has ended, the stack is back at what it was before the run, however
/// deeply the operations were nested and whatever the stack held at the start.
pub proof fn lemma_complete_run_restores_stack(stack: Seq<Entry>, fired: Seq<Step>)
    requires
        complete(fired),
        all_opened(fired),
    ensures
        run(stack, fired) == stack,
{
    lemma_stack_mirrors_nesting(stack, fired);
}

/// On a stack that was empty at the start, no more spans are open than
/// operations are under way, whichever "before" hooks were declined.
pub proof fn lemma_depth_bounded_by_nesting(fired: Seq<Step>)
    requires
        paired(fired),
    ensures
        run(Seq::empty(), fired).len() <= nesting(fired),
    decreases fired.len(),
{
    if fired.len() > 0 {
        lemma_paired_prefix(fired);
        lemma_depth_bounded_by_nesting(fired.drop_last());
    }
}

/// A hook pair whose "before" was declined leaves an empty stack empty: the
/// "before" hook pushes nothing, and the "after" hook finds nothing to pop.
/// More generally, once every operation of a run has ended, a stack that was
/// empty at the start is empty again, whichever "before" hooks were declined.
pub proof fn lemma_declined_pair_keeps_empty_stack(fired: Seq<Step>)
    requires
        complete(fired),
    ensures
        run(Seq::empty(), fired) == Seq::<Entry>::empty(),
        run(Seq::empty(), seq![Step::Declined, Step::Closed]) == Seq::<Entry>::empty(),
{
    lemma_depth_bounded_by_nesting(fired);
    let pair = seq![Step::Declined, Step::Closed];
    assert(run(Seq::empty(), pair.drop_last().drop_last()) == Seq::<Entry>::empty());
    assert(run(Seq::empty(), pair.drop_last()) == Seq::<Entry>::empty());
}

/// Under a span that is still open, the "after" hook of a declined operation
/// closes that outer span: it cannot tell that its own "before" pushed nothing.
pub proof fn lemma_declined_pair_closes_outer_span(stack: Seq<Entry>, outer: Entry)
    ensures
        run(stack.push(outer), seq![Step::Declined, Step::Closed]) == stack,
{
    let pair = seq![Step::Declined, Step::Closed];
    assert(run(stack.push(outer), pair.drop_last().drop_last()) == stack.push(outer));
    assert(run(stack.push(outer), pair.drop_last()) == stack.push(outer));
}

/// The operation in which an element posts a message.
pub const MESSAGE: &'static str = "message";

/// The operation in which an element changes its state.
pub const ELEMENT_STATE_CHANGE: &'static str = "element_state";

/// The operation in which a buffer is handed to a pad's chain function.
pub const PAD_CHAIN: &'static str = "pad_chain";

/// The operation in which a buffer is pushed through a pad.
pub const PAD_PUSH: &'static str = "pad_push";

/// The operation in which a list of buffers is pushed through a pad.
pub const PAD_PUSH_LIST: &'static str = "pad_push_list";

/// The operation in which a query is sent through a pad.
pub const PAD_QUERY: &'static str = "pad_query";

/// The operation in which an event is pushed through a pad.
pub const PAD_EVENT: &'static str = "pad_event";

/// The operation in which a range of data is pulled through a pad.
pub const PAD_PULL_RANGE: &'static str = "pad_pull_range";

/// The points at which the pipeline calls the tracer.
#[derive(Clone, Copy, Debug, PartialEq, Eq, Structural)]
pub enum TracerHook {
    PadPushPre,
    PadPushPost,
    PadPushListPre,
    PadPushListPost,
    PadQueryPre,
    PadQueryPost,
    PadPushEventPre,
    PadPushEventPost,
    PadPullRangePre,
    PadPullRangePost,
    ElementChangeStatePre,
    ElementChangeStatePost,
    ElementPostMessagePre,
    ElementPostMessagePost,
    PadChainPre,
    PadChainPost,
}

/// The name and the kind of a traced operation.
#[derive(Clone, Copy, Debug)]
pub struct Traced {
    pub name: &'static str,
    pub kind: OperationKind,
}

impl Traced {
    /// The signature under which the registry files the spans of the
    /// operation: its name, and the fields of its kind.
    pub open spec fn signature(self) -> Signature {
        Signature { name: self.name@, fields: schema(self.kind) }
    }
}

impl TracerHook {
    /// The operation that a "before" hook begins; `None` for an "after" hook.
    pub open spec fn begins(self) -> Option<Traced> {
        match self {
            TracerHook::PadPushPre => Some(Traced { name: PAD_PUSH, kind: OperationKind::Pad }),
            TracerHook::PadPushListPre => Some(
                Traced { name: PAD_PUSH_LIST, kind: OperationKind::Pad },
            ),
            TracerHook::PadQueryPre => Some(Traced { name: PAD_QUERY, kind: OperationKind::Pad }),
            TracerHook::PadPushEventPre => Some(
                Traced { name: PAD_EVENT, kind: OperationKind::Pad },
            ),
            TracerHook::PadPullRangePre => Some(
                Traced { name: PAD_PULL_RANGE, kind: OperationKind::Pad },
            ),
            TracerHook::PadChainPre => Some(Traced { name: PAD_CHAIN, kind: OperationKind::Pad }),
            TracerHook::ElementChangeStatePre => Some(
                Traced { name: ELEMENT_STATE_CHANGE, kind: OperationKind::Element },
            ),
            TracerHook::ElementPostMessagePre => Some(
                Traced { name: MESSAGE, kind: OperationKind::Element },
            ),
            _ => None,
        }
    }

    /// The "after" hook that ends what a "before" hook begins; `None` for an
    /// "after" hook.
    pub open spec fn ended_by(self) -> Option<TracerHook> {
        match self {
            TracerHook::PadPushPre => Some(TracerHook::PadPushPost),
            TracerHook::PadPushListPre => Some(TracerHook::PadPushListPost),
            TracerHook::PadQueryPre => Some(TracerHook::PadQueryPost),
            TracerHook::PadPushEventPre => Some(TracerHook::PadPushEventPost),
            TracerHook::PadPullRangePre => Some(TracerHook::PadPullRangePost),
            TracerHook::PadChainPre => Some(TracerHook::PadChainPost),
            TracerHook::ElementChangeStatePre => Some(TracerHook::ElementChangeStatePost),
            TracerHook::ElementPostMessagePre => Some(TracerHook::ElementPostMessagePost),
            _ => None,
        }
    }

    /// The operation that this hook begins, if it is a "before" hook.
    pub fn operation(self) -> (traced: Option<Traced>)
        ensures
            traced == self.begins(),
    {
        match self {
            TracerHook::PadPushPre => Some(Traced { name: PAD_PUSH, kind: OperationKind::Pad }),
            TracerHook::PadPushListPre => Some(
                Traced { name: PAD_PUSH_LIST, kind: OperationKind::Pad },
            ),
            TracerHook::PadQueryPre => Some(Traced { name: PAD_QUERY, kind: OperationKind::Pad }),
            TracerHook::PadPushEventPre => Some(
                Traced { name: PAD_EVENT, kind: OperationKind::Pad },
            ),
            TracerHook::PadPullRangePre => Some(
                Traced { name: PAD_PULL_RANGE, kind: OperationKind::Pad },
            ),
            TracerHook::PadChainPre => Some(Traced { name: PAD_CHAIN, kind: OperationKind::Pad }),
            TracerHook::ElementChangeStatePre => Some(
                Traced { name: ELEMENT_STATE_CHANGE, kind: OperationKind::Element },
            ),
            TracerHook::ElementPostMessagePre => Some(
                Traced { name: MESSAGE, kind: OperationKind::Element },
            ),
            _ => None,
        }
    }

    /// The "after" hook that ends what this hook begins, if it is a "before"
    /// hook.
    pub fn closing(self) -> (hook: Option<TracerHook>)
        ensures
            hook == self.ended_by(),
            hook is Some <==> self.begins() is Some,
    {
        match self {
            TracerHook::PadPushPre => Some(TracerHook::PadPushPost),
            TracerHook::PadPushListPre => Some(TracerHook::PadPushListPost),
            TracerHook::PadQueryPre => Some(TracerHook::PadQueryPost),
            TracerHook::PadPushEventPre => Some(TracerHook::PadPushEventPost),
            TracerHook::PadPullRangePre => Some(TracerHook::PadPullRangePost),
            TracerHook::PadChainPre => Some(TracerHook::PadChainPost),
            TracerHook::ElementChangeStatePre => Some(TracerHook::ElementChangeStatePost),
            TracerHook::ElementPostMessagePre => Some(TracerHook::ElementPostMessagePost),
            _ => None,
        }
    }

    /// Resolves in the registry the shape of the spans that this hook opens:
    /// reported as errors, targeted at the operation's name, without a source
    /// location, and with the fields of the operation's kind. An "after" hook
    /// opens no span and leaves the registry alone.
    pub fn callsite(self, callsites: &mut DynamicCallsites) -> (handle: Option<CallsiteHandle>)
        ensures
            old(callsites).wf() ==> final(callsites).wf(),
            match self.begins() {
                Some(traced) => {
                    &&& handle matches Some(found)
                    &&& answered(old(callsites)@, final(callsites)@, found, traced.signature())
                    &&& found.fresh ==> traces_errors(final(callsites)@.last())
                    &&& found.index < final(callsites)@.len()
                },
                None => handle is None && final(callsites)@ == old(callsites)@,
            },
    {
        match self.operation() {
            Some(traced) => Some(
                callsites.callsite_for(
                    Level::Error,
                    traced.name,
                    traced.name,
                    None,
                    None,
                    None,
                    GstCallsiteKind::Span,
                    field_names(traced.kind),
                ),
            ),
            None => None,
        }
    }
}

/// The hooks that a tracer registers with the pipeline, in registration order.
pub open spec fn hook_table() -> Seq<TracerHook> {
    seq![
        TracerHook::PadPushPost,
        TracerHook::PadPushPre,
        TracerHook::PadPushListPost,
        TracerHook::PadPushListPre,
        TracerHook::PadQueryPost,
        TracerHook::PadQueryPre,
        TracerHook::PadPushEventPost,
        TracerHook::PadPushEventPre,
        TracerHook::PadPullRangePost,
        TracerHook::PadPullRangePre,
        TracerHook::ElementChangeStatePre,
        TracerHook::ElementChangeStatePost,
        TracerHook::ElementPostMessagePre,
        TracerHook::ElementPostMessagePost,
        TracerHook::PadChainPre,
        TracerHook::PadChainPost,
    ]
}

/// Every hook is registered, each once, and with every "before" hook the
/// "after" hook that ends its operation: no span that a registered hook opens
/// is left without a hook to close it.
pub proof fn lemma_hooks_come_in_pairs()
    ensures
        hook_table().no_duplicates(),
        forall|hook: TracerHook| hook_table().contains(hook),
        forall|hook: TracerHook|
            (#[trigger] hook.ended_by()) matches Some(after) ==> (hook_table().contains(after)
                && after.begins() is None),
        forall|hook: TracerHook| (#[trigger] hook.begins()) is Some <==> hook.ended_by() is Some,
{
}

/// What a "before" hook promises: a span is opened only where the backend has
/// not ruled the shape out and `site` is the shape of the hook's operation, and
/// then it is one span, on top of the stack; else the stack stays as it is.
pub open spec fn begun(
    before: Seq<Entry>,
    after: Seq<Entry>,
    opened: bool,
    site: GstCallsite,
    interest: Interest,
    hook: TracerHook,
) -> bool {
    &&& opened ==> interest != Interest::Never
    &&& opened ==> (hook.begins() matches Some(traced) && site@.name == traced.name@ && site@.kind
        == traced.kind)
    &&& opened ==> exists|dispatch: tracing_core::dispatcher::Dispatch|
        #[trigger] opens(before, after, dispatch)
    &&& !opened ==> after == before
}

/// The state of the tracer on one thread: the spans that "before" hooks have
/// entered and "after" hooks have not yet closed, oldest first.
pub struct TracingTracerPriv {
    span_stack: Vec<EnteredSpan>,
}

impl View for TracingTracerPriv {
    type V = Seq<Entry>;

    closed spec fn view(&self) -> Seq<Entry> {
        Seq::new(self.span_stack@.len(), |i: int| self.span_stack@[i]@)
    }
}

impl TracingTracerPriv {
    /// A tracer with no span open.
    pub fn new() -> (tracer: Self)
        ensures
            tracer@ == Seq::<Entry>::empty(),
    {
        Self { span_stack: Vec::new() }
    }

    /// The hooks to register with the pipeline, in registration order.
    pub fn constructed(&self) -> (hooks: Vec<TracerHook>)
        ensures
            hooks@ == hook_table(),
    {
        let mut hooks: Vec<TracerHook> = Vec::new();
        hooks.push(TracerHook::PadPushPost);
        hooks.push(TracerHook::PadPushPre);
        hooks.push(TracerHook::PadPushListPost);
        hooks.push(TracerHook::PadPushListPre);
        hooks.push(TracerHook::PadQueryPost);
        hooks.push(TracerHook::PadQueryPre);
        hooks.push(TracerHook::PadPushEventPost);
        hooks.push(TracerHook::PadPushEventPre);
        hooks.push(TracerHook::PadPullRangePost);
        hooks.push(TracerHook::PadPullRangePre);
        hooks.push(TracerHook::ElementChangeStatePre);
        hooks.push(TracerHook::ElementChangeStatePost);
        hooks.push(TracerHook::ElementPostMessagePre);
        hooks.push(TracerHook::ElementPostMessagePost);
        hooks.push(TracerHook::PadChainPre);
        hooks.push(TracerHook::PadChainPost);
        hooks
    }

    /// The number of spans that are open.
    pub fn depth(&self) -> (depth: usize)
        ensures
            depth == self@.len(),
    {
        self.span_stack.len()
    }

    /// The identities of the open spans, oldest first.
    pub fn span_ids(&self) -> (ids: Vec<u64>)
        ensures
            ids@.len() == self@.len(),
            forall|i: int| 0 <= i < ids@.len() ==> ids@[i] == self@[i].id,
    {
        let mut ids: Vec<u64> = Vec::new();
        let mut i: usize = 0;
        while i < self.span_stack.len()
            invariant
                i <= self.span_stack.len(),
                ids@.len() == i,
                forall|j: int| 0 <= j < i ==> ids@[j] == self.span_stack@[j]@.id,
            decreases self.span_stack.len() - i,
        {
            ids.push(self.span_stack[i].id());
            i += 1;
        }
        ids
    }

    /// Enters the span with the given identity on the dispatcher that opened
    /// it, and records both on top of the stack.
    pub fn enter(&mut self, dispatch: tracing_core::dispatcher::Dispatch, id: u64)
        requires
            id != 0,
        ensures
            final(self)@ == old(self)@.push(Entry { id, dispatch }),
    {
        enter_span(&dispatch, id);
        self.span_stack.push(EnteredSpan { id, dispatch });
    }

    /// Has the dispatcher open a root span of the shape `site` with the given
    /// values, one for each field that the shape declares and in declared
    /// order, then enters the span and records it on top of the stack.
    pub fn push_span(
        &mut self,
        dispatch: tracing_core::dispatcher::Dispatch,
        site: &GstCallsite,
        values: &Vec<FieldValue>,
    )
        requires
            values@.len() == schema(site@.kind).len(),
        ensures
            opens(old(self)@, final(self)@, dispatch),
    {
        let span_id = new_root_span(&dispatch, site.metadata(), values);
        self.enter(dispatch, span_id);
        assert(self@.drop_last() =~= old(self)@);
    }

    /// Closes the span on top of the stack, through the dispatcher that opened
    /// it. On an empty stack this does nothing and returns `None`.
    pub fn pop_span(&mut self) -> (popped: Option<()>)
        ensures
            final(self)@ == closed_top(old(self)@),
            popped is Some <==> old(self)@.len() > 0,
    {
        match self.span_stack.pop() {
            Some(span) => {
                span.close();
                Some(())
            },
            None => None,
        }
    }

    /// Begins an operation on a pad.
    pub fn pad_pre(
        &mut self,
        site: &GstCallsite,
        interest: Interest,
        name: &'static str,
        pad: Pad,
    ) -> (opened: bool)
        ensures
            opened ==> SpanBuilder::admits(
                Operation {
                    name,
                    pad: Some(pad),
                    element: None,
                    event: None,
                    query: None,
                    message: None,
                },
                *site,
                interest,
            ),
            opened ==> exists|dispatch: tracing_core::dispatcher::Dispatch|
                #[trigger] opens(old(self)@, final(self)@, dispatch),
            !opened ==> final(self)@ == old(self)@,
    {
        let builder = SpanBuilder::new_pad(name, pad);
        builder.build(site, interest, self)
    }

    /// An element is about to post a message.
    pub fn element_post_message_pre(
        &mut self,
        site: &GstCallsite,
        interest: Interest,
        ts: u64,
        element: Element,
        message: Message,
    ) -> (opened: bool)
        ensures
            begun(
                old(self)@,
                final(self)@,
                opened,
                *site,
                interest,
                TracerHook::ElementPostMessagePre,
            ),
    {
        SpanBuilder::new_element(MESSAGE, element).message(message).build(site, interest, self)
    }

    /// An element is about to change its state.
    pub fn element_change_state_pre(
        &mut self,
        site: &GstCallsite,
        interest: Interest,
        ts: u64,
        element: Element,
    ) -> (opened: bool)
        ensures
            begun(
                old(self)@,
                final(self)@,
                opened,
                *site,
                interest,
                TracerHook::ElementChangeStatePre,
            ),
    {
        SpanBuilder::new_element(ELEMENT_STATE_CHANGE, element).build(site, interest, self)
    }

    /// A buffer is about to be handed to a pad's chain function.
    pub fn pad_chain_pre(&mut self, site: &GstCallsite, interest: Interest, ts: u64, pad: Pad) -> (opened:
        bool)
        ensures
            begun(old(self)@, final(self)@, opened, *site, interest, TracerHook::PadChainPre),
    {
        self.pad_pre(site, interest, PAD_CHAIN, pad)
    }

    /// A buffer is about to be pushed through a pad.
    pub fn pad_push_pre(&mut self, site: &GstCallsite, interest: Interest, ts: u64, pad: Pad) -> (opened:
        bool)
        ensures
            begun(old(self)@, final(self)@, opened, *site, interest, TracerHook::PadPushPre),
    {
        self.pad_pre(site, interest, PAD_PUSH, pad)
    }

    /// A list of buffers is about to be pushed through a pad.
    pub fn pad_push_list_pre(
        &mut self,
        site: &GstCallsite,
        interest: Interest,
        ts: u64,
        pad: Pad,
    ) -> (opened: bool)
        ensures
            begun(old(self)@, final(self)@, opened, *site, interest, TracerHook::PadPushListPre),
    {
        self.pad_pre(site, interest, PAD_PUSH_LIST, pad)
    }

    /// A query is about to be sent through a pad.
    pub fn pad_query_pre(
        &mut self,
        site: &GstCallsite,
        interest: Interest,
        ts: u64,
        pad: Pad,
        query: QueryRef,
    ) -> (opened: bool)
        ensures
            begun(old(self)@, final(self)@, opened, *site, interest, TracerHook::PadQueryPre),
    {
        SpanBuilder::new_pad(PAD_QUERY, pad).query(query).build(site, interest, self)
    }

    /// An event is about to be pushed through a pad.
    pub fn pad_push_event_pre(
        &mut self,
        site: &GstCallsite,
        interest: Interest,
        ts: u64,
        pad: Pad,
        event: Event,
    ) -> (opened: bool)
        ensures
            begun(old(self)@, final(self)@, opened, *site, interest, TracerHook::PadPushEventPre),
    {
        SpanBuilder::new_pad(PAD_EVENT, pad).event(event).build(site, interest, self)
    }

    /// A range of data is about to be pulled through a pad.
    pub fn pad_pull_range_pre(
        &mut self,
        site: &GstCallsite,
        interest: Interest,
        ts: u64,
        pad: Pad,
        offset: u64,
        size: u32,
    ) -> (opened: bool)
        ensures
            begun(old(self)@, final(self)@, opened, *site, interest, TracerHook::PadPullRangePre),
    {
        self.pad_pre(site, interest, PAD_PULL_RANGE, pad)
    }

    /// A range of data has been pulled through a pad.
    pub fn pad_pull_range_post(&mut self, ts: u64)
        ensures
            final(self)@ == closed_top(old(self)@),
    {
        self.pop_span();
    }

    /// An event has been pushed through a pad.
    pub fn pad_push_event_post(&mut self, ts: u64, success: bool)
        ensures
            final(self)@ == closed_top(old(self)@),
    {
        self.pop_span();
    }

    /// A list of buffers has been pushed through a pad.
    pub fn pad_push_list_post(&mut self, ts: u64)
        ensures
            final(self)@ == closed_top(old(self)@),
    {
        self.pop_span();
    }

    /// A buffer has been pushed through a pad.
    pub fn pad_push_post(&mut self, ts: u64)
        ensures
            final(self)@ == closed_top(old(self)@),
    {
        self.pop_span();
    }

    /// A pad's chain function has returned.
    pub fn pad_chain_post(&mut self, ts: u64)
        ensures
            final(self)@ == closed_top(old(self)@),
    {
        self.pop_span();
    }

    /// A query has been answered.
    pub fn pad_query_post(&mut self, ts: u64, success: bool)
        ensures
            final(self)@ == closed_top(old(self)@),
    {
        self.pop_span();
    }

    /// An element has changed its state, or failed to.
    pub fn element_change_state_post(&mut self, ts: u64)
        ensures
            final(self)@ == closed_top(old(self)@),
    {
        self.pop_span();
    }

    /// An element has posted a message, or failed to.
    pub fn element_post_message_post(&mut self, ts: u64, success: bool)
        ensures
            final(self)@ == closed_top(old(self)@),
    {
        self.pop_span();
    }
}

} // verus!
