//! The registry of span shapes, and the binding of a shape to the backend.
//!
//! The backend expects every distinct span shape to have one stable identity.
//! Here the shapes are only known once a hook fires, so they are interned on
//! first use: [`DynamicCallsites`] keeps one [`Descriptor`] per signature (a
//! name together with an ordered list of field names), never drops or changes
//! one, and hands out its position as its identity.
//!
//! The registry is plain data and takes no lock of its own. A process shares
//! one behind a lock that is held for the whole of each request; the requests
//! of all threads then form one sequence, and what is proved here of sequences
//! of requests holds of them: however the threads interleave, there is one
//! shape per signature.
//!
//! A [`GstCallsite`] ties such a shape to the metadata under which the backend
//! knows it, after checking that the backend declares the same name and the
//! same fields in the same order.
use vstd::prelude::*;
use crate::backend::{declared_fields, declared_name, metadata_field_names, metadata_name};
use crate::names::{names_view, same_names, same_text};
use crate::schema::{field_names, schema, OperationKind};

verus! {

/// The severity under which spans of a shape are reported.
#[derive(Clone, Copy, Debug, PartialEq, Eq, Structural)]
pub enum Level {
    Trace,
    Debug,
    Info,
    Warn,
    Error,
}

/// Whether a shape describes spans or single events.
#[derive(Clone, Copy, Debug, PartialEq, Eq, Structural)]
pub enum GstCallsiteKind {
    Span,
    Event,
}

/// The backend's cached, coarse answer to "could anybody care about this
/// shape?".
#[derive(Clone, Copy, Debug, PartialEq, Eq, Structural)]
pub enum Interest {
    /// No subscriber wants it: skip all further work.
    Never,
    /// Some subscriber may want it: ask the dispatcher.
    Sometimes,
    /// Every subscriber wants it.
    Always,
}

impl Interest {
    /// The number under which a cache keeps this interest.
    pub open spec fn cached(self) -> u8 {
        match self {
            Interest::Never => 0,
            Interest::Sometimes => 1,
            Interest::Always => 2,
        }
    }

    /// The interest that a cached number stands for. A number that no interest
    /// is kept under reads as `Sometimes`, which leaves the decision to the
    /// dispatcher.
    pub open spec fn of_cached(code: u8) -> Interest {
        if code == 0 {
            Interest::Never
        } else if code == 2 {
            Interest::Always
        } else {
            Interest::Sometimes
        }
    }

    /// The interest that the backend expresses by its two answers: whether it
    /// never wants the shape, and whether it always wants it. `never` wins.
    pub fn from_answers(never: bool, always: bool) -> (interest: Interest)
        ensures
            interest == if never {
                Interest::Never
            } else if always {
                Interest::Always
            } else {
                Interest::Sometimes
            },
    {
        if never {
            Interest::Never
        } else if always {
            Interest::Always
        } else {
            Interest::Sometimes
        }
    }

    /// The number under which a cache keeps this interest.
    pub fn code(self) -> (code: u8)
        ensures
            code == self.cached(),
            Interest::of_cached(code) == self,
    {
        match self {
            Interest::Never => 0,
            Interest::Sometimes => 1,
            Interest::Always => 2,
        }
    }

    /// The interest that a cached number stands for.
    pub fn from_code(code: u8) -> (interest: Interest)
        ensures
            interest == Interest::of_cached(code),
    {
        if code == 0 {
            Interest::Never
        } else if code == 2 {
            Interest::Always
        } else {
            Interest::Sometimes
        }
    }
}

/// One span shape, as it was first asked for.
#[derive(Debug)]
pub struct Descriptor {
    pub level: Level,
    pub name: &'static str,
    pub target: &'static str,
    pub file: Option<&'static str>,
    pub line: Option<u32>,
    pub module: Option<&'static str>,
    pub kind: GstCallsiteKind,
    pub fields: Vec<&'static str>,
}

/// What identifies a shape: its name and its field names, in order.
pub struct Signature {
    pub name: Seq<char>,
    pub fields: Seq<Seq<char>>,
}

impl Descriptor {
    /// The signature under which the registry files this shape.
    pub open spec fn signature(&self) -> Signature {
        Signature { name: self.name@, fields: names_view(self.fields@) }
    }
}

/// The signatures of a list of shapes, in order.
pub open spec fn signatures(entries: Seq<Descriptor>) -> Seq<Signature> {
    Seq::new(entries.len(), |i: int| entries[i].signature())
}

/// The position of the first shape with the given signature, if there is one.
pub open spec fn position(entries: Seq<Descriptor>, signature: Signature) -> Option<int>
    decreases entries.len(),
{
    if entries.len() == 0 {
        None
    } else {
        match position(entries.drop_last(), signature) {
            Some(index) => Some(index),
            None => if entries.last().signature() == signature {
                Some(entries.len() - 1)
            } else {
                None
            },
        }
    }
}

/// What asking a registry for a shape comes to.
pub struct Resolution {
    /// The registry's shapes afterwards.
    pub entries: Seq<Descriptor>,
    /// The identity of the shape that answers the request.
    pub index: int,
    /// Whether the request added that shape.
    pub fresh: bool,
}

/// Asking a registry that holds `entries` for the shape `wanted`: a shape with
/// the same signature answers if there is one, and else `wanted` is appended.
pub open spec fn resolve(entries: Seq<Descriptor>, wanted: Descriptor) -> Resolution {
    match position(entries, wanted.signature()) {
        Some(index) => Resolution { entries, index, fresh: false },
        None => Resolution {
            entries: entries.push(wanted),
            index: entries.len() as int,
            fresh: true,
        },
    }
}

/// `after` and `handle` are what a request for the given signature comes to on
/// a registry that holds `before`: the first shape with that signature answers,
/// and nothing changes; or there is none, and one shape with that signature is
/// appended and answers.
pub open spec fn answered(
    before: Seq<Descriptor>,
    after: Seq<Descriptor>,
    handle: CallsiteHandle,
    signature: Signature,
) -> bool {
    match position(before, signature) {
        Some(index) => after == before && handle.index == index && !handle.fresh,
        None => {
            &&& after.len() == before.len() + 1
            &&& after.drop_last() == before
            &&& after.last().signature() == signature
            &&& handle.index == before.len()
            &&& handle.fresh
        },
    }
}

/// The registry's shapes after a run of requests, one after the other.
pub open spec fn resolve_all(entries: Seq<Descriptor>, wanted: Seq<Descriptor>) -> Seq<Descriptor>
    decreases wanted.len(),
{
    if wanted.len() == 0 {
        entries
    } else {
        resolve(resolve_all(entries, wanted.drop_last()), wanted.last()).entries
    }
}

/// `position` finds the first match, and finds none only where there is none.
pub proof fn lemma_position_is_first(entries: Seq<Descriptor>, signature: Signature)
    ensures
        match position(entries, signature) {
            Some(index) => {
                &&& 0 <= index < entries.len()
                &&& entries[index].signature() == signature
                &&& forall|j: int| 0 <= j < index ==> entries[j].signature() != signature
            },
            None => forall|j: int| 0 <= j < entries.len() ==> entries[j].signature() != signature,
        },
    decreases entries.len(),
{
    if entries.len() > 0 {
        let shorter = entries.drop_last();
        lemma_position_is_first(shorter, signature);
        assert forall|j: int| 0 <= j < shorter.len() implies #[trigger] entries[j] == shorter[j] by {}
    }
}

/// A match with no match before it is what `position` returns.
pub proof fn lemma_first_match(entries: Seq<Descriptor>, signature: Signature, index: int)
    requires
        0 <= index < entries.len(),
        entries[index].signature() == signature,
        forall|j: int| 0 <= j < index ==> entries[j].signature() != signature,
    ensures
        position(entries, signature) == Some(index),
{
    lemma_position_is_first(entries, signature);
}

/// Where a registry holds no signature twice, neither does it after a request.
pub proof fn lemma_resolve_keeps_distinct(entries: Seq<Descriptor>, wanted: Descriptor)
    requires
        signatures(entries).no_duplicates(),
    ensures
        signatures(resolve(entries, wanted).entries).no_duplicates(),
{
    lemma_position_is_first(entries, wanted.signature());
    let after = resolve(entries, wanted).entries;
    assert forall|i: int, j: int|
        0 <= i < signatures(after).len() && 0 <= j < signatures(after).len() && i != j implies signatures(
        after,
    )[i] != signatures(after)[j] by {
        if i < entries.len() {
            assert(signatures(entries)[i] == entries[i].signature());
        }
        if j < entries.len() {
            assert(signatures(entries)[j] == entries[j].signature());
        }
    }
}

/// The shape that answers a request has the signature asked for, and every
/// shape that was there before is still there, at its old position.
pub proof fn lemma_resolve_answers(entries: Seq<Descriptor>, wanted: Descriptor)
    ensures
        ({
            let resolved = resolve(entries, wanted);
            &&& 0 <= resolved.index < resolved.entries.len()
            &&& resolved.entries[resolved.index].signature() == wanted.signature()
            &&& entries.len() <= resolved.entries.len() <= entries.len() + 1
            &&& resolved.entries.take(entries.len() as int) == entries
            &&& resolved.fresh <==> resolved.entries.len() == entries.len() + 1
            &&& position(resolved.entries, wanted.signature()) == Some(resolved.index)
        }),
{
    lemma_position_is_first(entries, wanted.signature());
    let resolved = resolve(entries, wanted);
    lemma_first_match(resolved.entries, wanted.signature(), resolved.index);
}

/// Two requests with one signature are answered by one and the same shape, and
/// the second of them leaves the registry as it is.
pub proof fn lemma_same_signature_same_descriptor(
    entries: Seq<Descriptor>,
    first: Descriptor,
    second: Descriptor,
)
    requires
        first.signature() == second.signature(),
    ensures
        ({
            let once = resolve(entries, first);
            let twice = resolve(once.entries, second);
            &&& twice.index == once.index
            &&& twice.entries == once.entries
            &&& !twice.fresh
        }),
{
    lemma_resolve_answers(entries, first);
}

/// Two requests whose signatures differ are answered by two different shapes,
/// whatever the registry held before. The first answer stays valid: asking
/// again for the first shape after the second gives the same identity.
pub proof fn lemma_distinct_signatures_distinct_descriptors(
    entries: Seq<Descriptor>,
    first: Descriptor,
    second: Descriptor,
)
    requires
        first.signature() != second.signature(),
    ensures
        ({
            let once = resolve(entries, first);
            let twice = resolve(once.entries, second);
            let again = resolve(twice.entries, first);
            &&& twice.index != once.index
            &&& again.index == once.index
            &&& again.entries == twice.entries
        }),
{
    let once = resolve(entries, first);
    let twice = resolve(once.entries, second);
    lemma_resolve_answers(entries, first);
    lemma_resolve_answers(once.entries, second);
    assert forall|j: int| 0 <= j < once.index implies twice.entries[j].signature()
        != first.signature() by {
        lemma_position_is_first(once.entries, first.signature());
    }
    lemma_first_match(twice.entries, first.signature(), once.index);
}

/// One name with two different field lists gives two different shapes.
pub proof fn lemma_field_lists_tell_shapes_apart(
    entries: Seq<Descriptor>,
    first: Descriptor,
    second: Descriptor,
)
    requires
        first.name@ == second.name@,
        names_view(first.fields@) != names_view(second.fields@),
    ensures
        resolve(resolve(entries, first).entries, second).index != resolve(entries, first).index,
{
    lemma_distinct_signatures_distinct_descriptors(entries, first, second);
}

/// The shapes after a run of requests have the signatures that were there or
/// were asked for, each once.
pub proof fn lemma_resolve_all_signatures(entries: Seq<Descriptor>, wanted: Seq<Descriptor>)
    requires
        signatures(entries).no_duplicates(),
    ensures
        signatures(resolve_all(entries, wanted)).no_duplicates(),
        signatures(resolve_all(entries, wanted)).to_set() == signatures(entries).to_set().union(
            signatures(wanted).to_set(),
        ),
    decreases wanted.len(),
{
    let after = resolve_all(entries, wanted);
    if wanted.len() > 0 {
        let before = resolve_all(entries, wanted.drop_last());
        let last = wanted.last();
        lemma_resolve_all_signatures(entries, wanted.drop_last());
        lemma_resolve_keeps_distinct(before, last);
        lemma_resolve_answers(before, last);
        lemma_position_is_first(before, last.signature());
        assert forall|s: Signature|
            signatures(after).to_set().contains(s) <==> signatures(before).to_set().insert(
                last.signature(),
            ).contains(s) by {
            if signatures(after).to_set().contains(s) {
                let i = choose|i: int| 0 <= i < signatures(after).len() && signatures(after)[i] == s;
                if i < before.len() {
                    assert(signatures(before)[i] == s);
                }
            }
            if signatures(before).to_set().contains(s) {
                let i = choose|i: int|
                    0 <= i < signatures(before).len() && signatures(before)[i] == s;
                assert(signatures(after)[i] == s);
            }
            if s == last.signature() {
                let at = resolve(before, last).index;
                assert(signatures(after)[at] == s);
            }
        }
        assert forall|s: Signature|
            signatures(wanted).to_set().contains(s) <==> signatures(wanted.drop_last()).to_set().insert(
                last.signature(),
            ).contains(s) by {
            if signatures(wanted).to_set().contains(s) {
                let i = choose|i: int|
                    0 <= i < signatures(wanted).len() && signatures(wanted)[i] == s;
                if i < wanted.len() - 1 {
                    assert(signatures(wanted.drop_last())[i] == s);
                }
            }
            if signatures(wanted.drop_last()).to_set().contains(s) {
                let i = choose|i: int|
                    0 <= i < signatures(wanted.drop_last()).len() && signatures(
                        wanted.drop_last(),
                    )[i] == s;
                assert(signatures(wanted)[i] == s);
            }
            if s == last.signature() {
                assert(signatures(wanted)[wanted.len() - 1] == s);
            }
        }
    }
}

/// However many requests reach an empty registry, and however often one
/// signature recurs among them, the registry ends with exactly one shape for
/// each signature that was asked for: none twice, none lost.
pub proof fn lemma_one_descriptor_per_signature(wanted: Seq<Descriptor>)
    ensures
        signatures(resolve_all(Seq::empty(), wanted)).no_duplicates(),
        signatures(resolve_all(Seq::empty(), wanted)).to_set() == signatures(wanted).to_set(),
        resolve_all(Seq::empty(), wanted).len() == signatures(wanted).to_set().len(),
{
    let empty = Seq::<Descriptor>::empty();
    let after = resolve_all(empty, wanted);
    lemma_resolve_all_signatures(empty, wanted);
    signatures(after).unique_seq_to_set();
}

/// The order in which requests arrive has no say in how many shapes there are
/// in the end: two runs that ask for the same signatures, in whatever order
/// and however often, end with the same number of shapes, one per signature.
pub proof fn lemma_arrival_order_is_irrelevant(one: Seq<Descriptor>, other: Seq<Descriptor>)
    requires
        signatures(one).to_set() == signatures(other).to_set(),
    ensures
        resolve_all(Seq::empty(), one).len() == resolve_all(Seq::empty(), other).len(),
        signatures(resolve_all(Seq::empty(), one)).to_set() == signatures(
            resolve_all(Seq::empty(), other),
        ).to_set(),
{
    lemma_one_descriptor_per_signature(one);
    lemma_one_descriptor_per_signature(other);
}

/// The identity that the registry gave to a shape.
#[derive(Clone, Copy, Debug, PartialEq, Eq, Structural)]
pub struct CallsiteHandle {
    /// The position of the shape in the registry.
    pub index: usize,
    /// Whether the request that returned this handle added the shape. The
    /// caller then owes the backend a callsite for it.
    pub fresh: bool,
}

/// The append-only registry of span shapes.
pub struct DynamicCallsites {
    entries: Vec<Descriptor>,
}

impl View for DynamicCallsites {
    type V = Seq<Descriptor>;

    closed spec fn view(&self) -> Seq<Descriptor> {
        self.entries@
    }
}

impl DynamicCallsites {
    /// No signature is filed twice. A new registry is in this state, and every
    /// request leaves it so.
    pub open spec fn wf(&self) -> bool {
        signatures(self@).no_duplicates()
    }

    /// An empty registry.
    pub fn new() -> (callsites: Self)
        ensures
            callsites@ == Seq::<Descriptor>::empty(),
            callsites.wf(),
    {
        DynamicCallsites { entries: Vec::new() }
    }

    /// The number of shapes.
    pub fn len(&self) -> (len: usize)
        ensures
            len == self@.len(),
    {
        self.entries.len()
    }

    /// The shape with the given identity.
    pub fn descriptor(&self, index: usize) -> (descriptor: Option<&Descriptor>)
        ensures
            match descriptor {
                Some(found) => index < self@.len() && *found == self@[index as int],
                None => index >= self@.len(),
            },
    {
        if index < self.entries.len() {
            Some(&self.entries[index])
        } else {
            None
        }
    }

    /// Looks a signature up without adding anything.
    pub fn find(&self, name: &str, field_names: &Vec<&'static str>) -> (found: Option<usize>)
        ensures
            match found {
                Some(index) => position(
                    self@,
                    Signature { name: name@, fields: names_view(field_names@) },
                ) == Some(index as int),
                None => position(
                    self@,
                    Signature { name: name@, fields: names_view(field_names@) },
                ) is None,
            },
    {
        let ghost wanted = Signature { name: name@, fields: names_view(field_names@) };
        let mut index: usize = 0;
        while index < self.entries.len()
            invariant
                index <= self.entries.len(),
                wanted == (Signature { name: name@, fields: names_view(field_names@) }),
                forall|j: int| 0 <= j < index ==> self.entries@[j].signature() != wanted,
            decreases self.entries.len() - index,
        {
            let entry = &self.entries[index];
            if same_text(entry.name, name) && same_names(&entry.fields, field_names) {
                proof {
                    lemma_first_match(self.entries@, wanted, index as int);
                }
                return Some(index);
            }
            index += 1;
        }
        proof {
            lemma_position_is_first(self.entries@, wanted);
        }
        None
    }

    /// Returns the identity of the shape with the given name and field names,
    /// adding the shape first if the registry does not hold it yet.
    ///
    /// A shape is filed under its name and its ordered field names alone. A
    /// request that agrees with an earlier one in both is answered by the
    /// earlier shape, whatever else it asks for.
    pub fn callsite_for(
        &mut self,
        level: Level,
        name: &'static str,
        target: &'static str,
        file: Option<&'static str>,
        line: Option<u32>,
        module: Option<&'static str>,
        kind: GstCallsiteKind,
        field_names: Vec<&'static str>,
    ) -> (handle: CallsiteHandle)
        ensures
            ({
                let resolved = resolve(
                    old(self)@,
                    Descriptor { level, name, target, file, line, module, kind, fields: field_names },
                );
                &&& final(self)@ == resolved.entries
                &&& handle.index as int == resolved.index
                &&& handle.fresh == resolved.fresh
            }),
            answered(
                old(self)@,
                final(self)@,
                handle,
                Signature { name: name@, fields: names_view(field_names@) },
            ),
            handle.index < final(self)@.len(),
            old(self).wf() ==> final(self).wf(),
    {
        let ghost wanted = Descriptor {
            level,
            name,
            target,
            file,
            line,
            module,
            kind,
            fields: field_names,
        };
        proof {
            if self.wf() {
                lemma_resolve_keeps_distinct(self.entries@, wanted);
            }
        }
        match self.find(name, &field_names) {
            Some(index) => {
                proof {
                    lemma_position_is_first(self.entries@, wanted.signature());
                }
                CallsiteHandle { index, fresh: false }
            },
            None => {
                let index = self.entries.len();
                self.entries.push(
                    Descriptor { level, name, target, file, line, module, kind, fields: field_names },
                );
                assert(self.entries@.drop_last() =~= old(self).entries@);
                CallsiteHandle { index, fresh: true }
            },
        }
    }
}

/// What a [`GstCallsite`] stands for.
pub struct Binding {
    /// The name of the operation whose spans it describes.
    pub name: Seq<char>,
    /// The kind of that operation, which fixes the fields.
    pub kind: OperationKind,
    /// The backend's metadata for those spans.
    pub metadata: &'static tracing_core::metadata::Metadata<'static>,
}

/// A span shape of one of the two operation kinds, bound to the metadata under
/// which the backend knows it.
///
/// Such a value exists only where the backend's metadata declares the
/// operation's name and exactly the fields of the kind's schema, in the schema's
/// order: values supplied in schema order then land under the right names.
#[derive(Clone, Copy)]
pub struct GstCallsite {
    name: &'static str,
    kind: OperationKind,
    metadata: &'static tracing_core::metadata::Metadata<'static>,
}

impl View for GstCallsite {
    type V = Binding;

    closed spec fn view(&self) -> Binding {
        Binding { name: self.name@, kind: self.kind, metadata: self.metadata }
    }
}

/// Whether the backend's metadata declares the given name and the schema of the
/// given kind.
pub open spec fn declares(
    metadata: &'static tracing_core::metadata::Metadata<'static>,
    name: Seq<char>,
    kind: OperationKind,
) -> bool {
    declared_name(*metadata) == name && declared_fields(*metadata) == schema(kind)
}

impl GstCallsite {
    #[verifier::type_invariant]
    spec fn bound(self) -> bool {
        declares(self.metadata, self.name@, self.kind)
    }

    /// Binds an operation to the backend's metadata, if the metadata declares
    /// the operation's name and the fields of its kind in schema order.
    pub fn bind(
        name: &'static str,
        kind: OperationKind,
        metadata: &'static tracing_core::metadata::Metadata<'static>,
    ) -> (site: Option<GstCallsite>)
        ensures
            site is Some <==> declares(metadata, name@, kind),
            site matches Some(bound) ==> bound@ == (Binding { name: name@, kind, metadata }),
    {
        if !same_text(metadata_name(metadata), name) {
            return None;
        }
        let declared = metadata_field_names(metadata);
        let expected = field_names(kind);
        if !same_names(&declared, &expected) {
            return None;
        }
        Some(GstCallsite { name, kind, metadata })
    }

    /// The name of the operation.
    pub fn name(&self) -> (name: &'static str)
        ensures
            name@ == self@.name,
    {
        self.name
    }

    /// The kind of the operation.
    pub fn kind(&self) -> (kind: OperationKind)
        ensures
            kind == self@.kind,
    {
        self.kind
    }

    /// The backend's metadata, which declares this operation's name and schema.
    pub fn metadata(&self) -> (metadata: &'static tracing_core::metadata::Metadata<'static>)
        ensures
            metadata == self@.metadata,
            declares(metadata, self@.name, self@.kind),
    {
        proof {
            use_type_invariant(self);
        }
        self.metadata
    }

    /// Whether this shape is the one of the operation with the given name and
    /// kind.
    pub fn describes(&self, name: &str, kind: OperationKind) -> (same: bool)
        ensures
            same == (self@.name == name@ && self@.kind == kind),
    {
        self.kind == kind && same_text(self.name, name)
    }
}

} // verus!
