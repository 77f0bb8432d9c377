use gst_span_bridge::callsite::{CallsiteHandle, DynamicCallsites};
use gst_span_bridge::schema::{field_names, OperationKind};
use gst_span_bridge::tracer::{TracerHook, TracingTracerPriv};

const BEFORE: [(TracerHook, TracerHook, &str, OperationKind); 8] = [
    (TracerHook::PadPushPre, TracerHook::PadPushPost, "pad_push", OperationKind::Pad),
    (TracerHook::PadPushListPre, TracerHook::PadPushListPost, "pad_push_list", OperationKind::Pad),
    (TracerHook::PadQueryPre, TracerHook::PadQueryPost, "pad_query", OperationKind::Pad),
    (TracerHook::PadPushEventPre, TracerHook::PadPushEventPost, "pad_event", OperationKind::Pad),
    (TracerHook::PadPullRangePre, TracerHook::PadPullRangePost, "pad_pull_range", OperationKind::Pad),
    (TracerHook::PadChainPre, TracerHook::PadChainPost, "pad_chain", OperationKind::Pad),
    (
        TracerHook::ElementChangeStatePre,
        TracerHook::ElementChangeStatePost,
        "element_state",
        OperationKind::Element,
    ),
    (
        TracerHook::ElementPostMessagePre,
        TracerHook::ElementPostMessagePost,
        "message",
        OperationKind::Element,
    ),
];

#[test]
fn hooks_are_registered_in_order() {
    let hooks = TracingTracerPriv::new().constructed();
    assert_eq!(
        hooks,
        vec![
            TracerHook::PadPushPost,
            TracerHook::PadPushPre,
            TracerHook::PadPushListPost,
            TracerHook::PadPushListPre,
            TracerHook::PadQueryPost,
            TracerHook::PadQueryPre,
            TracerHook::PadPushEventPost,
            TracerHook::PadPushEventPre,
            TracerHook::PadPullRangePost,
            TracerHook::PadPullRangePre,
            TracerHook::ElementChangeStatePre,
            TracerHook::ElementChangeStatePost,
            TracerHook::ElementPostMessagePre,
            TracerHook::ElementPostMessagePost,
            TracerHook::PadChainPre,
            TracerHook::PadChainPost,
        ]
    );
}

#[test]
fn every_registered_before_hook_has_its_after_hook() {
    let hooks = TracingTracerPriv::new().constructed();
    let mut before = 0;
    for hook in &hooks {
        if let Some(after) = hook.closing() {
            before += 1;
            assert!(hooks.contains(&after));
            assert!(after.operation().is_none());
            assert!(after.closing().is_none());
        }
    }
    assert_eq!(before, 8);
    assert_eq!(hooks.len(), 16);
}

#[test]
fn before_hooks_name_their_operations() {
    for (before, after, name, kind) in BEFORE {
        let traced = before.operation().unwrap();
        assert_eq!(traced.name, name);
        assert_eq!(traced.kind, kind);
        assert_eq!(before.closing(), Some(after));
        assert!(after.operation().is_none());
        assert_eq!(after.closing(), None);
    }
}

#[test]
fn before_hooks_resolve_their_shapes() {
    let mut callsites = DynamicCallsites::new();
    for (at, (before, _, name, kind)) in BEFORE.iter().enumerate() {
        let handle = before.callsite(&mut callsites);
        assert_eq!(handle, Some(CallsiteHandle { index: at, fresh: true }));
        let shape = callsites.descriptor(at).unwrap();
        assert_eq!(shape.name, *name);
        assert_eq!(shape.fields, field_names(*kind));
    }
    for (at, (before, _, _, _)) in BEFORE.iter().enumerate() {
        let handle = before.callsite(&mut callsites);
        assert_eq!(handle, Some(CallsiteHandle { index: at, fresh: false }));
    }
    assert_eq!(callsites.len(), 8);
}

#[test]
fn after_hooks_leave_the_registry_alone() {
    let mut callsites = DynamicCallsites::new();
    for (_, after, _, _) in BEFORE {
        assert_eq!(after.callsite(&mut callsites), None);
    }
    assert_eq!(callsites.len(), 0);
}

#[test]
fn new_tracer_has_no_open_span() {
    let mut tracer = TracingTracerPriv::new();
    assert_eq!(tracer.depth(), 0);
    assert!(tracer.span_ids().is_empty());
    assert_eq!(tracer.pop_span(), None);
    assert_eq!(tracer.depth(), 0);
}

#[test]
fn after_hooks_on_an_empty_stack_do_nothing() {
    let mut tracer = TracingTracerPriv::new();
    tracer.pad_pull_range_post(1);
    tracer.pad_push_event_post(2, true);
    tracer.pad_push_list_post(3);
    tracer.pad_push_post(4);
    tracer.pad_chain_post(5);
    tracer.pad_query_post(6, false);
    tracer.element_change_state_post(7);
    tracer.element_post_message_post(8, true);
    assert_eq!(tracer.depth(), 0);
    assert!(tracer.span_ids().is_empty());
}
