use gst_span_bridge::callsite::{CallsiteHandle, DynamicCallsites, GstCallsiteKind, Interest, Level};
use gst_span_bridge::names::same_names;

fn ask(callsites: &mut DynamicCallsites, name: &'static str, fields: &[&'static str]) -> CallsiteHandle {
    callsites.callsite_for(
        Level::Error,
        name,
        name,
        None,
        None,
        None,
        GstCallsiteKind::Span,
        fields.to_vec(),
    )
}

#[test]
fn new_registry_is_empty() {
    let callsites = DynamicCallsites::new();
    assert_eq!(callsites.len(), 0);
    assert!(callsites.descriptor(0).is_none());
    assert_eq!(callsites.find("pad_push", &vec!["a"]), None);
}

#[test]
fn first_request_adds_the_shape() {
    let mut callsites = DynamicCallsites::new();
    let handle = ask(&mut callsites, "pad_push", &["a", "b"]);
    assert_eq!(handle, CallsiteHandle { index: 0, fresh: true });
    assert_eq!(callsites.len(), 1);
    let shape = callsites.descriptor(0).unwrap();
    assert_eq!(shape.name, "pad_push");
    assert_eq!(shape.target, "pad_push");
    assert_eq!(shape.level, Level::Error);
    assert_eq!(shape.kind, GstCallsiteKind::Span);
    assert_eq!(shape.file, None);
    assert_eq!(shape.line, None);
    assert_eq!(shape.module, None);
    assert_eq!(shape.fields, vec!["a", "b"]);
}

#[test]
fn same_signature_gives_same_descriptor() {
    let mut callsites = DynamicCallsites::new();
    let first = ask(&mut callsites, "pad_push", &["a", "b"]);
    let second = ask(&mut callsites, "pad_push", &["a", "b"]);
    assert_eq!(first.index, second.index);
    assert!(first.fresh);
    assert!(!second.fresh);
    assert_eq!(callsites.len(), 1);
}

#[test]
fn same_signature_from_another_string_gives_same_descriptor() {
    let mut callsites = DynamicCallsites::new();
    let first = ask(&mut callsites, "pad_push", &["a", "b"]);
    let name: &'static str = Box::leak(String::from("pad_push").into_boxed_str());
    let field: &'static str = Box::leak(String::from("a").into_boxed_str());
    let second = ask(&mut callsites, name, &[field, "b"]);
    assert_eq!(second, CallsiteHandle { index: first.index, fresh: false });
}

#[test]
fn different_field_sets_give_distinct_descriptors() {
    let mut callsites = DynamicCallsites::new();
    let first = ask(&mut callsites, "pad_push", &["a", "b"]);
    let second = ask(&mut callsites, "pad_push", &["a", "c"]);
    let third = ask(&mut callsites, "pad_push", &["a"]);
    let fourth = ask(&mut callsites, "pad_push", &["b", "a"]);
    assert_eq!(first, CallsiteHandle { index: 0, fresh: true });
    assert_eq!(second, CallsiteHandle { index: 1, fresh: true });
    assert_eq!(third, CallsiteHandle { index: 2, fresh: true });
    assert_eq!(fourth, CallsiteHandle { index: 3, fresh: true });
    assert_eq!(callsites.len(), 4);
}

#[test]
fn different_names_give_distinct_descriptors() {
    let mut callsites = DynamicCallsites::new();
    let first = ask(&mut callsites, "pad_push", &["a"]);
    let second = ask(&mut callsites, "pad_query", &["a"]);
    assert_ne!(first.index, second.index);
    assert_eq!(ask(&mut callsites, "pad_push", &["a"]).index, first.index);
    assert_eq!(ask(&mut callsites, "pad_query", &["a"]).index, second.index);
    assert_eq!(callsites.len(), 2);
}

#[test]
fn earlier_shape_answers_whatever_else_is_asked() {
    let mut callsites = DynamicCallsites::new();
    let first = callsites.callsite_for(
        Level::Error,
        "pad_push",
        "pad_push",
        None,
        None,
        None,
        GstCallsiteKind::Span,
        vec!["a"],
    );
    let second = callsites.callsite_for(
        Level::Info,
        "pad_push",
        "elsewhere",
        Some("file.rs"),
        Some(7),
        Some("module"),
        GstCallsiteKind::Event,
        vec!["a"],
    );
    assert_eq!(second, CallsiteHandle { index: first.index, fresh: false });
    let shape = callsites.descriptor(first.index).unwrap();
    assert_eq!(shape.level, Level::Error);
    assert_eq!(shape.target, "pad_push");
    assert_eq!(shape.line, None);
    assert_eq!(shape.kind, GstCallsiteKind::Span);
}

#[test]
fn shapes_are_never_moved_or_dropped() {
    let mut callsites = DynamicCallsites::new();
    let names: [&'static str; 4] = ["one", "two", "three", "four"];
    for name in names {
        ask(&mut callsites, name, &["x", "y"]);
    }
    for round in 0..3 {
        for (at, name) in names.iter().enumerate() {
            let handle = ask(&mut callsites, name, &["x", "y"]);
            assert_eq!(handle, CallsiteHandle { index: at, fresh: false }, "round {}", round);
            assert_eq!(callsites.descriptor(at).unwrap().name, *name);
        }
    }
    assert_eq!(callsites.len(), 4);
}

#[test]
fn one_descriptor_per_distinct_signature() {
    let signatures: [(&'static str, &[&'static str]); 5] = [
        ("pad_push", &["a", "b"]),
        ("pad_push", &["a"]),
        ("pad_query", &["a", "b"]),
        ("message", &[]),
        ("element_state", &["s"]),
    ];
    let mut callsites = DynamicCallsites::new();
    let mut fresh = 0;
    for _ in 0..7 {
        for (name, fields) in signatures {
            if ask(&mut callsites, name, fields).fresh {
                fresh += 1;
            }
        }
    }
    assert_eq!(fresh, 5);
    assert_eq!(callsites.len(), 5);
}

#[test]
fn interleaved_workers_agree_on_descriptors() {
    let signatures: [(&'static str, &'static [&'static str]); 4] = [
        ("pad_push", &["a", "b"]),
        ("pad_push", &["a"]),
        ("pad_query", &["a", "b"]),
        ("message", &["m"]),
    ];
    let mut callsites = DynamicCallsites::new();
    let mut answers: Vec<Vec<usize>> = vec![Vec::new(); 6];
    for step in 0..200 {
        for (worker, seen) in answers.iter_mut().enumerate() {
            let (name, fields) = signatures[(step + worker) % 4];
            let handle = ask(&mut callsites, name, fields);
            seen.push(handle.index);
            assert_eq!(callsites.descriptor(handle.index).unwrap().name, name);
            assert_eq!(callsites.descriptor(handle.index).unwrap().fields, fields);
        }
    }
    for (worker, seen) in answers.iter().enumerate() {
        for (step, index) in seen.iter().enumerate() {
            assert_eq!(*index, answers[0][(step + worker) % 4]);
        }
    }
    assert_eq!(callsites.len(), 4);
}

#[test]
fn find_looks_up_without_adding() {
    let mut callsites = DynamicCallsites::new();
    ask(&mut callsites, "pad_push", &["a", "b"]);
    ask(&mut callsites, "pad_query", &["a", "b"]);
    assert_eq!(callsites.find("pad_query", &vec!["a", "b"]), Some(1));
    assert_eq!(callsites.find("pad_push", &vec!["a", "b"]), Some(0));
    assert_eq!(callsites.find("pad_push", &vec!["a"]), None);
    assert_eq!(callsites.find("pad_event", &vec!["a", "b"]), None);
    assert_eq!(callsites.len(), 2);
}

#[test]
fn descriptor_is_none_past_the_end() {
    let mut callsites = DynamicCallsites::new();
    ask(&mut callsites, "pad_push", &["a"]);
    assert!(callsites.descriptor(0).is_some());
    assert!(callsites.descriptor(1).is_none());
    assert!(callsites.descriptor(usize::MAX).is_none());
}

#[test]
fn same_names_compares_content_and_order() {
    assert!(same_names(&vec![], &vec![]));
    assert!(same_names(&vec!["a", "b"], &vec!["a", "b"]));
    assert!(!same_names(&vec!["a", "b"], &vec!["b", "a"]));
    assert!(!same_names(&vec!["a", "b"], &vec!["a"]));
    assert!(!same_names(&vec!["a"], &vec!["a", "b"]));
    assert!(!same_names(&vec!["a", "b"], &vec!["a", "c"]));
    let other: &'static str = Box::leak(String::from("b").into_boxed_str());
    assert!(same_names(&vec!["a", "b"], &vec!["a", other]));
}

#[test]
fn interest_follows_the_backends_answers() {
    assert_eq!(Interest::from_answers(true, false), Interest::Never);
    assert_eq!(Interest::from_answers(true, true), Interest::Never);
    assert_eq!(Interest::from_answers(false, true), Interest::Always);
    assert_eq!(Interest::from_answers(false, false), Interest::Sometimes);
}

#[test]
fn interest_survives_the_cache() {
    assert_eq!(Interest::Never.code(), 0);
    assert_eq!(Interest::Sometimes.code(), 1);
    assert_eq!(Interest::Always.code(), 2);
    for interest in [Interest::Never, Interest::Sometimes, Interest::Always] {
        assert_eq!(Interest::from_code(interest.code()), interest);
    }
    for code in 3..=u8::MAX {
        assert_eq!(Interest::from_code(code), Interest::Sometimes);
    }
}
