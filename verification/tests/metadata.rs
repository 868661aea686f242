use crossroads::Access;
use crossroads::ArgType;
use crossroads::ArgValue;
use crossroads::Crossroads;
use crossroads::EmitsChangedSignal;
use crossroads::Handlers;
use crossroads::IfaceName;
use crossroads::MemberName;
use crossroads::Message;
use crossroads::MessageType;
use crossroads::MethodErr;
use crossroads::Mut;
use crossroads::OutputSpec;
use crossroads::Par;
use crossroads::PathName;
use crossroads::PropInfo;
use crossroads::build_argvec;
use crossroads::msg_headers;
use crossroads::posthandler;

#[test]
fn builder_annotation_targets_last_signal() {
    let b = Crossroads::<Mut>::register(1, IfaceName::new("com.example.a").unwrap());
    let b = b.method_custom(
        MemberName::new("M").unwrap(),
        &vec![],
        &vec![],
        Mut::make_method(crossroads::TreeScript {
            fail: None,
            outputs: vec![],
        }),
    );
    let b = b.signal(
        MemberName::new("S").unwrap(),
        &vec![("value".to_string(), ArgType::U16)],
    );
    let b = b.annotate("com.example.note".to_string(), "here".to_string());

    // the annotation landed on the signal, not on the method or the
    // interface
    let key = "com.example.note".to_string();
    assert_eq!(
        b.info.signals[0].anns.get(&key).map(|s| s.as_str()),
        Some("here")
    );
    assert!(b.info.methods[0].anns.get(&key).is_none());
    assert!(b.info.anns.get(&key).is_none());
}

#[test]
fn builder_annotation_targets_interface_when_empty() {
    let b = Crossroads::<Mut>::register(1, IfaceName::new("com.example.a").unwrap());
    let b = b.annotate("com.example.note".to_string(), "iface".to_string());
    let key = "com.example.note".to_string();
    assert_eq!(
        b.info.anns.get(&key).map(|s| s.as_str()),
        Some("iface")
    );
}

#[test]
fn derived_access_mode() {
    let getter = || crossroads::PropGetter {
        source: OutputSpec::Cell { cell: 0 },
        fail: None,
    };
    let setter = || crossroads::PropSetter {
        type_id: 1,
        cell: 0,
        fail: None,
    };
    let name = || MemberName::new("P").unwrap();

    let p = PropInfo::<Par>::new(name(), ArgType::U16, Some(getter()), None);
    assert!(matches!(p.access, Access::Read));
    let p = PropInfo::<Par>::new(name(), ArgType::U16, None, Some(setter()));
    assert!(matches!(p.access, Access::Write));
    let p = PropInfo::<Par>::new(name(), ArgType::U16, Some(getter()), Some(setter()));
    assert!(matches!(p.access, Access::ReadWrite));
}

#[test]
fn builder_props_derive_access() {
    let b = Crossroads::<Par>::register(1, IfaceName::new("com.example.a").unwrap());
    let b = b.prop_ro(
        MemberName::new("R").unwrap(),
        ArgType::U16,
        OutputSpec::Cell { cell: 0 },
    );
    assert!(matches!(b.info.props[0].access, Access::Read));
    let b = b.prop_rw(
        MemberName::new("W").unwrap(),
        ArgType::U16,
        OutputSpec::Cell { cell: 1 },
        1,
    );
    assert!(matches!(b.info.props[1].access, Access::ReadWrite));

    // an explicit override changes the last-touched property only
    let b = b.access(Access::Read);
    assert!(matches!(b.info.props[0].access, Access::Read));
    assert!(matches!(b.info.props[1].access, Access::Read));
}

#[test]
fn emits_changed_annotates_property() {
    let b = Crossroads::<Par>::register(1, IfaceName::new("com.example.a").unwrap());
    let b = b.prop_ro(
        MemberName::new("Score").unwrap(),
        ArgType::U16,
        OutputSpec::Cell { cell: 0 },
    );
    let b = b.emits_changed(EmitsChangedSignal::False);
    let key = "org.freedesktop.DBus.Property.EmitsChangedSignal".to_string();
    assert_eq!(
        b.info.props[0].anns.get(&key).map(|s| s.as_str()),
        Some("false")
    );
}

#[test]
fn deprecated_annotates_last_member() {
    let b = Crossroads::<Mut>::register(1, IfaceName::new("com.example.a").unwrap());
    let b = b.signal(MemberName::new("S").unwrap(), &vec![]);
    let b = b.deprecated();
    let key = "org.freedesktop.DBus.Deprecated".to_string();
    assert_eq!(
        b.info.signals[0].anns.get(&key).map(|s| s.as_str()),
        Some("true")
    );
}

#[test]
fn annotations_replace_on_same_key() {
    let mut a = crossroads::Annotations::new();
    a.insert("k".to_string(), "one".to_string());
    a.insert("other".to_string(), "kept".to_string());
    a.insert("k".to_string(), "two".to_string());
    assert_eq!(a.get(&"k".to_string()).map(|s| s.as_str()), Some("two"));
    assert_eq!(
        a.get(&"other".to_string()).map(|s| s.as_str()),
        Some("kept")
    );
    assert!(a.get(&"missing".to_string()).is_none());
}

#[test]
fn name_grammars() {
    assert!(IfaceName::new("com.example.score").is_some());
    assert!(IfaceName::new("a").is_some());
    assert!(IfaceName::new("").is_none());
    assert!(IfaceName::new(".leading").is_none());
    assert!(IfaceName::new("trailing.").is_none());
    assert!(IfaceName::new("dou..ble").is_none());
    assert!(IfaceName::new("with space").is_none());

    assert!(MemberName::new("UpdateScore").is_some());
    assert!(MemberName::new("").is_none());
    assert!(MemberName::new("dot.ted").is_none());

    assert!(PathName::new("/").is_some());
    assert!(PathName::new("/a/b_c").is_some());
    assert!(PathName::new("").is_none());
    assert!(PathName::new("relative").is_none());
    assert!(PathName::new("/a/").is_none());
    assert!(PathName::new("/a//b").is_none());
}

#[test]
fn build_argvec_keeps_names_and_types() {
    let v = build_argvec(&vec![
        ("change".to_string(), ArgType::U16),
        ("note".to_string(), ArgType::Str),
    ]);
    assert_eq!(v.len(), 2);
    assert_eq!(v[0].name, "change");
    assert!(matches!(v[0].sig, ArgType::U16));
    assert_eq!(v[1].name, "note");
    assert!(matches!(v[1].sig, ArgType::Str));
}

#[test]
fn coercion_truncates_integers() {
    assert_eq!(
        ArgValue::U64(0x1_0005).coerce(ArgType::U16),
        Some(ArgValue::U16(5))
    );
    assert_eq!(
        ArgValue::U16(7).coerce(ArgType::U32),
        Some(ArgValue::U32(7))
    );
    assert_eq!(ArgValue::Str("x".to_string()).coerce(ArgType::U16), None);
    assert_eq!(
        ArgValue::Bool(true).coerce(ArgType::Bool),
        Some(ArgValue::Bool(true))
    );
}

#[test]
fn msg_headers_require_a_routable_call() {
    let m = Message::new_method_call("/", "com.example.a", "M").unwrap();
    let h = msg_headers(&m).unwrap();
    assert_eq!(h.p, "/");
    assert_eq!(h.i, "com.example.a");
    assert_eq!(h.m, "M");

    let mut s = Message::new_signal("/", "com.example.a", "M").unwrap();
    assert!(msg_headers(&s).is_none());
    s.kind = MessageType::MethodCall;
    s.member = None;
    assert!(msg_headers(&s).is_none());
}

#[test]
fn posthandler_builds_replies() {
    let mut call = Message::new_method_call("/", "com.example.a", "M").unwrap();
    call.set_serial(9);

    let ok = posthandler(&call, Ok(vec![ArgValue::U16(3)]));
    assert!(matches!(ok.kind, MessageType::MethodReturn));
    assert_eq!(ok.reply_serial, Some(9));
    assert_eq!(ok.args, vec![ArgValue::U16(3)]);

    let err = posthandler(
        &call,
        Err(MethodErr::new("com.example.Bad".to_string(), "why".to_string())),
    );
    assert!(matches!(err.kind, MessageType::Error));
    assert_eq!(err.reply_serial, Some(9));
    assert_eq!(err.error_name.as_deref(), Some("com.example.Bad"));
    assert_eq!(err.args, vec![ArgValue::Str("why".to_string())]);
}

#[test]
fn message_builders_validate_names() {
    assert!(Message::new_method_call("/", "com.example.a", "M").is_some());
    assert!(Message::new_method_call("bad", "com.example.a", "M").is_none());
    assert!(Message::new_method_call("/", "bad..name", "M").is_none());
    assert!(Message::new_method_call("/", "com.example.a", "bad.member").is_none());
    assert!(Message::new_signal("/", "com.example.a", "S").is_some());
}
