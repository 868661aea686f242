use crossroads::Access;
use crossroads::ArgType;
use crossroads::ArgValue;
use crossroads::CellUpdate;
use crossroads::Crossroads;
use crossroads::Handlers;
use crossroads::IfaceInfo;
use crossroads::IfaceName;
use crossroads::Instance;
use crossroads::MemberName;
use crossroads::Message;
use crossroads::MessageType;
use crossroads::MethodErr;
use crossroads::MethodScript;
use crossroads::Mut;
use crossroads::OutputSpec;
use crossroads::Par;
use crossroads::ParScript;
use crossroads::PathData;
use crossroads::PathName;
use crossroads::PropInfo;
use crossroads::TreeScript;

const SCORE_IFACE: &str = "com.example.dbusrs.crossroads.score";

fn update_score_script() -> MethodScript {
    MethodScript {
        fail: None,
        updates: vec![CellUpdate::AddArg { cell: 0, arg: 0 }, CellUpdate::Incr { cell: 1 }],
        outputs: vec![OutputSpec::Cell { cell: 0 }, OutputSpec::Cell { cell: 1 }],
        queued: vec![],
    }
}

fn register_score(cr: &mut Crossroads<Mut>, type_id: u64) {
    let b = Crossroads::<Mut>::register(type_id, IfaceName::new(SCORE_IFACE).unwrap());
    let b = b.annotate(
        "com.example.dbusrs.whatever".to_string(),
        "Funny annotation".to_string(),
    );
    let b = b.method(
        MemberName::new("UpdateScore").unwrap(),
        &vec![("change".to_string(), ArgType::U16)],
        &vec![
            ("new_score".to_string(), ArgType::U16),
            ("call_times".to_string(), ArgType::U32),
        ],
        update_score_script(),
    );
    let b = b.deprecated();
    b.commit(cr);
}

fn call(path: &str, iface: &str, member: &str, args: Vec<ArgValue>, serial: u32) -> Message {
    let mut m = Message::new_method_call(path, iface, member).unwrap();
    for a in args {
        m.append(a);
    }
    m.set_serial(serial);
    m
}

fn is_send<T: Send>(_: &T) {}

fn is_sync<T: Sync>(_: &T) {}

#[test]
fn test_send_sync() {
    let c = Crossroads::new_par();
    is_send(&c);
    is_sync(&c);
}

#[test]
fn cr_mut() {
    let mut cr = Crossroads::new_mut();
    register_score(&mut cr, 1);

    let mut pdata = PathData::new();
    pdata.insert_mut(1, Instance::new(vec![7, 0]));
    cr.insert(&PathName::new("/").unwrap(), pdata);

    let msg = call("/", SCORE_IFACE, "UpdateScore", vec![ArgValue::U16(5)], 57);
    let r = cr.dispatch_mut(&msg).unwrap();
    assert_eq!(r.len(), 1);
    assert!(matches!(r[0].kind, MessageType::MethodReturn));
    assert!(r[0].error_name.is_none());
    assert_eq!(r[0].reply_serial, Some(57));
    let (new_score, call_times) = match (&r[0].args[0], &r[0].args[1]) {
        (ArgValue::U16(a), ArgValue::U32(b)) => (*a, *b),
        _ => panic!("unexpected reply argument types"),
    };
    assert_eq!(new_score, 12);
    assert_eq!(call_times, 1);
}

#[test]
fn round_trip_state_persists() {
    let mut cr = Crossroads::new_mut();
    register_score(&mut cr, 1);
    let mut pdata = PathData::new();
    pdata.insert_mut(1, Instance::new(vec![5, 0]));
    cr.insert(&PathName::new("/").unwrap(), pdata);

    let m1 = call("/", SCORE_IFACE, "UpdateScore", vec![ArgValue::U16(7)], 1);
    let r1 = cr.dispatch_mut(&m1).unwrap();
    assert_eq!(r1[0].args, vec![ArgValue::U16(12), ArgValue::U32(1)]);

    let m2 = call("/", SCORE_IFACE, "UpdateScore", vec![ArgValue::U16(3)], 2);
    let r2 = cr.dispatch_mut(&m2).unwrap();
    assert_eq!(r2[0].args, vec![ArgValue::U16(15), ArgValue::U32(2)]);
}

#[test]
fn instance_isolation() {
    let mut cr = Crossroads::new_mut();
    register_score(&mut cr, 1);
    for p in ["/a", "/b"] {
        let mut pdata = PathData::new();
        pdata.insert_mut(1, Instance::new(vec![0, 0]));
        cr.insert(&PathName::new(p).unwrap(), pdata);
    }

    let r = cr
        .dispatch_mut(&call("/a", SCORE_IFACE, "UpdateScore", vec![ArgValue::U16(5)], 1))
        .unwrap();
    assert_eq!(r[0].args, vec![ArgValue::U16(5), ArgValue::U32(1)]);

    // the instance at /b never saw the call at /a
    let r = cr
        .dispatch_mut(&call("/b", SCORE_IFACE, "UpdateScore", vec![ArgValue::U16(2)], 2))
        .unwrap();
    assert_eq!(r[0].args, vec![ArgValue::U16(2), ArgValue::U32(1)]);

    let r = cr
        .dispatch_mut(&call("/a", SCORE_IFACE, "UpdateScore", vec![ArgValue::U16(3)], 3))
        .unwrap();
    assert_eq!(r[0].args, vec![ArgValue::U16(8), ArgValue::U32(2)]);
}

#[test]
fn unknown_route_returns_no_match() {
    let mut cr = Crossroads::new_mut();
    register_score(&mut cr, 1);
    let mut pdata = PathData::new();
    pdata.insert_mut(1, Instance::new(vec![0, 0]));
    cr.insert(&PathName::new("/").unwrap(), pdata);

    // unregistered interface name
    let m = call("/", "com.example.other", "UpdateScore", vec![ArgValue::U16(1)], 1);
    assert!(cr.dispatch_mut(&m).is_none());

    // member name with no method
    let m = call("/", SCORE_IFACE, "NoSuchMethod", vec![ArgValue::U16(1)], 2);
    assert!(cr.dispatch_mut(&m).is_none());

    // unknown path
    let m = call("/nope", SCORE_IFACE, "UpdateScore", vec![ArgValue::U16(1)], 3);
    assert!(cr.dispatch_mut(&m).is_none());

    // path whose store holds no instance of the bound type
    let mut other = PathData::new();
    other.insert_mut(99, Instance::new(vec![0]));
    cr.insert(&PathName::new("/other").unwrap(), other);
    let m = call("/other", SCORE_IFACE, "UpdateScore", vec![ArgValue::U16(1)], 4);
    assert!(cr.dispatch_mut(&m).is_none());

    // not a method call at all
    let mut m = call("/", SCORE_IFACE, "UpdateScore", vec![ArgValue::U16(1)], 5);
    m.kind = MessageType::Signal;
    assert!(cr.dispatch_mut(&m).is_none());
}

#[test]
fn queued_side_effects_ordering() {
    let mut cr = Crossroads::new_mut();
    let mut signal = Message::new_signal("/", SCORE_IFACE, "ScoreChanged").unwrap();
    signal.append(ArgValue::U16(1));
    let script = MethodScript {
        fail: None,
        updates: vec![CellUpdate::Incr { cell: 0 }],
        outputs: vec![OutputSpec::Cell { cell: 0 }],
        queued: vec![signal],
    };
    let b = Crossroads::<Mut>::register(1, IfaceName::new(SCORE_IFACE).unwrap());
    let b = b.method(
        MemberName::new("Bump").unwrap(),
        &vec![],
        &vec![("count".to_string(), ArgType::U64)],
        script,
    );
    b.commit(&mut cr);
    let mut pdata = PathData::new();
    pdata.insert_mut(1, Instance::new(vec![0]));
    cr.insert(&PathName::new("/").unwrap(), pdata);

    // the primary reply comes first, the queued signal after it — and the
    // order is the same on every call
    for serial in 1..4u32 {
        let r = cr
            .dispatch_mut(&call("/", SCORE_IFACE, "Bump", vec![], serial))
            .unwrap();
        assert_eq!(r.len(), 2);
        assert!(matches!(r[0].kind, MessageType::MethodReturn));
        assert_eq!(r[0].reply_serial, Some(serial));
        assert!(matches!(r[1].kind, MessageType::Signal));
        assert_eq!(r[1].member.as_deref(), Some("ScoreChanged"));
    }
}

#[test]
fn exclusive_fallback() {
    let mut cr = Crossroads::new_mut();
    let b = Crossroads::<Mut>::register(1, IfaceName::new(SCORE_IFACE).unwrap());
    let b = b.method(
        MemberName::new("UpdateScore").unwrap(),
        &vec![("change".to_string(), ArgType::U16)],
        &vec![
            ("new_score".to_string(), ArgType::U16),
            ("call_times".to_string(), ArgType::U32),
        ],
        update_score_script(),
    );
    let b = b.method_custom(
        MemberName::new("Stats").unwrap(),
        &vec![],
        &vec![("count".to_string(), ArgType::U64)],
        Mut::make_method(TreeScript {
            fail: None,
            outputs: vec![OutputSpec::PathInstanceCount],
        }),
    );
    b.commit(&mut cr);

    let mut pdata = PathData::new();
    pdata.insert_mut(1, Instance::new(vec![7, 0]));
    pdata.insert_mut(9, Instance::new(vec![]));
    cr.insert(&PathName::new("/").unwrap(), pdata);

    // the sibling method mutably borrows the stored instance in its own call
    let r = cr
        .dispatch_mut(&call("/", SCORE_IFACE, "UpdateScore", vec![ArgValue::U16(5)], 1))
        .unwrap();
    assert_eq!(r[0].args, vec![ArgValue::U16(12), ArgValue::U32(1)]);

    // the all-read method still dispatches, through the read-only pass
    let r = cr
        .dispatch_mut(&call("/", SCORE_IFACE, "Stats", vec![], 2))
        .unwrap();
    assert_eq!(r.len(), 1);
    assert!(matches!(r[0].kind, MessageType::MethodReturn));
    assert_eq!(r[0].args, vec![ArgValue::U64(2)]);
}

#[test]
fn argument_mismatch_becomes_error_reply() {
    let mut cr = Crossroads::new_mut();
    register_score(&mut cr, 1);
    let mut pdata = PathData::new();
    pdata.insert_mut(1, Instance::new(vec![0, 0]));
    cr.insert(&PathName::new("/").unwrap(), pdata);

    // wrong argument type
    let m = call(
        "/",
        SCORE_IFACE,
        "UpdateScore",
        vec![ArgValue::Str("five".to_string())],
        7,
    );
    let r = cr.dispatch_mut(&m).unwrap();
    assert_eq!(r.len(), 1);
    assert!(matches!(r[0].kind, MessageType::Error));
    assert_eq!(
        r[0].error_name.as_deref(),
        Some("org.freedesktop.DBus.Error.InvalidArgs")
    );
    assert_eq!(r[0].reply_serial, Some(7));

    // wrong arity
    let m = call("/", SCORE_IFACE, "UpdateScore", vec![], 8);
    let r = cr.dispatch_mut(&m).unwrap();
    assert!(matches!(r[0].kind, MessageType::Error));
    assert_eq!(
        r[0].error_name.as_deref(),
        Some("org.freedesktop.DBus.Error.InvalidArgs")
    );

    // the failed call left the instance alone
    let m = call("/", SCORE_IFACE, "UpdateScore", vec![ArgValue::U16(1)], 9);
    let r = cr.dispatch_mut(&m).unwrap();
    assert_eq!(r[0].args, vec![ArgValue::U16(1), ArgValue::U32(1)]);
}

#[test]
fn handler_reported_failure_becomes_error_reply() {
    let mut cr = Crossroads::new_mut();
    let script = MethodScript {
        fail: Some(MethodErr::new(
            "com.example.Refused".to_string(),
            "not today".to_string(),
        )),
        updates: vec![],
        outputs: vec![],
        queued: vec![],
    };
    let b = Crossroads::<Mut>::register(1, IfaceName::new(SCORE_IFACE).unwrap());
    let b = b.method(MemberName::new("Nope").unwrap(), &vec![], &vec![], script);
    b.commit(&mut cr);
    let mut pdata = PathData::new();
    pdata.insert_mut(1, Instance::new(vec![]));
    cr.insert(&PathName::new("/").unwrap(), pdata);

    let r = cr
        .dispatch_mut(&call("/", SCORE_IFACE, "Nope", vec![], 3))
        .unwrap();
    assert_eq!(r.len(), 1);
    assert!(matches!(r[0].kind, MessageType::Error));
    assert_eq!(r[0].error_name.as_deref(), Some("com.example.Refused"));
    assert_eq!(r[0].args, vec![ArgValue::Str("not today".to_string())]);
}

#[test]
fn handler_step_failure_becomes_error_reply() {
    let mut cr = Crossroads::new_mut();
    let script = MethodScript {
        fail: None,
        updates: vec![],
        outputs: vec![OutputSpec::Cell { cell: 99 }],
        queued: vec![],
    };
    let b = Crossroads::<Mut>::register(1, IfaceName::new(SCORE_IFACE).unwrap());
    let b = b.method(
        MemberName::new("Broken").unwrap(),
        &vec![],
        &vec![("out".to_string(), ArgType::U64)],
        script,
    );
    b.commit(&mut cr);
    let mut pdata = PathData::new();
    pdata.insert_mut(1, Instance::new(vec![0]));
    cr.insert(&PathName::new("/").unwrap(), pdata);

    let r = cr
        .dispatch_mut(&call("/", SCORE_IFACE, "Broken", vec![], 4))
        .unwrap();
    assert!(matches!(r[0].kind, MessageType::Error));
    assert_eq!(
        r[0].error_name.as_deref(),
        Some("org.freedesktop.DBus.Error.Failed")
    );
}

#[test]
fn cr_par() {
    let mut cr = Crossroads::new_par();
    let b = Crossroads::<Par>::register(1, IfaceName::new(SCORE_IFACE).unwrap());
    let b = b.method(
        MemberName::new("GetScore").unwrap(),
        &vec![],
        &vec![("score".to_string(), ArgType::U16)],
        ParScript {
            fail: None,
            outputs: vec![OutputSpec::Cell { cell: 0 }],
        },
    );
    let b = b.prop_ro(
        MemberName::new("Score").unwrap(),
        ArgType::U16,
        OutputSpec::Cell { cell: 0 },
    );
    let b = b.signal(
        MemberName::new("ScoreChanged").unwrap(),
        &vec![("NewScore".to_string(), ArgType::U16)],
    );
    b.commit(&mut cr);

    let mut pdata = PathData::new();
    pdata.insert_par(1, Instance::new(vec![7]));
    cr.insert(&PathName::new("/").unwrap(), pdata);

    let msg = call("/", SCORE_IFACE, "GetScore", vec![], 57);
    let r = cr.dispatch_par(&msg).unwrap();
    assert_eq!(r.len(), 1);
    assert!(matches!(r[0].kind, MessageType::MethodReturn));
    assert_eq!(r[0].reply_serial, Some(57));
    assert_eq!(r[0].args, vec![ArgValue::U16(7)]);

    // shared dispatch never changes state: ask again, same answer
    let r = cr.dispatch_par(&msg).unwrap();
    assert_eq!(r[0].args, vec![ArgValue::U16(7)]);

    // the shared model serves all-read handlers too
    let b = Crossroads::<Par>::register(2, IfaceName::new("com.example.stats").unwrap());
    let b = b.method_custom(
        MemberName::new("IfaceCount").unwrap(),
        &vec![],
        &vec![("count".to_string(), ArgType::U64)],
        Par::make_method(TreeScript {
            fail: None,
            outputs: vec![OutputSpec::IfaceCount],
        }),
    );
    b.commit(&mut cr);
    let data = cr.get_data("/").unwrap();
    let inst = cr
        .reg_prop_lookup(data, &SCORE_IFACE.to_string(), &"Score".to_string())
        .unwrap();
    assert_eq!(inst.0.cells, vec![7]);
    assert!(matches!(inst.1.access, Access::Read));
}

#[test]
fn registration_replace() {
    let mut cr = Crossroads::new_mut();
    let name = IfaceName::new(SCORE_IFACE).unwrap();
    let first = IfaceInfo::<Mut>::new_empty(name.dup());
    assert!(cr.register_custom(1, first).is_none());

    let b = Crossroads::<Mut>::register(2, name);
    let b = b.method(
        MemberName::new("UpdateScore").unwrap(),
        &vec![("change".to_string(), ArgType::U16)],
        &vec![
            ("new_score".to_string(), ArgType::U16),
            ("call_times".to_string(), ArgType::U32),
        ],
        update_score_script(),
    );
    let prev = b.commit(&mut cr).expect("the first descriptor comes back");
    assert_eq!(prev.methods.len(), 0);

    // the registry thereafter serves only the second descriptor
    let mut pdata = PathData::new();
    pdata.insert_mut(2, Instance::new(vec![0, 0]));
    cr.insert(&PathName::new("/").unwrap(), pdata);
    let r = cr
        .dispatch_mut(&call("/", SCORE_IFACE, "UpdateScore", vec![ArgValue::U16(4)], 1))
        .unwrap();
    assert_eq!(r[0].args, vec![ArgValue::U16(4), ArgValue::U32(1)]);
}

#[test]
fn prop_set_writes_through_setter() {
    let mut cr = Crossroads::new_mut();
    let name = IfaceName::new(SCORE_IFACE).unwrap();
    let prop = PropInfo::<Mut>::new(
        MemberName::new("Score").unwrap(),
        ArgType::U16,
        Some(crossroads::PropGetter {
            source: OutputSpec::Cell { cell: 0 },
            fail: None,
        }),
        Some(crossroads::PropSetter {
            type_id: 1,
            cell: 0,
            fail: None,
        }),
    );
    assert!(matches!(prop.access, Access::ReadWrite));
    let info = IfaceInfo::new(name, vec![], vec![prop], vec![]);
    cr.register_custom(1, info);

    let mut pdata = PathData::new();
    pdata.insert_mut(1, Instance::new(vec![7]));
    cr.insert(&PathName::new("/").unwrap(), pdata);

    let r = cr.prop_set(
        &"/".to_string(),
        &SCORE_IFACE.to_string(),
        &"Score".to_string(),
        &ArgValue::U16(42),
    );
    assert_eq!(r, Some(Ok(true)));
    let data = cr.get_data("/").unwrap();
    let (inst, _) = cr
        .reg_prop_lookup(data, &SCORE_IFACE.to_string(), &"Score".to_string())
        .unwrap();
    assert_eq!(inst.cells, vec![42]);

    // a miss yields nothing, not an error
    let r = cr.prop_set(
        &"/".to_string(),
        &SCORE_IFACE.to_string(),
        &"NoSuchProp".to_string(),
        &ArgValue::U16(1),
    );
    assert!(r.is_none());
}

#[test]
fn integer_outputs_truncate_to_declared_width() {
    let mut cr = Crossroads::new_mut();
    register_score(&mut cr, 1);
    let mut pdata = PathData::new();
    pdata.insert_mut(1, Instance::new(vec![65530, 0]));
    cr.insert(&PathName::new("/").unwrap(), pdata);

    // 65530 + 10 = 65540 in the 64-bit cell; the declared u16 output
    // keeps the low 16 bits
    let r = cr
        .dispatch_mut(&call("/", SCORE_IFACE, "UpdateScore", vec![ArgValue::U16(10)], 1))
        .unwrap();
    assert_eq!(r[0].args, vec![ArgValue::U16(4), ArgValue::U32(1)]);
}

#[test]
fn stores_and_getters() {
    let mut cr = Crossroads::new_mut();
    register_score(&mut cr, 1);
    assert_eq!(cr.iface_names(), vec![SCORE_IFACE.to_string()]);

    let mut pdata = PathData::new();
    pdata.insert_mut(1, Instance::new(vec![7, 0]));
    assert!(pdata.contains_key(1));
    assert!(!pdata.contains_key(2));
    // re-inserting the same identity replaces the instance wholesale
    pdata.insert_mut(1, Instance::new(vec![9, 0]));
    cr.insert(&PathName::new("/").unwrap(), pdata);

    assert!(cr.get_data("/").is_some());
    assert!(cr.get_data("/missing").is_none());
    let r = cr
        .dispatch_mut(&call("/", SCORE_IFACE, "UpdateScore", vec![ArgValue::U16(1)], 1))
        .unwrap();
    assert_eq!(r[0].args, vec![ArgValue::U16(10), ArgValue::U32(1)]);
}

#[test]
fn mut_ctx_queues_in_order() {
    let msg = call("/", SCORE_IFACE, "UpdateScore", vec![], 5);
    let mut ctx = crossroads::MutCtx::new(&msg);
    assert_eq!(ctx.msg().serial, 5);
    assert!(ctx.send_extra.is_empty());
    let s1 = Message::new_signal("/", SCORE_IFACE, "First").unwrap();
    let s2 = Message::new_signal("/", SCORE_IFACE, "Second").unwrap();
    ctx.send(s1);
    ctx.send(s2);
    assert_eq!(ctx.send_extra.len(), 2);
    assert_eq!(ctx.send_extra[0].member.as_deref(), Some("First"));
    assert_eq!(ctx.send_extra[1].member.as_deref(), Some("Second"));
}

#[test]
fn prop_set_without_setter_is_read_only() {
    let mut cr = Crossroads::new_mut();
    let name = IfaceName::new(SCORE_IFACE).unwrap();
    let prop = PropInfo::<Mut>::new(
        MemberName::new("Score").unwrap(),
        ArgType::U16,
        Some(crossroads::PropGetter {
            source: OutputSpec::Cell { cell: 0 },
            fail: None,
        }),
        None,
    );
    assert!(matches!(prop.access, Access::Read));
    let info = IfaceInfo::new(name, vec![], vec![prop], vec![]);
    cr.register_custom(1, info);
    let mut pdata = PathData::new();
    pdata.insert_mut(1, Instance::new(vec![7]));
    cr.insert(&PathName::new("/").unwrap(), pdata);

    let r = cr.prop_set(
        &"/".to_string(),
        &SCORE_IFACE.to_string(),
        &"Score".to_string(),
        &ArgValue::U16(1),
    );
    match r {
        Some(Err(e)) => assert_eq!(e.name, "org.freedesktop.DBus.Error.PropertyReadOnly"),
        other => panic!("expected a read-only error, got {:?}", other),
    }
}
