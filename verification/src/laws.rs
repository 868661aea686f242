//! Engine-wide laws, stated over the spec-level transition relations that
//! the registration and dispatch operations ensure.

use vstd::prelude::*;
use crate::assoc::str_assoc_get;
use crate::crossroads::Crossroads;
use crate::crossroads::dispatch_mut_rel;
use crate::crossroads::instance_find;
use crate::crossroads::method_lookup;
use crate::crossroads::mut_route;
use crate::crossroads::register_rel;
use crate::handlers::Handlers;
use crate::handlers::Mut;
use crate::handlers::MutMethods;
use crate::handlers::iface_run_ok;
use crate::info::IfaceInfo;
use crate::info::method_find;
use crate::info::sig_seq;
use crate::message::Message;
use crate::message::MessageType;

verus! {

/// Registering an interface name twice returns the first descriptor as the
/// previous value of the second call, and the registry thereafter serves
/// only the second descriptor; no other name is disturbed.
pub proof fn lemma_registration_replace<H: Handlers>(
    s0: Crossroads<H>,
    s1: Crossroads<H>,
    s2: Crossroads<H>,
    tid1: u64,
    tid2: u64,
    info1: IfaceInfo<H>,
    info2: IfaceInfo<H>,
    r1: Option<IfaceInfo<H>>,
    r2: Option<IfaceInfo<H>>,
)
    requires
        info1.name@ == info2.name@,
        register_rel(s0, s1, tid1, info1, r1),
        register_rel(s1, s2, tid2, info2, r2),
    ensures
        r2 == Some(info1),
        s2.reg_get(info2.name@) == Some((tid2, info2)),
        forall|n: Seq<char>| n != info2.name@ ==> s2.reg_get(n) == s0.reg_get(n),
{
}

/// Two object paths dispatch independently: a mutating dispatch never
/// touches the store of any path other than the message's own, so an
/// instance at one path cannot affect an instance of the same
/// implementation type at another.
pub proof fn lemma_instance_isolation(
    pre: Crossroads<Mut>,
    post: Crossroads<Mut>,
    msg: Message,
    r: Option<Vec<Message>>,
    q: Seq<char>,
)
    requires
        dispatch_mut_rel(pre, post, msg, r),
        msg.path is Some ==> msg.path->0@ != q,
    ensures
        str_assoc_get(post.paths@, q) == str_assoc_get(pre.paths@, q),
{
}

/// The method lookup yields nothing — not an error — when the interface
/// name is unregistered, when the member name has no method, or when the
/// path's store holds no instance of the bound type.
pub proof fn lemma_unknown_route<H: Handlers>(
    cr: Crossroads<H>,
    p: Seq<char>,
    i: Seq<char>,
    m: Seq<char>,
)
    ensures
        str_assoc_get(cr.reg@, i) is None ==> method_lookup(cr, p, i, m) is None,
        (str_assoc_get(cr.reg@, i) matches Some(e) && method_find(e.1.methods@, m) is None)
            ==> method_lookup(cr, p, i, m) is None,
        (str_assoc_get(cr.reg@, i) matches Some(e) && instance_find(cr, p, e.0) is None)
            ==> method_lookup(cr, p, i, m) is None,
{
}

/// An exclusive-model dispatch yields nothing, and changes nothing, when
/// the route misses — and, for the exclusive-instance handler kind, when
/// the path's store holds no instance of the bound type.
pub proof fn lemma_unknown_route_mut(
    pre: Crossroads<Mut>,
    post: Crossroads<Mut>,
    msg: Message,
    r: Option<Vec<Message>>,
)
    requires
        dispatch_mut_rel(pre, post, msg, r),
    ensures
        mut_route(pre, msg) is None ==> r is None && post == pre,
        (mut_route(pre, msg) matches Some(t) && t.1.handler.0 is MutIface && instance_find(
            pre,
            msg.path->0@,
            t.0,
        ) is None) ==> r is None && post == pre,
{
}

/// Every dispatch output is ordered the same way: the primary reply — a
/// method return or an error keyed to the call's serial — comes first,
/// and a successful handler's queued messages follow it in queueing
/// order.
pub proof fn lemma_queued_after_primary(
    pre: Crossroads<Mut>,
    post: Crossroads<Mut>,
    msg: Message,
    r: Option<Vec<Message>>,
)
    requires
        dispatch_mut_rel(pre, post, msg, r),
        r is Some,
    ensures
        r->0@.len() >= 1,
        r->0@[0].kind == MessageType::MethodReturn || r->0@[0].kind == MessageType::Error,
        r->0@[0].reply_serial == Some(msg.serial),
        (mut_route(pre, msg) matches Some(t) && t.1.handler.0 matches MutMethods::MutIface(s)
            && instance_find(pre, msg.path->0@, t.0) matches Some(inst) && iface_run_ok(
            s,
            inst.cells@,
            msg.args@,
            sig_seq(t.1.i_args@),
            sig_seq(t.1.o_args@),
        )) ==> ({
            let s = match (mut_route(pre, msg)->0).1.handler.0 {
                MutMethods::MutIface(s) => s,
                MutMethods::AllRef(_) => arbitrary(),
            };
            &&& r->0@.len() == 1 + s.queued@.len()
            &&& forall|j: int|
                0 <= j < s.queued@.len() ==> crate::message::msg_eq(
                    #[trigger] r->0@[1 + j],
                    s.queued@[j],
                )
        }),
{
}

/// Anything request-shaped that goes wrong — mismatched arguments, a
/// handler-reported failure, a handler step failure — becomes one error
/// reply keyed to the call, and the target instance keeps exactly the
/// state it had: dispatch never aborts and never corrupts the tree.
pub proof fn lemma_failed_dispatch_preserves_state(
    pre: Crossroads<Mut>,
    post: Crossroads<Mut>,
    msg: Message,
    r: Option<Vec<Message>>,
)
    requires
        dispatch_mut_rel(pre, post, msg, r),
        mut_route(pre, msg) matches Some(t) && t.1.handler.0 matches MutMethods::MutIface(s)
            && instance_find(pre, msg.path->0@, t.0) matches Some(inst) && !iface_run_ok(
            s,
            inst.cells@,
            msg.args@,
            sig_seq(t.1.i_args@),
            sig_seq(t.1.o_args@),
        ),
    ensures
        r is Some,
        r->0@.len() == 1,
        r->0@[0].kind == MessageType::Error,
        r->0@[0].reply_serial == Some(msg.serial),
        ({
            let t = mut_route(pre, msg)->0;
            let pre_inst = instance_find(pre, msg.path->0@, t.0)->0;
            instance_find(post, msg.path->0@, t.0) matches Some(inst2) && inst2.cells@
                == pre_inst.cells@
        }),
{
}

/// A method stored with an all-read handler dispatches successfully even
/// though sibling methods on the same interface hold exclusive-instance
/// handlers: the read-only pass needs the target path's store but no
/// instance, and changes nothing.
pub proof fn lemma_allread_fallback(
    pre: Crossroads<Mut>,
    post: Crossroads<Mut>,
    msg: Message,
    r: Option<Vec<Message>>,
)
    requires
        dispatch_mut_rel(pre, post, msg, r),
        mut_route(pre, msg) matches Some(t) && t.1.handler.0 is AllRef,
        str_assoc_get(pre.paths@, msg.path->0@) is Some,
    ensures
        r is Some,
        r->0@.len() == 1,
        post == pre,
{
}

} // verus!
