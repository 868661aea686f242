//! The two ownership models and their handler representations.
//!
//! A capability descriptor ([`Handlers`]) fixes, once per engine instance,
//! the concrete shapes of method handlers, property getters and setters,
//! and stored instances. Exactly two models exist: [`Par`], the shared
//! model, whose handlers only read; and [`Mut`], the exclusive model,
//! whose handlers may mutate their own instance and queue extra outgoing
//! messages through a [`MutCtx`].

use vstd::prelude::*;
use crate::arg::ArgType;
use crate::arg::ArgValue;
use crate::arg::MethodErr;
use crate::arg::coerce_spec;
use crate::info::Argument;
use crate::info::args_match;
use crate::info::check_args;
use crate::info::sig_seq;
use crate::message::Message;
use crate::message::is_error_reply_of;
use crate::message::is_method_return_of;
use crate::message::msg_eq;
use crate::script::CellUpdate;
use crate::script::Instance;
use crate::script::MethodScript;
use crate::script::OutputSpec;
use crate::script::ParScript;
use crate::script::TreeScript;
use crate::script::apply_updates_spec;
use crate::script::eval_output_cells;
use crate::script::eval_output_tree;
use crate::script::run_updates;

verus! {

/// The capability descriptor of one ownership model: the concrete shapes
/// of stored method handlers, property getters and setters, and stored
/// interface instances.
pub trait Handlers: Sized {
    /// The stored form of a method handler.
    type Method;

    /// The stored form of a property getter.
    type GetProp;

    /// The stored form of a property setter.
    type SetProp;

    /// The stored form of an interface-implementation instance.
    type Iface;

    /// What wrapping a tree-reading handler body produces.
    spec fn make_method_spec(s: TreeScript) -> Self::Method;

    /// Wraps a tree-reading handler body (one that enumerates the whole
    /// tree rather than touching one instance) into this model's stored
    /// method representation.
    fn make_method(s: TreeScript) -> (r: Self::Method)
        ensures
            r == Self::make_method_spec(s),
    ;
}

/// Turning a handler body into a model's stored handler representation.
pub trait MakeHandler<T>: Sized {
    /// What wrapping this body produces.
    spec fn make_spec(self) -> T;

    /// Wraps this handler body.
    fn make(self) -> (r: T)
        ensures
            r == self.make_spec(),
    ;
}

/// A stored property getter: produces the property's value from the
/// owning instance's cells, or fails.
#[derive(Debug)]
pub struct PropGetter {
    /// Where the value comes from.
    pub source: OutputSpec,
    /// A declared failure: the getter fails with this error on every call.
    pub fail: Option<MethodErr>,
}

/// A stored property setter: writes the offered value into one cell of the
/// owning instance, located in the object's store by type identity.
#[derive(Debug)]
pub struct PropSetter {
    /// The implementation-type identity the setter's instance is stored
    /// under.
    pub type_id: u64,
    /// The cell that takes the written value.
    pub cell: usize,
    /// A declared failure: the setter fails with this error on every call.
    pub fail: Option<MethodErr>,
}

/// The shared ownership model: any number of dispatches may run
/// concurrently, so handlers get read-only access to their instance and
/// no queue.
#[derive(Clone, Copy, Default, Debug)]
pub struct Par;

/// A stored method handler of the shared model.
#[derive(Debug)]
pub enum ParMethod {
    /// Reads its own instance.
    Iface(ParScript),
    /// Reads the whole tree.
    AllRef(TreeScript),
}

impl Par {
    /// Wraps a getter body into the shared model's stored getter.
    pub fn typed_getprop(source: OutputSpec) -> (r: <Par as Handlers>::GetProp)
        ensures
            r.source == source,
            r.fail is None,
    {
        PropGetter { source, fail: None }
    }

    /// Wraps a setter body into the shared model's stored setter. The
    /// engine's dispatch never invokes shared-model setters itself; the
    /// external properties interface owns that call path.
    pub fn typed_setprop(type_id: u64, cell: usize) -> (r: <Par as Handlers>::SetProp)
        ensures
            r.type_id == type_id,
            r.cell == cell,
            r.fail is None,
    {
        PropSetter { type_id, cell, fail: None }
    }
}

impl Handlers for Par {
    type Method = ParMethod;

    type GetProp = PropGetter;

    type SetProp = PropSetter;

    type Iface = Instance;

    open spec fn make_method_spec(s: TreeScript) -> ParMethod {
        ParMethod::AllRef(s)
    }

    fn make_method(s: TreeScript) -> (r: ParMethod) {
        ParMethod::AllRef(s)
    }
}

impl MakeHandler<ParMethod> for ParScript {
    open spec fn make_spec(self) -> ParMethod {
        ParMethod::Iface(self)
    }

    fn make(self) -> (r: ParMethod) {
        ParMethod::Iface(self)
    }
}

/// The exclusive ownership model: one dispatch at a time owns the whole
/// tree, so handlers may mutate their own instance.
#[derive(Clone, Copy, Default, Debug)]
pub struct Mut;

/// The dispatch context the exclusive model hands to a handler: the
/// message being answered and a queue for extra outgoing messages,
/// flushed after the primary reply.
#[derive(Debug)]
pub struct MutCtx {
    /// The method call being dispatched.
    pub message: Message,
    /// The queued extra outgoing messages, in queueing order.
    pub send_extra: Vec<Message>,
}

impl MutCtx {
    /// A fresh context for one dispatch of `msg`.
    pub fn new(msg: &Message) -> (r: MutCtx)
        ensures
            msg_eq(r.message, *msg),
            r.send_extra@ == Seq::<Message>::empty(),
    {
        MutCtx { message: msg.dup(), send_extra: Vec::new() }
    }

    /// The method call being dispatched.
    pub fn msg(&self) -> (r: &Message)
        ensures
            *r == self.message,
    {
        &self.message
    }

    /// Queues one extra outgoing message.
    pub fn send(&mut self, msg: Message)
        ensures
            final(self).message == old(self).message,
            final(self).send_extra@ == old(self).send_extra@.push(msg),
    {
        self.send_extra.push(msg);
    }
}

/// A stored method handler of the exclusive model.
#[derive(Debug)]
pub struct MutMethod(pub MutMethods);

/// The two mutually exclusive handler kinds of the exclusive model.
#[derive(Debug)]
pub enum MutMethods {
    /// Mutates its own instance and sees nothing else.
    MutIface(MethodScript),
    /// Reads the whole tree but mutates nothing.
    AllRef(TreeScript),
}

impl Handlers for Mut {
    type Method = MutMethod;

    type GetProp = PropGetter;

    type SetProp = PropSetter;

    type Iface = Instance;

    open spec fn make_method_spec(s: TreeScript) -> MutMethod {
        MutMethod(MutMethods::AllRef(s))
    }

    fn make_method(s: TreeScript) -> (r: MutMethod) {
        MutMethod(MutMethods::AllRef(s))
    }
}

impl MakeHandler<MutMethod> for MethodScript {
    open spec fn make_spec(self) -> MutMethod {
        MutMethod(MutMethods::MutIface(self))
    }

    fn make(self) -> (r: MutMethod) {
        MutMethod(MutMethods::MutIface(self))
    }
}

/// The protocol error name for an input that does not match the declared
/// argument specification.
pub open spec fn invalid_args_name() -> Seq<char> {
    "org.freedesktop.DBus.Error.InvalidArgs"@
}

/// The protocol error name for a handler step that went wrong: a missing
/// cell or argument, or an output that cannot be encoded.
pub open spec fn failed_name() -> Seq<char> {
    "org.freedesktop.DBus.Error.Failed"@
}

/// The error reply content for mismatched arguments.
pub(crate) fn invalid_args_err() -> (e: MethodErr)
    ensures
        e.name@ == invalid_args_name(),
{
    MethodErr {
        name: "org.freedesktop.DBus.Error.InvalidArgs".to_owned(),
        text: "argument specification mismatch".to_owned(),
    }
}

/// The error reply content for a handler step that went wrong.
pub(crate) fn failed_err() -> (e: MethodErr)
    ensures
        e.name@ == failed_name(),
{
    MethodErr {
        name: "org.freedesktop.DBus.Error.Failed".to_owned(),
        text: "handler step failed".to_owned(),
    }
}

/// Whether one output selector, read over an instance's cells, yields a
/// value of the declared type.
pub open spec fn output_ok_cells(o: OutputSpec, cells: Seq<u64>, args: Seq<ArgValue>, t: ArgType) -> bool {
    &&& eval_output_cells(o, cells, args) is Some
    &&& coerce_spec(eval_output_cells(o, cells, args)->0, t) is Some
}

/// The value of one output selector, read over an instance's cells, at the
/// declared type.
pub open spec fn output_val_cells(o: OutputSpec, cells: Seq<u64>, args: Seq<ArgValue>, t: ArgType) -> ArgValue {
    coerce_spec(eval_output_cells(o, cells, args)->0, t)->0
}

/// Whether a whole output list, read over an instance's cells, matches the
/// declared output types.
pub open spec fn outputs_ok_cells(
    os: Seq<OutputSpec>,
    cells: Seq<u64>,
    args: Seq<ArgValue>,
    ts: Seq<ArgType>,
) -> bool {
    &&& os.len() == ts.len()
    &&& forall|i: int| 0 <= i < os.len() ==> output_ok_cells(#[trigger] os[i], cells, args, ts[i])
}

/// The values of a whole output list, read over an instance's cells.
pub open spec fn outputs_vals_cells(
    os: Seq<OutputSpec>,
    cells: Seq<u64>,
    args: Seq<ArgValue>,
    ts: Seq<ArgType>,
) -> Seq<ArgValue> {
    Seq::new(os.len(), |i: int| output_val_cells(os[i], cells, args, ts[i]))
}

/// Whether one output selector, read over the tree, yields a value of the
/// declared type.
pub open spec fn output_ok_tree(
    o: OutputSpec,
    ic: u64,
    pc: u64,
    args: Seq<ArgValue>,
    t: ArgType,
) -> bool {
    &&& eval_output_tree(o, ic, pc, args) is Some
    &&& coerce_spec(eval_output_tree(o, ic, pc, args)->0, t) is Some
}

/// The value of one output selector, read over the tree, at the declared
/// type.
pub open spec fn output_val_tree(o: OutputSpec, ic: u64, pc: u64, args: Seq<ArgValue>, t: ArgType) -> ArgValue {
    coerce_spec(eval_output_tree(o, ic, pc, args)->0, t)->0
}

/// Whether a whole output list, read over the tree, matches the declared
/// output types.
pub open spec fn outputs_ok_tree(
    os: Seq<OutputSpec>,
    ic: u64,
    pc: u64,
    args: Seq<ArgValue>,
    ts: Seq<ArgType>,
) -> bool {
    &&& os.len() == ts.len()
    &&& forall|i: int| 0 <= i < os.len() ==> output_ok_tree(#[trigger] os[i], ic, pc, args, ts[i])
}

/// The values of a whole output list, read over the tree.
pub open spec fn outputs_vals_tree(
    os: Seq<OutputSpec>,
    ic: u64,
    pc: u64,
    args: Seq<ArgValue>,
    ts: Seq<ArgType>,
) -> Seq<ArgValue> {
    Seq::new(os.len(), |i: int| output_val_tree(os[i], ic, pc, args, ts[i]))
}

/// Whether an exclusive-instance handler run succeeds: matching inputs, no
/// declared failure, all updates in range, all outputs encodable over the
/// updated state.
pub open spec fn iface_run_ok(
    s: MethodScript,
    cells: Seq<u64>,
    args: Seq<ArgValue>,
    its: Seq<ArgType>,
    ots: Seq<ArgType>,
) -> bool {
    &&& args_match(args, its)
    &&& s.fail is None
    &&& apply_updates_spec(cells, s.updates@, args) is Some
    &&& outputs_ok_cells(s.outputs@, apply_updates_spec(cells, s.updates@, args)->0, args, ots)
}

/// The instance state after a successful exclusive-instance handler run.
pub open spec fn iface_run_cells(s: MethodScript, cells: Seq<u64>, args: Seq<ArgValue>) -> Seq<
    u64,
> {
    apply_updates_spec(cells, s.updates@, args)->0
}

/// The reply arguments of a successful exclusive-instance handler run.
pub open spec fn iface_run_outs(
    s: MethodScript,
    cells: Seq<u64>,
    args: Seq<ArgValue>,
    ots: Seq<ArgType>,
) -> Seq<ArgValue> {
    outputs_vals_cells(s.outputs@, iface_run_cells(s, cells, args), args, ots)
}

/// Which error a failed handler run reports: mismatched inputs first, then
/// the handler's declared failure, else a step failure.
pub open spec fn run_err_matches(
    fail: Option<MethodErr>,
    args: Seq<ArgValue>,
    its: Seq<ArgType>,
    e: MethodErr,
) -> bool {
    if !args_match(args, its) {
        e.name@ == invalid_args_name()
    } else if fail is Some {
        e.name@ == fail->0.name@ && e.text@ == fail->0.text@
    } else {
        e.name@ == failed_name()
    }
}

/// Whether `reply` is an error reply to `call` whose error is the one a
/// failed handler run reports ([`run_err_matches`]).
pub open spec fn is_matching_err_reply(
    reply: Message,
    call: Message,
    fail: Option<MethodErr>,
    args: Seq<ArgValue>,
    its: Seq<ArgType>,
) -> bool {
    exists|e: MethodErr|
        #![auto]
        is_error_reply_of(reply, call, e) && run_err_matches(fail, args, its, e)
}

/// [`run_err_matches`] for an exclusive-instance handler.
pub open spec fn iface_err_matches(
    s: MethodScript,
    args: Seq<ArgValue>,
    its: Seq<ArgType>,
    e: MethodErr,
) -> bool {
    run_err_matches(s.fail, args, its, e)
}

/// Runs an exclusive-instance handler body transactionally: on success the
/// instance takes its updated state, the queued messages join the
/// context's queue in order, and the reply arguments come back; on any
/// failure nothing changes and the matching error comes back.
#[verifier::loop_isolation(false)]
pub fn run_iface_script(
    s: &MethodScript,
    inst: &mut Instance,
    args: &Vec<ArgValue>,
    i_args: &Vec<Argument>,
    o_args: &Vec<Argument>,
    ctx: &mut MutCtx,
) -> (r: Result<Vec<ArgValue>, MethodErr>)
    ensures
        iface_run_ok(*s, old(inst).cells@, args@, sig_seq(i_args@), sig_seq(o_args@)) ==> {
            &&& r matches Ok(outs) && outs@ == iface_run_outs(
                *s,
                old(inst).cells@,
                args@,
                sig_seq(o_args@),
            )
            &&& final(inst).cells@ == iface_run_cells(*s, old(inst).cells@, args@)
            &&& final(ctx).message == old(ctx).message
            &&& final(ctx).send_extra@.len() == old(ctx).send_extra@.len() + s.queued@.len()
            &&& forall|j: int|
                0 <= j < old(ctx).send_extra@.len() ==> final(ctx).send_extra@[j] == old(
                    ctx,
                ).send_extra@[j]
            &&& forall|j: int|
                0 <= j < s.queued@.len() ==> msg_eq(
                    final(ctx).send_extra@[old(ctx).send_extra@.len() + j],
                    s.queued@[j],
                )
        },
        !iface_run_ok(*s, old(inst).cells@, args@, sig_seq(i_args@), sig_seq(o_args@)) ==> {
            &&& r matches Err(e) && iface_err_matches(*s, args@, sig_seq(i_args@), e)
            &&& final(inst).cells@ == old(inst).cells@
            &&& *final(ctx) == *old(ctx)
        },
{
    if !check_args(args, i_args) {
        return Err(invalid_args_err());
    }
    match &s.fail {
        Some(f) => {
            return Err(f.dup());
        },
        None => {},
    }
    let mut work = inst.cells.clone();
    proof {
        assert forall|j: int| 0 <= j < inst.cells@.len() implies work@[j] == inst.cells@[j] by {}
        assert(work@ =~= inst.cells@);
    }
    let ok = run_updates(&mut work, &s.updates, args);
    if !ok {
        return Err(failed_err());
    }
    let ghost newcells = work@;
    let ghost ots = sig_seq(o_args@);
    proof {
        assert(ots.len() == o_args@.len());
    }
    if s.outputs.len() != o_args.len() {
        proof {
            assert(!outputs_ok_cells(s.outputs@, newcells, args@, ots));
        }
        return Err(failed_err());
    }
    let mut outs: Vec<ArgValue> = Vec::new();
    let n = s.outputs.len();
    let mut i: usize = 0;
    while i < n
        invariant
            n == s.outputs@.len(),
            n == o_args@.len(),
            n == ots.len(),
            ots == sig_seq(o_args@),
            i <= n,
            work@ == newcells,
            outs@.len() == i,
            forall|j: int|
                0 <= j < i ==> output_ok_cells(#[trigger] s.outputs@[j], newcells, args@, ots[j]),
            forall|j: int|
                0 <= j < i ==> outs@[j] == output_val_cells(
                    #[trigger] s.outputs@[j],
                    newcells,
                    args@,
                    ots[j],
                ),
        decreases n - i,
    {
        let raw = match s.outputs[i].run_cells(&work, args) {
            Some(v) => v,
            None => {
                proof {
                    assert(ots[i as int] == o_args@[i as int].sig);
                    assert(!output_ok_cells(s.outputs@[i as int], newcells, args@, ots[i as int]));
                    assert(!outputs_ok_cells(s.outputs@, newcells, args@, ots));
                }
                return Err(failed_err());
            },
        };
        let val = match raw.coerce(o_args[i].sig) {
            Some(v) => v,
            None => {
                proof {
                    assert(ots[i as int] == o_args@[i as int].sig);
                    assert(!output_ok_cells(s.outputs@[i as int], newcells, args@, ots[i as int]));
                    assert(!outputs_ok_cells(s.outputs@, newcells, args@, ots));
                }
                return Err(failed_err());
            },
        };
        proof {
            assert(ots[i as int] == o_args@[i as int].sig);
        }
        outs.push(val);
        i += 1;
    }
    core::mem::swap(&mut inst.cells, &mut work);
    let qn = s.queued.len();
    let mut q: usize = 0;
    while q < qn
        invariant
            qn == s.queued@.len(),
            q <= qn,
            ctx.message == old(ctx).message,
            ctx.send_extra@.len() == old(ctx).send_extra@.len() + q,
            forall|j: int|
                0 <= j < old(ctx).send_extra@.len() ==> ctx.send_extra@[j] == old(
                    ctx,
                ).send_extra@[j],
            forall|j: int|
                0 <= j < q ==> msg_eq(
                    ctx.send_extra@[old(ctx).send_extra@.len() + j],
                    s.queued@[j],
                ),
        decreases qn - q,
    {
        ctx.send(s.queued[q].dup());
        q += 1;
    }
    proof {
        assert(outs@ =~= iface_run_outs(*s, old(inst).cells@, args@, sig_seq(o_args@)));
    }
    Ok(outs)
}

/// Whether a tree-reading handler run succeeds: matching inputs, no
/// declared failure, all outputs encodable over the tree's sizes.
pub open spec fn tree_run_ok(
    s: TreeScript,
    ic: u64,
    pc: u64,
    args: Seq<ArgValue>,
    its: Seq<ArgType>,
    ots: Seq<ArgType>,
) -> bool {
    &&& args_match(args, its)
    &&& s.fail is None
    &&& outputs_ok_tree(s.outputs@, ic, pc, args, ots)
}

/// The reply arguments of a successful tree-reading handler run.
pub open spec fn tree_run_outs(
    s: TreeScript,
    ic: u64,
    pc: u64,
    args: Seq<ArgValue>,
    ots: Seq<ArgType>,
) -> Seq<ArgValue> {
    outputs_vals_tree(s.outputs@, ic, pc, args, ots)
}

/// Runs a tree-reading handler body over the registry size `ic` and the
/// target path's instance count `pc`. Nothing changes either way.
#[verifier::loop_isolation(false)]
pub fn run_tree_script(
    s: &TreeScript,
    ic: u64,
    pc: u64,
    args: &Vec<ArgValue>,
    i_args: &Vec<Argument>,
    o_args: &Vec<Argument>,
) -> (r: Result<Vec<ArgValue>, MethodErr>)
    ensures
        tree_run_ok(*s, ic, pc, args@, sig_seq(i_args@), sig_seq(o_args@)) ==> (r matches Ok(outs)
            && outs@ == tree_run_outs(*s, ic, pc, args@, sig_seq(o_args@))),
        !tree_run_ok(*s, ic, pc, args@, sig_seq(i_args@), sig_seq(o_args@)) ==> (r matches Err(e)
            && run_err_matches(s.fail, args@, sig_seq(i_args@), e)),
{
    if !check_args(args, i_args) {
        return Err(invalid_args_err());
    }
    match &s.fail {
        Some(f) => {
            return Err(f.dup());
        },
        None => {},
    }
    let ghost ots = sig_seq(o_args@);
    proof {
        assert(ots.len() == o_args@.len());
    }
    if s.outputs.len() != o_args.len() {
        return Err(failed_err());
    }
    let mut outs: Vec<ArgValue> = Vec::new();
    let n = s.outputs.len();
    let mut i: usize = 0;
    while i < n
        invariant
            i <= n,
            outs@.len() == i,
            forall|j: int|
                0 <= j < i ==> output_ok_tree(#[trigger] s.outputs@[j], ic, pc, args@, ots[j]),
            forall|j: int|
                0 <= j < i ==> outs@[j] == output_val_tree(
                    #[trigger] s.outputs@[j],
                    ic,
                    pc,
                    args@,
                    ots[j],
                ),
        decreases n - i,
    {
        let raw = match s.outputs[i].run_tree(ic, pc, args) {
            Some(v) => v,
            None => {
                proof {
                    assert(ots[i as int] == o_args@[i as int].sig);
                    assert(!output_ok_tree(s.outputs@[i as int], ic, pc, args@, ots[i as int]));
                }
                return Err(failed_err());
            },
        };
        let val = match raw.coerce(o_args[i].sig) {
            Some(v) => v,
            None => {
                proof {
                    assert(ots[i as int] == o_args@[i as int].sig);
                    assert(!output_ok_tree(s.outputs@[i as int], ic, pc, args@, ots[i as int]));
                }
                return Err(failed_err());
            },
        };
        proof {
            assert(ots[i as int] == o_args@[i as int].sig);
        }
        outs.push(val);
        i += 1;
    }
    proof {
        assert(outs@ =~= tree_run_outs(*s, ic, pc, args@, sig_seq(o_args@)));
    }
    Ok(outs)
}

/// Whether a shared-model handler run succeeds: matching inputs, no
/// declared failure, all outputs encodable over the instance's state.
pub open spec fn par_run_ok(
    s: ParScript,
    cells: Seq<u64>,
    args: Seq<ArgValue>,
    its: Seq<ArgType>,
    ots: Seq<ArgType>,
) -> bool {
    &&& args_match(args, its)
    &&& s.fail is None
    &&& outputs_ok_cells(s.outputs@, cells, args, ots)
}

/// The reply arguments of a successful shared-model handler run.
pub open spec fn par_run_outs(
    s: ParScript,
    cells: Seq<u64>,
    args: Seq<ArgValue>,
    ots: Seq<ArgType>,
) -> Seq<ArgValue> {
    outputs_vals_cells(s.outputs@, cells, args, ots)
}

/// Runs a shared-model handler body over a read-only instance. The
/// instance cannot change; no queue exists under this model.
#[verifier::loop_isolation(false)]
pub fn run_par_script(
    s: &ParScript,
    inst: &Instance,
    args: &Vec<ArgValue>,
    i_args: &Vec<Argument>,
    o_args: &Vec<Argument>,
) -> (r: Result<Vec<ArgValue>, MethodErr>)
    ensures
        par_run_ok(*s, inst.cells@, args@, sig_seq(i_args@), sig_seq(o_args@)) ==> (r matches Ok(
            outs,
        ) && outs@ == par_run_outs(*s, inst.cells@, args@, sig_seq(o_args@))),
        !par_run_ok(*s, inst.cells@, args@, sig_seq(i_args@), sig_seq(o_args@)) ==> (r matches Err(
            e,
        ) && run_err_matches(s.fail, args@, sig_seq(i_args@), e)),
{
    if !check_args(args, i_args) {
        return Err(invalid_args_err());
    }
    match &s.fail {
        Some(f) => {
            return Err(f.dup());
        },
        None => {},
    }
    let ghost ots = sig_seq(o_args@);
    proof {
        assert(ots.len() == o_args@.len());
    }
    if s.outputs.len() != o_args.len() {
        return Err(failed_err());
    }
    let mut outs: Vec<ArgValue> = Vec::new();
    let n = s.outputs.len();
    let mut i: usize = 0;
    while i < n
        invariant
            i <= n,
            outs@.len() == i,
            forall|j: int|
                0 <= j < i ==> output_ok_cells(
                    #[trigger] s.outputs@[j],
                    inst.cells@,
                    args@,
                    ots[j],
                ),
            forall|j: int|
                0 <= j < i ==> outs@[j] == output_val_cells(
                    #[trigger] s.outputs@[j],
                    inst.cells@,
                    args@,
                    ots[j],
                ),
        decreases n - i,
    {
        let raw = match s.outputs[i].run_cells(&inst.cells, args) {
            Some(v) => v,
            None => {
                proof {
                    assert(ots[i as int] == o_args@[i as int].sig);
                    assert(!output_ok_cells(
                        s.outputs@[i as int],
                        inst.cells@,
                        args@,
                        ots[i as int],
                    ));
                }
                return Err(failed_err());
            },
        };
        let val = match raw.coerce(o_args[i].sig) {
            Some(v) => v,
            None => {
                proof {
                    assert(ots[i as int] == o_args@[i as int].sig);
                    assert(!output_ok_cells(
                        s.outputs@[i as int],
                        inst.cells@,
                        args@,
                        ots[i as int],
                    ));
                }
                return Err(failed_err());
            },
        };
        proof {
            assert(ots[i as int] == o_args@[i as int].sig);
        }
        outs.push(val);
        i += 1;
    }
    proof {
        assert(outs@ =~= par_run_outs(*s, inst.cells@, args@, sig_seq(o_args@)));
    }
    Ok(outs)
}

/// Turns a handler's result into the reply to `msg`: output values become
/// a method return carrying them; a failure becomes the matching error
/// reply.
pub fn posthandler(msg: &Message, r: Result<Vec<ArgValue>, MethodErr>) -> (m: Message)
    ensures
        r matches Ok(vals) ==> (is_method_return_of(m, *msg) && m.args@ == vals@),
        r matches Err(e) ==> is_error_reply_of(m, *msg, e),
{
    match r {
        Err(e) => e.to_message(msg),
        Ok(vals) => {
            let mut m = msg.method_return();
            m.args = vals;
            m
        },
    }
}

} // verus!
