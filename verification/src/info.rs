//! Interface metadata: argument descriptors, method, property and signal
//! descriptors, annotations, and the interface bundle that the registry
//! stores.

use vstd::prelude::*;
use crate::arg::ArgType;
use crate::arg::ArgValue;
use crate::arg::arg_type_of;
use crate::assoc::lemma_str_assoc_get_at;
use crate::assoc::lemma_str_assoc_push;
use crate::assoc::lemma_str_assoc_update_other;
use crate::assoc::str_assoc_find;
use crate::assoc::str_assoc_get;
use crate::assoc::str_keys_unique;
use crate::handlers::Handlers;
use crate::handlers::MakeHandler;
use crate::strings::IfaceName;
use crate::strings::MemberName;

verus! {

/// Free-form key/value annotations on an interface, a member or an
/// argument. Keys are unique; inserting an existing key replaces its
/// value.
#[derive(Debug)]
pub struct Annotations {
    entries: Vec<(String, String)>,
}

impl View for Annotations {
    type V = Seq<(String, String)>;

    closed spec fn view(&self) -> Seq<(String, String)> {
        self.entries@
    }
}

impl Annotations {
    /// Keys are unique.
    pub open spec fn wf(&self) -> bool {
        str_keys_unique(self@)
    }

    /// The value bound to key `k`.
    pub open spec fn get_spec(&self, k: Seq<char>) -> Option<String> {
        str_assoc_get(self@, k)
    }

    /// An empty annotation set.
    pub fn new() -> (r: Annotations)
        ensures
            r.wf(),
            r@ == Seq::<(String, String)>::empty(),
            forall|k: Seq<char>| r.get_spec(k) is None,
    {
        let r = Annotations { entries: Vec::new() };
        proof {
            assert forall|k: Seq<char>| r.get_spec(k) is None by {}
        }
        r
    }

    /// Binds `k` to `v`, replacing any previous binding of `k` and leaving
    /// every other key unchanged.
    pub fn insert(&mut self, k: String, v: String)
        requires
            old(self).wf(),
        ensures
            final(self).wf(),
            final(self).get_spec(k@) == Some(v),
            forall|k2: Seq<char>| k2 != k@ ==> final(self).get_spec(k2) == old(self).get_spec(k2),
    {
        let ghost pre = self.entries@;
        match str_assoc_find(&self.entries, &k) {
            Some(i) => {
                let mut pair = (k, v);
                core::mem::swap(&mut self.entries[i], &mut pair);
                proof {
                    let ghost p = self.entries@[i as int];
                    assert(self.entries@ =~= pre.update(i as int, p));
                    assert(p.0@ == pre[i as int].0@);
                    assert forall|j: int| 0 <= j < i implies (#[trigger] self.entries@[j].0@)
                        != p.0@ by {
                        assert(self.entries@[j] == pre[j]);
                    }
                    lemma_str_assoc_get_at(self.entries@, p.0@, i as int);
                    assert forall|k2: Seq<char>| k2 != p.0@ implies str_assoc_get(self.entries@, k2)
                        == str_assoc_get(pre, k2) by {
                        lemma_str_assoc_update_other(pre, i as int, p, k2);
                    }
                    assert forall|i2: int, j2: int|
                        0 <= i2 < j2 < self.entries@.len() implies (#[trigger] self.entries@[i2].0@)
                        != (#[trigger] self.entries@[j2].0@) by {
                        assert(self.entries@[i2].0@ == pre[i2].0@);
                        assert(self.entries@[j2].0@ == pre[j2].0@);
                    }
                }
            },
            None => {
                let ghost p = (k, v);
                self.entries.push((k, v));
                proof {
                    assert(self.entries@ =~= pre.push(p));
                    assert forall|k2: Seq<char>| true implies str_assoc_get(self.entries@, k2) == (
                    if str_assoc_get(pre, k2) is Some {
                        str_assoc_get(pre, k2)
                    } else if p.0@ == k2 {
                        Some(p.1)
                    } else {
                        None::<String>
                    }) by {
                        lemma_str_assoc_push(pre, p, k2);
                    }
                    assert forall|i2: int, j2: int|
                        0 <= i2 < j2 < self.entries@.len() implies (#[trigger] self.entries@[i2].0@)
                        != (#[trigger] self.entries@[j2].0@) by {
                        if j2 < pre.len() {
                            assert(self.entries@[i2] == pre[i2]);
                            assert(self.entries@[j2] == pre[j2]);
                        } else {
                            assert(self.entries@[j2] == p);
                            assert(self.entries@[i2] == pre[i2]);
                        }
                    }
                }
            },
        }
    }

    /// Looks up the value bound to key `k`.
    pub fn get(&self, k: &String) -> (r: Option<&String>)
        ensures
            r is Some <==> self.get_spec(k@) is Some,
            r is Some ==> Some(*r->0) == self.get_spec(k@),
    {
        match str_assoc_find(&self.entries, k) {
            Some(i) => Some(&self.entries[i].1),
            None => None,
        }
    }
}

/// One declared argument of a method or signal: a name and a wire type,
/// used for introspection and for checking actual values.
#[derive(Debug)]
pub struct Argument {
    /// The argument's introspection name.
    pub name: String,
    /// The argument's wire type.
    pub sig: ArgType,
    /// Free-form annotations.
    pub anns: Annotations,
}

/// The wire types of a declared argument list.
pub open spec fn sig_seq(s: Seq<Argument>) -> Seq<ArgType> {
    s.map_values(|a: Argument| a.sig)
}

/// Whether actual values match a declared type list: same count, each
/// value at its declared type.
pub open spec fn args_match(args: Seq<ArgValue>, ts: Seq<ArgType>) -> bool {
    &&& args.len() == ts.len()
    &&& forall|i: int| 0 <= i < args.len() ==> arg_type_of(#[trigger] args[i]) == ts[i]
}

/// Builds the argument descriptors for a declared name/type list.
pub fn build_argvec(specs: &Vec<(String, ArgType)>) -> (r: Vec<Argument>)
    ensures
        r@.len() == specs@.len(),
        forall|i: int|
            0 <= i < specs@.len() ==> (#[trigger] r@[i]).name == specs@[i].0 && r@[i].sig
                == specs@[i].1 && r@[i].anns@ == Seq::<(String, String)>::empty(),
{
    let mut r: Vec<Argument> = Vec::new();
    let n = specs.len();
    let mut i: usize = 0;
    while i < n
        invariant
            n == specs@.len(),
            i <= n,
            r@.len() == i,
            forall|j: int|
                0 <= j < i ==> (#[trigger] r@[j]).name == specs@[j].0 && r@[j].sig == specs@[j].1
                    && r@[j].anns@ == Seq::<(String, String)>::empty(),
        decreases n - i,
    {
        let name = specs[i].0.clone();
        let sig = specs[i].1;
        r.push(Argument { name, sig, anns: Annotations::new() });
        i += 1;
    }
    r
}

/// Checks actual argument values against a declared argument list, as
/// [`args_match`] says.
pub fn check_args(args: &Vec<ArgValue>, specs: &Vec<Argument>) -> (b: bool)
    ensures
        b == args_match(args@, sig_seq(specs@)),
{
    if args.len() != specs.len() {
        return false;
    }
    let n = args.len();
    let mut i: usize = 0;
    while i < n
        invariant
            n == args@.len(),
            n == specs@.len(),
            i <= n,
            forall|j: int| 0 <= j < i ==> arg_type_of(#[trigger] args@[j]) == specs@[j].sig,
        decreases n - i,
    {
        if !(args[i].type_of() == specs[i].sig) {
            assert(arg_type_of(args@[i as int]) != sig_seq(specs@)[i as int]);
            return false;
        }
        i += 1;
    }
    true
}

/// The possible signaling behaviors a property can declare for changes.
#[derive(Copy, Clone, PartialEq, Eq, Structural, Debug)]
pub enum EmitsChangedSignal {
    /// Changes are signaled with the new value included.
    True,
    /// Changes are signaled without the new value.
    Invalidates,
    /// The property never changes.
    Const,
    /// Changes are not signaled.
    False,
}

/// The access characteristic of a property.
#[derive(Copy, Clone, PartialEq, Eq, Structural, Debug)]
pub enum Access {
    /// The property can only be read.
    Read,
    /// The property can be read and written.
    ReadWrite,
    /// The property can only be written.
    Write,
}

/// One method of an interface: its name, its stored handler, and its
/// declared input and output arguments.
pub struct MethodInfo<H: Handlers> {
    /// The method's name.
    pub name: MemberName,
    /// The stored handler, in the ownership model's representation.
    pub handler: H::Method,
    /// The declared input arguments.
    pub i_args: Vec<Argument>,
    /// The declared output arguments.
    pub o_args: Vec<Argument>,
    /// Free-form annotations.
    pub anns: Annotations,
}

impl<H: Handlers> MethodInfo<H> {
    /// A method descriptor with no declared arguments.
    pub fn new(name: MemberName, f: H::Method) -> (r: MethodInfo<H>)
        ensures
            r.name@ == name@,
            r.handler == f,
            r.i_args@ == Seq::<Argument>::empty(),
            r.o_args@ == Seq::<Argument>::empty(),
            r.anns@ == Seq::<(String, String)>::empty(),
    {
        MethodInfo {
            name,
            handler: f,
            i_args: Vec::new(),
            o_args: Vec::new(),
            anns: Annotations::new(),
        }
    }
}

impl<H: Handlers> MethodInfo<H> {
    /// The method's name.
    pub fn name(&self) -> (r: &MemberName)
        ensures
            *r == self.name,
    {
        &self.name
    }

    /// The stored handler.
    pub fn handler(&self) -> (r: &H::Method)
        ensures
            *r == self.handler,
    {
        &self.handler
    }

    /// The stored handler, mutably.
    pub fn handler_mut(&mut self) -> (r: &mut H::Method)
        ensures
            *r == old(self).handler,
            *final(self) == (MethodInfo { handler: *final(r), ..*old(self) }),
    {
        &mut self.handler
    }
}

impl MethodInfo<crate::handlers::Par> {
    /// A method descriptor for the shared model from a bare handler body,
    /// with no declared arguments.
    pub fn new_par(name: MemberName, s: crate::script::ParScript) -> (r: MethodInfo<
        crate::handlers::Par,
    >)
        ensures
            r.name@ == name@,
            r.handler == crate::handlers::ParMethod::Iface(s),
            r.i_args@ == Seq::<Argument>::empty(),
            r.o_args@ == Seq::<Argument>::empty(),
            r.anns@ == Seq::<(String, String)>::empty(),
    {
        MethodInfo::new(name, crate::handlers::ParMethod::Iface(s))
    }
}

/// One property of an interface: its name, its optional getter and setter,
/// its wire type and its access mode.
pub struct PropInfo<H: Handlers> {
    /// The property's name.
    pub name: MemberName,
    /// The stored getter, if the property can be read.
    pub get: Option<H::GetProp>,
    /// The stored setter, if the property can be written.
    pub set: Option<H::SetProp>,
    /// Free-form annotations.
    pub anns: Annotations,
    /// The property's wire type.
    pub sig: ArgType,
    /// The access mode, derived from which of getter and setter exist.
    pub access: Access,
}

impl<H: Handlers> PropInfo<H> {
    /// A property descriptor. The access mode is derived, never chosen: a
    /// getter alone reads, a setter alone writes, both read and write.
    /// Giving neither is a registration-time bug, so it is ruled out here.
    pub fn new(name: MemberName, sig: ArgType, get: Option<H::GetProp>, set: Option<H::SetProp>) -> (r:
        PropInfo<H>)
        requires
            get is Some || set is Some,
        ensures
            r.name@ == name@,
            r.sig == sig,
            r.get == get,
            r.set == set,
            r.anns@ == Seq::<(String, String)>::empty(),
            r.access == (if get is Some && set is Some {
                Access::ReadWrite
            } else if get is Some {
                Access::Read
            } else {
                Access::Write
            }),
    {
        let access: Access = match (&get, &set) {
            (Some(_), Some(_)) => Access::ReadWrite,
            (Some(_), None) => Access::Read,
            (None, Some(_)) => Access::Write,
            (None, None) => Access::Read,  // ruled out by the precondition
        };
        PropInfo { name, get, set, anns: Annotations::new(), sig, access }
    }
}

/// One signal of an interface: metadata only, the engine does not emit it.
#[derive(Debug)]
pub struct SignalInfo {
    /// The signal's name.
    pub name: MemberName,
    /// The declared signal arguments.
    pub args: Vec<Argument>,
    /// Free-form annotations.
    pub anns: Annotations,
}

/// A named bundle of method, property and signal descriptors plus
/// interface-level annotations.
pub struct IfaceInfo<H: Handlers> {
    /// The wire-visible interface name.
    pub name: IfaceName,
    /// The interface's methods, in declaration order.
    pub methods: Vec<MethodInfo<H>>,
    /// The interface's properties, in declaration order.
    pub props: Vec<PropInfo<H>>,
    /// The interface's signals, in declaration order.
    pub signals: Vec<SignalInfo>,
    /// Free-form annotations.
    pub anns: Annotations,
}

impl<H: Handlers> IfaceInfo<H> {
    /// An interface bundle with no members yet.
    pub fn new_empty(name: IfaceName) -> (r: IfaceInfo<H>)
        ensures
            r.name@ == name@,
            r.name.wf() == name.wf(),
            r.methods@ == Seq::<MethodInfo<H>>::empty(),
            r.props@ == Seq::<PropInfo<H>>::empty(),
            r.signals@ == Seq::<SignalInfo>::empty(),
            r.anns@ == Seq::<(String, String)>::empty(),
    {
        IfaceInfo {
            name,
            methods: Vec::new(),
            props: Vec::new(),
            signals: Vec::new(),
            anns: Annotations::new(),
        }
    }

    /// An interface bundle from ready member lists.
    pub fn new(name: IfaceName, methods: Vec<MethodInfo<H>>, props: Vec<PropInfo<H>>, signals: Vec<
        SignalInfo,
    >) -> (r: IfaceInfo<H>)
        ensures
            r.name@ == name@,
            r.name.wf() == name.wf(),
            r.methods@ == methods@,
            r.props@ == props@,
            r.signals@ == signals@,
            r.anns@ == Seq::<(String, String)>::empty(),
    {
        IfaceInfo { name, methods, props, signals, anns: Annotations::new() }
    }
}

/// Which kind of member a builder touched last: modifier calls apply to
/// it.
#[derive(Copy, Clone, PartialEq, Eq, Structural, Debug)]
pub enum MetSigProp {
    /// The last added member was a method.
    Method,
    /// The last added member was a signal.
    Signal,
    /// The last added member was a property.
    Prop,
}

/// The value an [`EmitsChangedSignal`] annotation carries.
pub open spec fn emits_changed_value(e: EmitsChangedSignal) -> Seq<char> {
    match e {
        EmitsChangedSignal::True => "true"@,
        EmitsChangedSignal::False => "false"@,
        EmitsChangedSignal::Invalidates => "invalidates"@,
        EmitsChangedSignal::Const => "const"@,
    }
}

/// Accumulates one interface descriptor member by member and commits it
/// into a registry under the implementation-type identity given at
/// construction. A builder that is never committed only builds metadata.
pub struct IfaceInfoBuilder<H: Handlers> {
    /// The descriptor being built.
    pub info: IfaceInfo<H>,
    /// The implementation-type identity the descriptor will be bound to.
    pub type_id: u64,
    /// The kind of the most recently added member, if any.
    pub last: Option<MetSigProp>,
}

impl<H: Handlers> IfaceInfoBuilder<H> {
    /// Every annotation set is well-formed and the last-touched tag points
    /// at an existing member.
    pub open spec fn wf(&self) -> bool {
        &&& self.info.anns.wf()
        &&& forall|i: int|
            0 <= i < self.info.methods@.len() ==> (#[trigger] self.info.methods@[i]).anns.wf()
        &&& forall|i: int|
            0 <= i < self.info.props@.len() ==> (#[trigger] self.info.props@[i]).anns.wf()
        &&& forall|i: int|
            0 <= i < self.info.signals@.len() ==> (#[trigger] self.info.signals@[i]).anns.wf()
        &&& self.last == Some(MetSigProp::Method) ==> self.info.methods@.len() > 0
        &&& self.last == Some(MetSigProp::Signal) ==> self.info.signals@.len() > 0
        &&& self.last == Some(MetSigProp::Prop) ==> self.info.props@.len() > 0
    }

    /// A fresh builder for interface `name`, bound to `type_id`.
    pub fn new(type_id: u64, name: IfaceName) -> (r: IfaceInfoBuilder<H>)
        ensures
            r.wf(),
            r.type_id == type_id,
            r.info.name@ == name@,
            r.info.name.wf() == name.wf(),
            r.info.methods@ == Seq::<MethodInfo<H>>::empty(),
            r.info.props@ == Seq::<PropInfo<H>>::empty(),
            r.info.signals@ == Seq::<SignalInfo>::empty(),
            r.info.anns@ == Seq::<(String, String)>::empty(),
            r.last is None,
    {
        IfaceInfoBuilder { info: IfaceInfo::new_empty(name), type_id, last: None }
    }

    /// Adds a method from an already-wrapped handler; the declared input
    /// and output arguments serve introspection and argument checking. The
    /// method becomes the last-touched member.
    pub fn method_custom(
        self,
        name: MemberName,
        in_args: &Vec<(String, ArgType)>,
        out_args: &Vec<(String, ArgType)>,
        f: H::Method,
    ) -> (r: IfaceInfoBuilder<H>)
        requires
            self.wf(),
        ensures
            r.wf(),
            r.type_id == self.type_id,
            r.info.name == self.info.name,
            r.info.props == self.info.props,
            r.info.signals == self.info.signals,
            r.info.anns == self.info.anns,
            r.last == Some(MetSigProp::Method),
            r.info.methods@.len() == self.info.methods@.len() + 1,
            forall|j: int|
                0 <= j < self.info.methods@.len() ==> r.info.methods@[j] == self.info.methods@[j],
            ({
                let m = r.info.methods@.last();
                &&& m.name@ == name@
                &&& m.handler == f
                &&& sig_seq(m.i_args@) == in_args@.map_values(|a: (String, ArgType)| a.1)
                &&& sig_seq(m.o_args@) == out_args@.map_values(|a: (String, ArgType)| a.1)
                &&& m.anns@ == Seq::<(String, String)>::empty()
            }),
    {
        let mut b = self;
        let i_args = build_argvec(in_args);
        let o_args = build_argvec(out_args);
        let ghost gi = i_args@;
        let ghost go = o_args@;
        b.info.methods.push(
            MethodInfo { name, handler: f, i_args, o_args, anns: Annotations::new() },
        );
        b.last = Some(MetSigProp::Method);
        proof {
            assert(sig_seq(gi) =~= in_args@.map_values(|a: (String, ArgType)| a.1));
            assert(sig_seq(go) =~= out_args@.map_values(|a: (String, ArgType)| a.1));
            assert forall|i: int|
                0 <= i < b.info.methods@.len() implies (#[trigger] b.info.methods@[i]).anns.wf() by {
                if i < b.info.methods@.len() - 1 {
                    assert(b.info.methods@[i] == self.info.methods@[i]);
                }
            }
        }
        b
    }

    /// Adds a method from a handler body, wrapping it into this model's
    /// representation first.
    pub fn method<F: MakeHandler<H::Method>>(
        self,
        name: MemberName,
        in_args: &Vec<(String, ArgType)>,
        out_args: &Vec<(String, ArgType)>,
        f: F,
    ) -> (r: IfaceInfoBuilder<H>)
        requires
            self.wf(),
        ensures
            r.wf(),
            r.type_id == self.type_id,
            r.info.name == self.info.name,
            r.info.props == self.info.props,
            r.info.signals == self.info.signals,
            r.info.anns == self.info.anns,
            r.last == Some(MetSigProp::Method),
            r.info.methods@.len() == self.info.methods@.len() + 1,
            forall|j: int|
                0 <= j < self.info.methods@.len() ==> r.info.methods@[j] == self.info.methods@[j],
            ({
                let m = r.info.methods@.last();
                &&& m.name@ == name@
                &&& m.handler == f.make_spec()
                &&& sig_seq(m.i_args@) == in_args@.map_values(|a: (String, ArgType)| a.1)
                &&& sig_seq(m.o_args@) == out_args@.map_values(|a: (String, ArgType)| a.1)
                &&& m.anns@ == Seq::<(String, String)>::empty()
            }),
    {
        let h = f.make();
        self.method_custom(name, in_args, out_args, h)
    }

    /// Adds a signal's metadata; the signal becomes the last-touched
    /// member.
    pub fn signal(self, name: MemberName, args: &Vec<(String, ArgType)>) -> (r: IfaceInfoBuilder<
        H,
    >)
        requires
            self.wf(),
        ensures
            r.wf(),
            r.type_id == self.type_id,
            r.info.name == self.info.name,
            r.info.methods == self.info.methods,
            r.info.props == self.info.props,
            r.info.anns == self.info.anns,
            r.last == Some(MetSigProp::Signal),
            r.info.signals@.len() == self.info.signals@.len() + 1,
            forall|j: int|
                0 <= j < self.info.signals@.len() ==> r.info.signals@[j] == self.info.signals@[j],
            ({
                let s = r.info.signals@.last();
                &&& s.name@ == name@
                &&& sig_seq(s.args@) == args@.map_values(|a: (String, ArgType)| a.1)
                &&& s.anns@ == Seq::<(String, String)>::empty()
            }),
    {
        let mut b = self;
        let sargs = build_argvec(args);
        let ghost gs = sargs@;
        b.info.signals.push(SignalInfo { name, args: sargs, anns: Annotations::new() });
        b.last = Some(MetSigProp::Signal);
        proof {
            assert(sig_seq(gs) =~= args@.map_values(|a: (String, ArgType)| a.1));
            assert forall|i: int|
                0 <= i < b.info.signals@.len() implies (#[trigger] b.info.signals@[i]).anns.wf() by {
                if i < b.info.signals@.len() - 1 {
                    assert(b.info.signals@[i] == self.info.signals@[i]);
                }
            }
        }
        b
    }

    /// Attaches an annotation to the last-touched member, or to the
    /// interface itself when nothing has been added yet.
    pub fn annotate(self, name: String, value: String) -> (r: IfaceInfoBuilder<H>)
        requires
            self.wf(),
        ensures
            r.wf(),
            r.type_id == self.type_id,
            r.last == self.last,
            r.info.name == self.info.name,
            annotate_target_rel(self, r, name@, value),
    {
        let mut b = self;
        match b.last {
            None => {
                b.info.anns.insert(name, value);
            },
            Some(MetSigProp::Method) => {
                let idx = b.info.methods.len() - 1;
                let m = &mut b.info.methods[idx];
                m.anns.insert(name, value);
                proof {
                    assert forall|i: int|
                        0 <= i < b.info.methods@.len() implies (
                        #[trigger] b.info.methods@[i]).anns.wf() by {
                        if i != idx {
                            assert(b.info.methods@[i] == self.info.methods@[i]);
                        }
                    }
                }
            },
            Some(MetSigProp::Signal) => {
                let idx = b.info.signals.len() - 1;
                let s = &mut b.info.signals[idx];
                s.anns.insert(name, value);
                proof {
                    assert forall|i: int|
                        0 <= i < b.info.signals@.len() implies (
                        #[trigger] b.info.signals@[i]).anns.wf() by {
                        if i != idx {
                            assert(b.info.signals@[i] == self.info.signals@[i]);
                        }
                    }
                }
            },
            Some(MetSigProp::Prop) => {
                let idx = b.info.props.len() - 1;
                let p = &mut b.info.props[idx];
                p.anns.insert(name, value);
                proof {
                    assert forall|i: int|
                        0 <= i < b.info.props@.len() implies (
                        #[trigger] b.info.props@[i]).anns.wf() by {
                        if i != idx {
                            assert(b.info.props@[i] == self.info.props@[i]);
                        }
                    }
                }
            },
        }
        b
    }

    /// Attaches the standard deprecation annotation to the last-touched
    /// member, or to the interface itself when nothing has been added yet.
    pub fn deprecated(self) -> (r: IfaceInfoBuilder<H>)
        requires
            self.wf(),
        ensures
            r.wf(),
            r.type_id == self.type_id,
            r.last == self.last,
            r.info.name == self.info.name,
            exists|v: String|
                #![auto]
                v@ == "true"@ && annotate_target_rel(self, r, "org.freedesktop.DBus.Deprecated"@, v),
    {
        let v: String = "true".to_owned();
        let ghost gv = v;
        let r = self.annotate("org.freedesktop.DBus.Deprecated".to_owned(), v);
        proof {
            assert(gv@ == "true"@ && annotate_target_rel(
                self,
                r,
                "org.freedesktop.DBus.Deprecated"@,
                gv,
            ));
        }
        r
    }

    /// Attaches the change-notification annotation. It belongs on a
    /// property or on the whole interface; calling this after adding a
    /// method or a signal is a registration-time bug, so it is ruled out
    /// here.
    pub fn emits_changed(self, e: EmitsChangedSignal) -> (r: IfaceInfoBuilder<H>)
        requires
            self.wf(),
            self.last is None || self.last == Some(MetSigProp::Prop),
        ensures
            r.wf(),
            r.type_id == self.type_id,
            r.last == self.last,
            r.info.name == self.info.name,
            exists|v: String|
                #![auto]
                v@ == emits_changed_value(e) && annotate_target_rel(
                    self,
                    r,
                    "org.freedesktop.DBus.Property.EmitsChangedSignal"@,
                    v,
                ),
    {
        let v: String = match e {
            EmitsChangedSignal::True => "true".to_owned(),
            EmitsChangedSignal::False => "false".to_owned(),
            EmitsChangedSignal::Invalidates => "invalidates".to_owned(),
            EmitsChangedSignal::Const => "const".to_owned(),
        };
        let ghost gv = v;
        let r = self.annotate("org.freedesktop.DBus.Property.EmitsChangedSignal".to_owned(), v);
        proof {
            assert(gv@ == emits_changed_value(e) && annotate_target_rel(
                self,
                r,
                "org.freedesktop.DBus.Property.EmitsChangedSignal"@,
                gv,
            ));
        }
        r
    }

    /// Overrides the derived access mode of the last-touched property.
    /// Calling this when the last-touched member is not a property is a
    /// registration-time bug, so it is ruled out here.
    pub fn access(self, a: Access) -> (r: IfaceInfoBuilder<H>)
        requires
            self.wf(),
            self.last == Some(MetSigProp::Prop),
        ensures
            r.wf(),
            r.type_id == self.type_id,
            r.last == self.last,
            r.info.name == self.info.name,
            r.info.methods == self.info.methods,
            r.info.signals == self.info.signals,
            r.info.anns == self.info.anns,
            r.info.props@.len() == self.info.props@.len(),
            forall|j: int|
                0 <= j < self.info.props@.len() - 1 ==> r.info.props@[j] == self.info.props@[j],
            ({
                let k = self.info.props@.len() - 1;
                &&& r.info.props@[k].access == a
                &&& r.info.props@[k].name == self.info.props@[k].name
                &&& r.info.props@[k].get == self.info.props@[k].get
                &&& r.info.props@[k].set == self.info.props@[k].set
                &&& r.info.props@[k].sig == self.info.props@[k].sig
                &&& r.info.props@[k].anns == self.info.props@[k].anns
            }),
    {
        let mut b = self;
        let idx = b.info.props.len() - 1;
        let p = &mut b.info.props[idx];
        p.access = a;
        proof {
            assert forall|i: int|
                0 <= i < b.info.props@.len() implies (#[trigger] b.info.props@[i]).anns.wf() by {
                if i != idx {
                    assert(b.info.props@[i] == self.info.props@[i]);
                }
            }
        }
        b
    }

    /// Commits the accumulated descriptor into `cr` under this builder's
    /// interface name and type identity, replacing and returning any
    /// previously registered descriptor of the same name.
    pub fn commit(self, cr: &mut crate::crossroads::Crossroads<H>) -> (r: Option<IfaceInfo<H>>)
        requires
            old(cr).wf(),
        ensures
            final(cr).wf(),
            final(cr).paths == old(cr).paths,
            final(cr).reg_get(self.info.name@) == Some((self.type_id, self.info)),
            forall|n: Seq<char>|
                n != self.info.name@ ==> final(cr).reg_get(n) == old(cr).reg_get(n),
            r == match old(cr).reg_get(self.info.name@) {
                Some(e) => Some(e.1),
                None => None::<IfaceInfo<H>>,
            },
    {
        cr.register_custom(self.type_id, self.info)
    }
}

impl IfaceInfoBuilder<crate::handlers::Par> {
    /// Adds a read-only property for the shared model: a getter and the
    /// derived `Read` access. The property becomes the last-touched
    /// member.
    pub fn prop_ro(self, name: MemberName, sig: ArgType, getter: crate::script::OutputSpec) -> (r:
        IfaceInfoBuilder<crate::handlers::Par>)
        requires
            self.wf(),
        ensures
            r.wf(),
            r.type_id == self.type_id,
            r.info.name == self.info.name,
            r.info.methods == self.info.methods,
            r.info.signals == self.info.signals,
            r.info.anns == self.info.anns,
            r.last == Some(MetSigProp::Prop),
            r.info.props@.len() == self.info.props@.len() + 1,
            forall|j: int|
                0 <= j < self.info.props@.len() ==> r.info.props@[j] == self.info.props@[j],
            ({
                let p = r.info.props@.last();
                &&& p.name@ == name@
                &&& p.sig == sig
                &&& p.get matches Some(g) && g.source == getter && g.fail is None
                &&& p.set is None
                &&& p.access == Access::Read
                &&& p.anns@ == Seq::<(String, String)>::empty()
            }),
    {
        let mut b = self;
        let p = PropInfo::new(name, sig, Some(crate::handlers::Par::typed_getprop(getter)), None);
        b.info.props.push(p);
        b.last = Some(MetSigProp::Prop);
        proof {
            assert forall|i: int|
                0 <= i < b.info.props@.len() implies (#[trigger] b.info.props@[i]).anns.wf() by {
                if i < b.info.props@.len() - 1 {
                    assert(b.info.props@[i] == self.info.props@[i]);
                }
            }
        }
        b
    }

    /// Adds a read-write property for the shared model: a getter, a setter
    /// over cell `cell` of this builder's own implementation type, and the
    /// derived `ReadWrite` access. The property becomes the last-touched
    /// member.
    pub fn prop_rw(
        self,
        name: MemberName,
        sig: ArgType,
        getter: crate::script::OutputSpec,
        cell: usize,
    ) -> (r: IfaceInfoBuilder<crate::handlers::Par>)
        requires
            self.wf(),
        ensures
            r.wf(),
            r.type_id == self.type_id,
            r.info.name == self.info.name,
            r.info.methods == self.info.methods,
            r.info.signals == self.info.signals,
            r.info.anns == self.info.anns,
            r.last == Some(MetSigProp::Prop),
            r.info.props@.len() == self.info.props@.len() + 1,
            forall|j: int|
                0 <= j < self.info.props@.len() ==> r.info.props@[j] == self.info.props@[j],
            ({
                let p = r.info.props@.last();
                &&& p.name@ == name@
                &&& p.sig == sig
                &&& p.get matches Some(g) && g.source == getter && g.fail is None
                &&& p.set matches Some(s) && s.type_id == self.type_id && s.cell == cell
                    && s.fail is None
                &&& p.access == Access::ReadWrite
                &&& p.anns@ == Seq::<(String, String)>::empty()
            }),
    {
        let mut b = self;
        let p = PropInfo::new(
            name,
            sig,
            Some(crate::handlers::Par::typed_getprop(getter)),
            Some(crate::handlers::Par::typed_setprop(b.type_id, cell)),
        );
        b.info.props.push(p);
        b.last = Some(MetSigProp::Prop);
        proof {
            assert forall|i: int|
                0 <= i < b.info.props@.len() implies (#[trigger] b.info.props@[i]).anns.wf() by {
                if i < b.info.props@.len() - 1 {
                    assert(b.info.props@[i] == self.info.props@[i]);
                }
            }
        }
        b
    }
}

/// How [`IfaceInfoBuilder::annotate`] changes its target: the binding is
/// added to the last-touched member's annotations — or the interface's
/// own, when nothing has been added — and everything else stays as it
/// was.
pub open spec fn annotate_target_rel<H: Handlers>(
    pre: IfaceInfoBuilder<H>,
    post: IfaceInfoBuilder<H>,
    name: Seq<char>,
    value: String,
) -> bool {
    match pre.last {
        None => {
            &&& post.info.methods == pre.info.methods
            &&& post.info.props == pre.info.props
            &&& post.info.signals == pre.info.signals
            &&& post.info.anns.get_spec(name) == Some(value)
            &&& forall|k2: Seq<char>|
                k2 != name ==> post.info.anns.get_spec(k2) == pre.info.anns.get_spec(k2)
        },
        Some(MetSigProp::Method) => {
            let k = pre.info.methods@.len() - 1;
            &&& post.info.props == pre.info.props
            &&& post.info.signals == pre.info.signals
            &&& post.info.anns == pre.info.anns
            &&& post.info.methods@.len() == pre.info.methods@.len()
            &&& forall|j: int| 0 <= j < k ==> post.info.methods@[j] == pre.info.methods@[j]
            &&& post.info.methods@[k].name == pre.info.methods@[k].name
            &&& post.info.methods@[k].handler == pre.info.methods@[k].handler
            &&& post.info.methods@[k].i_args == pre.info.methods@[k].i_args
            &&& post.info.methods@[k].o_args == pre.info.methods@[k].o_args
            &&& post.info.methods@[k].anns.get_spec(name) == Some(value)
            &&& forall|k2: Seq<char>|
                k2 != name ==> post.info.methods@[k].anns.get_spec(k2)
                    == pre.info.methods@[k].anns.get_spec(k2)
        },
        Some(MetSigProp::Signal) => {
            let k = pre.info.signals@.len() - 1;
            &&& post.info.methods == pre.info.methods
            &&& post.info.props == pre.info.props
            &&& post.info.anns == pre.info.anns
            &&& post.info.signals@.len() == pre.info.signals@.len()
            &&& forall|j: int| 0 <= j < k ==> post.info.signals@[j] == pre.info.signals@[j]
            &&& post.info.signals@[k].name == pre.info.signals@[k].name
            &&& post.info.signals@[k].args == pre.info.signals@[k].args
            &&& post.info.signals@[k].anns.get_spec(name) == Some(value)
            &&& forall|k2: Seq<char>|
                k2 != name ==> post.info.signals@[k].anns.get_spec(k2)
                    == pre.info.signals@[k].anns.get_spec(k2)
        },
        Some(MetSigProp::Prop) => {
            let k = pre.info.props@.len() - 1;
            &&& post.info.methods == pre.info.methods
            &&& post.info.signals == pre.info.signals
            &&& post.info.anns == pre.info.anns
            &&& post.info.props@.len() == pre.info.props@.len()
            &&& forall|j: int| 0 <= j < k ==> post.info.props@[j] == pre.info.props@[j]
            &&& post.info.props@[k].name == pre.info.props@[k].name
            &&& post.info.props@[k].get == pre.info.props@[k].get
            &&& post.info.props@[k].set == pre.info.props@[k].set
            &&& post.info.props@[k].sig == pre.info.props@[k].sig
            &&& post.info.props@[k].access == pre.info.props@[k].access
            &&& post.info.props@[k].anns.get_spec(name) == Some(value)
            &&& forall|k2: Seq<char>|
                k2 != name ==> post.info.props@[k].anns.get_spec(k2)
                    == pre.info.props@[k].anns.get_spec(k2)
        },
    }
}

/// First-match lookup of a method by name.
pub open spec fn method_find<H: Handlers>(s: Seq<MethodInfo<H>>, n: Seq<char>) -> Option<
    MethodInfo<H>,
>
    decreases s.len(),
{
    if s.len() == 0 {
        None
    } else if s[0].name@ == n {
        Some(s[0])
    } else {
        method_find(s.drop_first(), n)
    }
}

/// The lookup returns the entry at the first index whose name matches.
pub proof fn lemma_method_find_at<H: Handlers>(s: Seq<MethodInfo<H>>, n: Seq<char>, i: int)
    requires
        0 <= i < s.len(),
        forall|j: int| 0 <= j < i ==> (#[trigger] s[j].name@) != n,
        s[i].name@ == n,
    ensures
        method_find(s, n) == Some(s[i]),
    decreases i,
{
    if i > 0 {
        assert forall|j: int| 0 <= j < i - 1 implies (#[trigger] s.drop_first()[j].name@) != n by {
            assert(s.drop_first()[j] == s[j + 1]);
        }
        assert(s.drop_first()[i - 1] == s[i]);
        lemma_method_find_at(s.drop_first(), n, i - 1);
    }
}

/// The lookup misses when no method's name matches.
pub proof fn lemma_method_find_none<H: Handlers>(s: Seq<MethodInfo<H>>, n: Seq<char>)
    requires
        forall|j: int| 0 <= j < s.len() ==> (#[trigger] s[j].name@) != n,
    ensures
        method_find(s, n) is None,
    decreases s.len(),
{
    if s.len() > 0 {
        assert forall|j: int| 0 <= j < s.drop_first().len() implies (#[trigger] s.drop_first()[j].name@)
            != n by {
            assert(s.drop_first()[j] == s[j + 1]);
        }
        lemma_method_find_none(s.drop_first(), n);
    }
}

/// Finds the first method with name `n`, connecting the result to
/// [`method_find`].
pub fn find_method<H: Handlers>(methods: &Vec<MethodInfo<H>>, n: &String) -> (r: Option<usize>)
    ensures
        match r {
            Some(i) => {
                &&& i < methods@.len()
                &&& methods@[i as int].name@ == n@
                &&& forall|j: int| 0 <= j < i ==> (#[trigger] methods@[j].name@) != n@
                &&& method_find(methods@, n@) == Some(methods@[i as int])
            },
            None => {
                &&& forall|j: int| 0 <= j < methods@.len() ==> (#[trigger] methods@[j].name@) != n@
                &&& method_find(methods@, n@) is None
            },
        },
{
    let count = methods.len();
    let mut i: usize = 0;
    while i < count
        invariant
            count == methods@.len(),
            i <= count,
            forall|j: int| 0 <= j < i ==> (#[trigger] methods@[j].name@) != n@,
        decreases count - i,
    {
        if methods[i].name.eq_string(n) {
            proof {
                lemma_method_find_at(methods@, n@, i as int);
            }
            return Some(i);
        }
        i += 1;
    }
    proof {
        lemma_method_find_none(methods@, n@);
    }
    None
}

/// First-match lookup of a property by name.
pub open spec fn prop_find<H: Handlers>(s: Seq<PropInfo<H>>, n: Seq<char>) -> Option<PropInfo<H>>
    decreases s.len(),
{
    if s.len() == 0 {
        None
    } else if s[0].name@ == n {
        Some(s[0])
    } else {
        prop_find(s.drop_first(), n)
    }
}

/// The lookup returns the entry at the first index whose name matches.
pub proof fn lemma_prop_find_at<H: Handlers>(s: Seq<PropInfo<H>>, n: Seq<char>, i: int)
    requires
        0 <= i < s.len(),
        forall|j: int| 0 <= j < i ==> (#[trigger] s[j].name@) != n,
        s[i].name@ == n,
    ensures
        prop_find(s, n) == Some(s[i]),
    decreases i,
{
    if i > 0 {
        assert forall|j: int| 0 <= j < i - 1 implies (#[trigger] s.drop_first()[j].name@) != n by {
            assert(s.drop_first()[j] == s[j + 1]);
        }
        assert(s.drop_first()[i - 1] == s[i]);
        lemma_prop_find_at(s.drop_first(), n, i - 1);
    }
}

/// The lookup misses when no property's name matches.
pub proof fn lemma_prop_find_none<H: Handlers>(s: Seq<PropInfo<H>>, n: Seq<char>)
    requires
        forall|j: int| 0 <= j < s.len() ==> (#[trigger] s[j].name@) != n,
    ensures
        prop_find(s, n) is None,
    decreases s.len(),
{
    if s.len() > 0 {
        assert forall|j: int| 0 <= j < s.drop_first().len() implies (#[trigger] s.drop_first()[j].name@)
            != n by {
            assert(s.drop_first()[j] == s[j + 1]);
        }
        lemma_prop_find_none(s.drop_first(), n);
    }
}

/// Finds the first property with name `n`, connecting the result to
/// [`prop_find`].
pub fn find_prop<H: Handlers>(props: &Vec<PropInfo<H>>, n: &String) -> (r: Option<usize>)
    ensures
        match r {
            Some(i) => {
                &&& i < props@.len()
                &&& props@[i as int].name@ == n@
                &&& forall|j: int| 0 <= j < i ==> (#[trigger] props@[j].name@) != n@
                &&& prop_find(props@, n@) == Some(props@[i as int])
            },
            None => {
                &&& forall|j: int| 0 <= j < props@.len() ==> (#[trigger] props@[j].name@) != n@
                &&& prop_find(props@, n@) is None
            },
        },
{
    let count = props.len();
    let mut i: usize = 0;
    while i < count
        invariant
            count == props@.len(),
            i <= count,
            forall|j: int| 0 <= j < i ==> (#[trigger] props@[j].name@) != n@,
        decreases count - i,
    {
        if props[i].name.eq_string(n) {
            proof {
                lemma_prop_find_at(props@, n@, i as int);
            }
            return Some(i);
        }
        i += 1;
    }
    proof {
        lemma_prop_find_none(props@, n@);
    }
    None
}

} // verus!
