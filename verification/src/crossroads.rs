//! The engine's top level: the interface registry, the object-path table,
//! and the dispatchers.
//!
//! A [`Crossroads`] owns one registry (interface name to implementation-
//! type identity and metadata) and one object-path table (path to per-path
//! instance store), fixed to one ownership model for its whole lifetime.
//! Dispatch joins the two tables by type identity and invokes the matching
//! handler.

use vstd::prelude::*;
use crate::arg::ArgValue;
use crate::arg::MethodErr;
use crate::assoc::id_assoc_find;
use crate::assoc::id_assoc_get;
use crate::assoc::id_keys_unique;
use crate::assoc::lemma_id_assoc_push;
use crate::assoc::lemma_str_assoc_get_at;
use crate::assoc::lemma_str_assoc_push;
use crate::assoc::lemma_str_assoc_update_other;
use crate::assoc::str_assoc_find;
use crate::assoc::str_assoc_get;
use crate::assoc::str_keys_unique;
use crate::handlers::Handlers;
use crate::handlers::Mut;
use crate::handlers::MutCtx;
use crate::handlers::MutMethods;
use crate::handlers::Par;
use crate::handlers::ParMethod;
use crate::handlers::iface_run_cells;
use crate::handlers::iface_run_ok;
use crate::handlers::iface_run_outs;
use crate::handlers::is_matching_err_reply;
use crate::handlers::par_run_ok;
use crate::handlers::par_run_outs;
use crate::handlers::posthandler;
use crate::handlers::run_iface_script;
use crate::handlers::run_par_script;
use crate::handlers::run_tree_script;
use crate::handlers::tree_run_ok;
use crate::handlers::tree_run_outs;
use crate::info::IfaceInfo;
use crate::info::sig_seq;
use crate::message::is_method_return_of;
use crate::message::msg_eq;
use crate::info::MethodInfo;
use crate::info::PropInfo;
use crate::info::find_method;
use crate::info::find_prop;
use crate::info::method_find;
use crate::info::prop_find;
use crate::message::Message;
use crate::message::MsgHeaders;
use crate::message::is_routable_call;
use crate::message::msg_headers;
use crate::script::Instance;
use crate::strings::IfaceName;
use crate::strings::PathName;

verus! {

/// The per-object-path instance store: at most one implementation instance
/// per registered type identity.
pub struct PathData<H: Handlers> {
    /// The stored instances, keyed by implementation-type identity.
    pub entries: Vec<(u64, H::Iface)>,
}

impl<H: Handlers> PathData<H> {
    /// Type identities are unique within one store.
    pub open spec fn wf(&self) -> bool {
        id_keys_unique(self.entries@)
    }

    /// The instance stored under type identity `id`.
    pub open spec fn iface_get(&self, id: u64) -> Option<H::Iface> {
        id_assoc_get(self.entries@, id)
    }

    /// An empty store.
    pub fn new() -> (r: PathData<H>)
        ensures
            r.wf(),
            r.entries@ == Seq::<(u64, H::Iface)>::empty(),
            forall|id: u64| r.iface_get(id) is None,
    {
        let r = PathData { entries: Vec::new() };
        proof {
            assert forall|id: u64| r.iface_get(id) is None by {}
        }
        r
    }

    /// Stores `inst` under type identity `id`, replacing any instance that
    /// identity already had and leaving every other identity unchanged.
    pub fn insert_inst(&mut self, id: u64, inst: H::Iface)
        requires
            old(self).wf(),
        ensures
            final(self).wf(),
            final(self).iface_get(id) == Some(inst),
            forall|id2: u64| id2 != id ==> final(self).iface_get(id2) == old(self).iface_get(id2),
    {
        let ghost pre = self.entries@;
        match id_assoc_find(&self.entries, id) {
            Some(i) => {
                let mut pair = (id, inst);
                core::mem::swap(&mut self.entries[i], &mut pair);
                proof {
                    let ghost p = self.entries@[i as int];
                    assert(self.entries@ =~= pre.update(i as int, p));
                    assert(p.0 == pre[i as int].0);
                    assert forall|j: int| 0 <= j < i implies (#[trigger] self.entries@[j].0)
                        != p.0 by {
                        assert(self.entries@[j] == pre[j]);
                    }
                    crate::assoc::lemma_id_assoc_get_at(self.entries@, p.0, i as int);
                    assert forall|id2: u64| id2 != id implies id_assoc_get(self.entries@, id2)
                        == id_assoc_get(pre, id2) by {
                        crate::assoc::lemma_id_assoc_update_other(pre, i as int, p, id2);
                    }
                    assert forall|i2: int, j2: int|
                        0 <= i2 < j2 < self.entries@.len() implies (#[trigger] self.entries@[i2].0)
                        != (#[trigger] self.entries@[j2].0) by {
                        assert(self.entries@[i2].0 == pre[i2].0);
                        assert(self.entries@[j2].0 == pre[j2].0);
                    }
                }
            },
            None => {
                let ghost p = (id, inst);
                self.entries.push((id, inst));
                proof {
                    assert(self.entries@ =~= pre.push(p));
                    assert forall|id2: u64| true implies id_assoc_get(self.entries@, id2) == (
                    if id_assoc_get(pre, id2) is Some {
                        id_assoc_get(pre, id2)
                    } else if p.0 == id2 {
                        Some(p.1)
                    } else {
                        None::<H::Iface>
                    }) by {
                        lemma_id_assoc_push(pre, p, id2);
                    }
                    assert forall|i2: int, j2: int|
                        0 <= i2 < j2 < self.entries@.len() implies (#[trigger] self.entries@[i2].0)
                        != (#[trigger] self.entries@[j2].0) by {
                        if j2 < pre.len() {
                            assert(self.entries@[i2] == pre[i2]);
                            assert(self.entries@[j2] == pre[j2]);
                        } else {
                            assert(self.entries@[j2] == p);
                            assert(self.entries@[i2] == pre[i2]);
                        }
                    }
                }
            },
        }
    }

    /// Whether an instance is stored under type identity `x`.
    pub fn contains_key(&self, x: u64) -> (b: bool)
        ensures
            b == (self.iface_get(x) is Some),
    {
        match id_assoc_find(&self.entries, x) {
            Some(_) => true,
            None => false,
        }
    }
}

impl PathData<crate::handlers::Par> {
    /// Stores an instance for the shared model, replacing any instance its
    /// type identity already had.
    pub fn insert_par(&mut self, id: u64, inst: Instance)
        requires
            old(self).wf(),
        ensures
            final(self).wf(),
            final(self).iface_get(id) == Some(inst),
            forall|id2: u64| id2 != id ==> final(self).iface_get(id2) == old(self).iface_get(id2),
    {
        self.insert_inst(id, inst);
    }
}

impl PathData<crate::handlers::Mut> {
    /// Stores an instance for the exclusive model, replacing any instance
    /// its type identity already had.
    pub fn insert_mut(&mut self, id: u64, inst: Instance)
        requires
            old(self).wf(),
        ensures
            final(self).wf(),
            final(self).iface_get(id) == Some(inst),
            forall|id2: u64| id2 != id ==> final(self).iface_get(id2) == old(self).iface_get(id2),
    {
        self.insert_inst(id, inst);
    }
}

/// The engine's top level: one registry and one object-path table, under
/// one ownership model.
pub struct Crossroads<H: Handlers> {
    /// The registry: interface name to implementation-type identity and
    /// interface metadata.
    pub reg: Vec<(String, (u64, IfaceInfo<H>))>,
    /// The object-path table: path name to per-path instance store.
    pub paths: Vec<(String, PathData<H>)>,
}

impl<H: Handlers> Crossroads<H> {
    /// Registry and path keys are unique, every store is well-formed, and
    /// every registry entry is keyed by its descriptor's own name.
    pub open spec fn wf(&self) -> bool {
        &&& str_keys_unique(self.reg@)
        &&& str_keys_unique(self.paths@)
        &&& forall|i: int| 0 <= i < self.paths@.len() ==> (#[trigger] self.paths@[i]).1.wf()
        &&& forall|i: int|
            0 <= i < self.reg@.len() ==> (#[trigger] self.reg@[i]).1.1.name@ == self.reg@[i].0@
    }

    /// The registry entry for interface name `n`.
    pub open spec fn reg_get(&self, n: Seq<char>) -> Option<(u64, IfaceInfo<H>)> {
        str_assoc_get(self.reg@, n)
    }

    /// The instance store at path `p`.
    pub open spec fn data_get(&self, p: Seq<char>) -> Option<PathData<H>> {
        str_assoc_get(self.paths@, p)
    }

    /// An empty engine: nothing registered, no object paths.
    pub fn new() -> (r: Crossroads<H>)
        ensures
            r.wf(),
            r.reg@ == Seq::<(String, (u64, IfaceInfo<H>))>::empty(),
            r.paths@ == Seq::<(String, PathData<H>)>::empty(),
            forall|n: Seq<char>| r.reg_get(n) is None,
            forall|p: Seq<char>| r.data_get(p) is None,
    {
        let r = Crossroads { reg: Vec::new(), paths: Vec::new() };
        proof {
            assert forall|n: Seq<char>| r.reg_get(n) is None by {}
            assert forall|p: Seq<char>| r.data_get(p) is None by {}
        }
        r
    }

    /// Registers a ready interface descriptor under its name, bound to the
    /// implementation-type identity `type_id`. An already-registered name
    /// is replaced, never merged, and its previous descriptor comes back
    /// to the caller.
    pub fn register_custom(&mut self, type_id: u64, info: IfaceInfo<H>) -> (r: Option<
        IfaceInfo<H>,
    >)
        requires
            old(self).wf(),
        ensures
            final(self).wf(),
            register_rel(*old(self), *final(self), type_id, info, r),
            final(self).paths == old(self).paths,
            final(self).reg_get(info.name@) == Some((type_id, info)),
            forall|n: Seq<char>| n != info.name@ ==> final(self).reg_get(n) == old(self).reg_get(n),
            r == match old(self).reg_get(info.name@) {
                Some(e) => Some(e.1),
                None => None::<IfaceInfo<H>>,
            },
    {
        let ghost pre = self.reg@;
        let key = info.name.key();
        match str_assoc_find(&self.reg, &key) {
            Some(i) => {
                let mut pair = (key, (type_id, info));
                core::mem::swap(&mut self.reg[i], &mut pair);
                let (_, (_, prev)) = pair;
                proof {
                    let ghost p = self.reg@[i as int];
                    assert(self.reg@ =~= pre.update(i as int, p));
                    assert(p.0@ == pre[i as int].0@);
                    assert forall|j: int| 0 <= j < i implies (#[trigger] self.reg@[j].0@)
                        != p.0@ by {
                        assert(self.reg@[j] == pre[j]);
                    }
                    lemma_str_assoc_get_at(self.reg@, p.0@, i as int);
                    assert forall|n: Seq<char>| n != p.0@ implies str_assoc_get(self.reg@, n)
                        == str_assoc_get(pre, n) by {
                        lemma_str_assoc_update_other(pre, i as int, p, n);
                    }
                    assert forall|i2: int, j2: int|
                        0 <= i2 < j2 < self.reg@.len() implies (#[trigger] self.reg@[i2].0@)
                        != (#[trigger] self.reg@[j2].0@) by {
                        assert(self.reg@[i2].0@ == pre[i2].0@);
                        assert(self.reg@[j2].0@ == pre[j2].0@);
                    }
                    assert forall|i2: int|
                        0 <= i2 < self.reg@.len() implies (#[trigger] self.reg@[i2]).1.1.name@
                        == self.reg@[i2].0@ by {
                        if i2 != i {
                            assert(self.reg@[i2] == pre[i2]);
                        }
                    }
                }
                Some(prev)
            },
            None => {
                let ghost p = (key, (type_id, info));
                self.reg.push((key, (type_id, info)));
                proof {
                    assert(self.reg@ =~= pre.push(p));
                    assert forall|n: Seq<char>| true implies str_assoc_get(self.reg@, n) == (
                    if str_assoc_get(pre, n) is Some {
                        str_assoc_get(pre, n)
                    } else if p.0@ == n {
                        Some(p.1)
                    } else {
                        None::<(u64, IfaceInfo<H>)>
                    }) by {
                        lemma_str_assoc_push(pre, p, n);
                    }
                    assert forall|i2: int, j2: int|
                        0 <= i2 < j2 < self.reg@.len() implies (#[trigger] self.reg@[i2].0@)
                        != (#[trigger] self.reg@[j2].0@) by {
                        if j2 < pre.len() {
                            assert(self.reg@[i2] == pre[i2]);
                            assert(self.reg@[j2] == pre[j2]);
                        } else {
                            assert(self.reg@[j2] == p);
                            assert(self.reg@[i2] == pre[i2]);
                        }
                    }
                    assert forall|i2: int|
                        0 <= i2 < self.reg@.len() implies (#[trigger] self.reg@[i2]).1.1.name@
                        == self.reg@[i2].0@ by {
                        if i2 < pre.len() {
                            assert(self.reg@[i2] == pre[i2]);
                        } else {
                            assert(self.reg@[i2] == p);
                        }
                    }
                }
                None
            },
        }
    }

    /// Replaces the whole instance store at `path`; any previous store at
    /// that path is discarded.
    pub fn insert(&mut self, path: &PathName, data: PathData<H>)
        requires
            old(self).wf(),
            data.wf(),
        ensures
            final(self).wf(),
            final(self).reg == old(self).reg,
            final(self).data_get(path@) == Some(data),
            forall|q: Seq<char>| q != path@ ==> final(self).data_get(q) == old(self).data_get(q),
    {
        let ghost pre = self.paths@;
        let key = path.key();
        match str_assoc_find(&self.paths, &key) {
            Some(i) => {
                let mut pair = (key, data);
                core::mem::swap(&mut self.paths[i], &mut pair);
                proof {
                    let ghost p = self.paths@[i as int];
                    assert(self.paths@ =~= pre.update(i as int, p));
                    assert(p.0@ == pre[i as int].0@);
                    assert forall|j: int| 0 <= j < i implies (#[trigger] self.paths@[j].0@)
                        != p.0@ by {
                        assert(self.paths@[j] == pre[j]);
                    }
                    lemma_str_assoc_get_at(self.paths@, p.0@, i as int);
                    assert forall|q: Seq<char>| q != p.0@ implies str_assoc_get(self.paths@, q)
                        == str_assoc_get(pre, q) by {
                        lemma_str_assoc_update_other(pre, i as int, p, q);
                    }
                    assert forall|i2: int, j2: int|
                        0 <= i2 < j2 < self.paths@.len() implies (#[trigger] self.paths@[i2].0@)
                        != (#[trigger] self.paths@[j2].0@) by {
                        assert(self.paths@[i2].0@ == pre[i2].0@);
                        assert(self.paths@[j2].0@ == pre[j2].0@);
                    }
                    assert forall|i2: int|
                        0 <= i2 < self.paths@.len() implies (#[trigger] self.paths@[i2]).1.wf() by {
                        if i2 != i {
                            assert(self.paths@[i2] == pre[i2]);
                        }
                    }
                }
            },
            None => {
                let ghost p = (key, data);
                self.paths.push((key, data));
                proof {
                    assert(self.paths@ =~= pre.push(p));
                    assert forall|q: Seq<char>| true implies str_assoc_get(self.paths@, q) == (
                    if str_assoc_get(pre, q) is Some {
                        str_assoc_get(pre, q)
                    } else if p.0@ == q {
                        Some(p.1)
                    } else {
                        None::<PathData<H>>
                    }) by {
                        lemma_str_assoc_push(pre, p, q);
                    }
                    assert forall|i2: int, j2: int|
                        0 <= i2 < j2 < self.paths@.len() implies (#[trigger] self.paths@[i2].0@)
                        != (#[trigger] self.paths@[j2].0@) by {
                        if j2 < pre.len() {
                            assert(self.paths@[i2] == pre[i2]);
                            assert(self.paths@[j2] == pre[j2]);
                        } else {
                            assert(self.paths@[j2] == p);
                            assert(self.paths@[i2] == pre[i2]);
                        }
                    }
                    assert forall|i2: int|
                        0 <= i2 < self.paths@.len() implies (#[trigger] self.paths@[i2]).1.wf() by {
                        if i2 < pre.len() {
                            assert(self.paths@[i2] == pre[i2]);
                        } else {
                            assert(self.paths@[i2] == p);
                        }
                    }
                }
            },
        }
    }

    /// Looks up a method by the four-step join: interface name to type
    /// identity and metadata, member name to method, path to store, type
    /// identity to instance. All four must succeed; any miss yields
    /// nothing.
    pub fn reg_lookup(&self, headers: &MsgHeaders) -> (r: Option<
        (&PathData<H>, &H::Iface, &IfaceInfo<H>, &MethodInfo<H>),
    >)
        ensures
            match r {
                Some(t) => {
                    &&& method_lookup(*self, headers.p@, headers.i@, headers.m@) matches Some(l)
                        && *t.2 == l.1 && *t.3 == l.2 && *t.1 == l.3
                    &&& self.reg_get(headers.i@) matches Some(e) && e.1 == *t.2
                    &&& self.data_get(headers.p@) == Some(*t.0)
                },
                None => method_lookup(*self, headers.p@, headers.i@, headers.m@) is None,
            },
    {
        let ri = match str_assoc_find(&self.reg, &headers.i) {
            Some(i) => i,
            None => {
                return None;
            },
        };
        let typeid = self.reg[ri].1.0;
        let iinfo = &self.reg[ri].1.1;
        let mi = match find_method(&iinfo.methods, &headers.m) {
            Some(i) => i,
            None => {
                return None;
            },
        };
        let pi = match str_assoc_find(&self.paths, &headers.p) {
            Some(i) => i,
            None => {
                return None;
            },
        };
        let data = &self.paths[pi].1;
        let ei = match id_assoc_find(&data.entries, typeid) {
            Some(i) => i,
            None => {
                return None;
            },
        };
        Some((data, &data.entries[ei].1, iinfo, &iinfo.methods[mi]))
    }

    /// The registered interface names, in registration order, for
    /// introspection of the tree.
    pub fn iface_names(&self) -> (r: Vec<String>)
        ensures
            r@.len() == self.reg@.len(),
            forall|i: int| 0 <= i < r@.len() ==> (#[trigger] r@[i])@ == self.reg@[i].0@,
    {
        let mut r: Vec<String> = Vec::new();
        let n = self.reg.len();
        let mut i: usize = 0;
        while i < n
            invariant
                n == self.reg@.len(),
                i <= n,
                r@.len() == i,
                forall|j: int| 0 <= j < i ==> (#[trigger] r@[j])@ == self.reg@[j].0@,
            decreases n - i,
        {
            r.push(self.reg[i].0.clone());
            i += 1;
        }
        r
    }

    /// Starts a fluent registration of interface `name` for the
    /// implementation-type identity `type_id`; the finished descriptor is
    /// committed into an engine explicitly.
    pub fn register(type_id: u64, name: IfaceName) -> (r: crate::info::IfaceInfoBuilder<H>)
        ensures
            r.wf(),
            r.type_id == type_id,
            r.info.name@ == name@,
            r.info.name.wf() == name.wf(),
            r.info.methods@ == Seq::<crate::info::MethodInfo<H>>::empty(),
            r.info.props@ == Seq::<crate::info::PropInfo<H>>::empty(),
            r.info.signals@ == Seq::<crate::info::SignalInfo>::empty(),
            r.info.anns@ == Seq::<(String, String)>::empty(),
            r.last is None,
    {
        crate::info::IfaceInfoBuilder::new(type_id, name)
    }

    /// The instance store at `path`, if one was inserted.
    pub fn get_data(&self, path: &str) -> (r: Option<&PathData<H>>)
        ensures
            r is Some <==> self.data_get(path@) is Some,
            r is Some ==> Some(*r->0) == self.data_get(path@),
    {
        let key = path.to_owned();
        match str_assoc_find(&self.paths, &key) {
            Some(i) => Some(&self.paths[i].1),
            None => None,
        }
    }
}

/// What one registration does: the descriptor now serves its name under
/// the given type identity, every other name and the whole path table are
/// untouched, and the name's previous descriptor comes back.
pub open spec fn register_rel<H: Handlers>(
    pre: Crossroads<H>,
    post: Crossroads<H>,
    type_id: u64,
    info: IfaceInfo<H>,
    r: Option<IfaceInfo<H>>,
) -> bool {
    &&& post.paths == pre.paths
    &&& post.reg_get(info.name@) == Some((type_id, info))
    &&& forall|n: Seq<char>| n != info.name@ ==> post.reg_get(n) == pre.reg_get(n)
    &&& r == match pre.reg_get(info.name@) {
        Some(e) => Some(e.1),
        None => None::<IfaceInfo<H>>,
    }
}

/// The instance stored under type identity `tid` at path `p`.
pub open spec fn instance_find<H: Handlers>(cr: Crossroads<H>, p: Seq<char>, tid: u64) -> Option<
    H::Iface,
> {
    match str_assoc_get(cr.paths@, p) {
        None => None,
        Some(d) => id_assoc_get(d.entries@, tid),
    }
}

/// The four-step method lookup: registry by interface name, method scan by
/// member name, path table by path, instance store by type identity.
/// `None` as soon as any step misses.
pub open spec fn method_lookup<H: Handlers>(
    cr: Crossroads<H>,
    p: Seq<char>,
    i: Seq<char>,
    m: Seq<char>,
) -> Option<(u64, IfaceInfo<H>, MethodInfo<H>, H::Iface)> {
    match str_assoc_get(cr.reg@, i) {
        None => None,
        Some((tid, ii)) => match method_find(ii.methods@, m) {
            None => None,
            Some(mi) => match instance_find(cr, p, tid) {
                None => None,
                Some(inst) => Some((tid, ii, mi, inst)),
            },
        },
    }
}

/// The three-step property lookup: registry by interface name, property
/// scan by name, instance from an already-resolved store by type
/// identity.
pub open spec fn prop_lookup<H: Handlers>(
    cr: Crossroads<H>,
    data: PathData<H>,
    i: Seq<char>,
    pn: Seq<char>,
) -> Option<(PropInfo<H>, H::Iface)> {
    match str_assoc_get(cr.reg@, i) {
        None => None,
        Some((tid, ii)) => match prop_find(ii.props@, pn) {
            None => None,
            Some(p) => match id_assoc_get(data.entries@, tid) {
                None => None,
                Some(inst) => Some((p, inst)),
            },
        },
    }
}

impl<H: Handlers> Crossroads<H> {
    /// Looks up a property by the three-step join over an
    /// already-resolved instance store, for the external properties
    /// interface's read path. Any miss yields nothing.
    pub fn reg_prop_lookup<'a>(
        &'a self,
        data: &'a PathData<H>,
        iname: &String,
        propname: &String,
    ) -> (r: Option<(&'a H::Iface, &'a PropInfo<H>)>)
        ensures
            match r {
                Some(t) => prop_lookup(*self, *data, iname@, propname@) == Some((*t.1, *t.0)),
                None => prop_lookup(*self, *data, iname@, propname@) is None,
            },
    {
        let ri = match str_assoc_find(&self.reg, iname) {
            Some(i) => i,
            None => {
                return None;
            },
        };
        let typeid = self.reg[ri].1.0;
        let pi = match find_prop(&self.reg[ri].1.1.props, propname) {
            Some(i) => i,
            None => {
                return None;
            },
        };
        let ei = match id_assoc_find(&data.entries, typeid) {
            Some(i) => i,
            None => {
                return None;
            },
        };
        Some((&data.entries[ei].1, &self.reg[ri].1.1.props[pi]))
    }
}

/// The shared model's full route: header extraction followed by the
/// four-step lookup.
pub open spec fn par_route(cr: Crossroads<Par>, msg: Message) -> Option<
    (u64, IfaceInfo<Par>, MethodInfo<Par>, crate::script::Instance),
> {
    if !is_routable_call(msg) {
        None
    } else {
        method_lookup(cr, msg.path->0@, msg.interface->0@, msg.member->0@)
    }
}

/// Whether `reply` is the right reply for `msg` against `cr` under the
/// shared model, given that the route resolved: the handler's outputs as a
/// method return when the run succeeds, the matching error reply
/// otherwise.
pub open spec fn par_reply_ok(cr: Crossroads<Par>, msg: Message, reply: Message) -> bool
    recommends
        par_route(cr, msg) is Some,
{
    let t = par_route(cr, msg)->0;
    let mi = t.2;
    let inst = t.3;
    let its = sig_seq(mi.i_args@);
    let ots = sig_seq(mi.o_args@);
    match mi.handler {
        ParMethod::Iface(s) => {
            if par_run_ok(s, inst.cells@, msg.args@, its, ots) {
                is_method_return_of(reply, msg) && reply.args@ == par_run_outs(
                    s,
                    inst.cells@,
                    msg.args@,
                    ots,
                )
            } else {
                is_matching_err_reply(reply, msg, s.fail, msg.args@, its)
            }
        },
        ParMethod::AllRef(ts) => {
            let ic = cr.reg@.len() as u64;
            let pc = str_assoc_get(cr.paths@, msg.path->0@)->0.entries@.len() as u64;
            if tree_run_ok(ts, ic, pc, msg.args@, its, ots) {
                is_method_return_of(reply, msg) && reply.args@ == tree_run_outs(
                    ts,
                    ic,
                    pc,
                    msg.args@,
                    ots,
                )
            } else {
                is_matching_err_reply(reply, msg, ts.fail, msg.args@, its)
            }
        },
    }
}

impl Crossroads<Par> {
    /// An empty shared-model engine.
    pub fn new_par() -> (r: Crossroads<Par>)
        ensures
            r.wf(),
            forall|n: Seq<char>| r.reg_get(n) is None,
            forall|p: Seq<char>| r.data_get(p) is None,
    {
        Crossroads::new()
    }

    /// Dispatches one request under the shared model, without touching any
    /// state: nothing when the message is not a routable method call or
    /// any lookup step misses, else exactly one reply.
    pub fn dispatch_par(&self, msg: &Message) -> (r: Option<Vec<Message>>)
        requires
            self.wf(),
        ensures
            r is Some <==> par_route(*self, *msg) is Some,
            r is Some ==> r->0@.len() == 1 && par_reply_ok(*self, *msg, r->0@[0]),
    {
        let hs = match msg_headers(msg) {
            Some(h) => h,
            None => {
                return None;
            },
        };
        let (data, iface, iinfo, minfo) = match self.reg_lookup(&hs) {
            Some(l) => l,
            None => {
                return None;
            },
        };
        let ghost gm = *minfo;
        let ghost ginst = *iface;
        let res = match &minfo.handler {
            ParMethod::Iface(s) => run_par_script(s, iface, &msg.args, &minfo.i_args, &minfo.o_args),
            ParMethod::AllRef(ts) => run_tree_script(
                ts,
                self.reg.len() as u64,
                data.entries.len() as u64,
                &msg.args,
                &minfo.i_args,
                &minfo.o_args,
            ),
        };
        let ghost gres = res;
        let reply = posthandler(msg, res);
        let mut out: Vec<Message> = Vec::new();
        out.push(reply);
        proof {
            let t = par_route(*self, *msg)->0;
            assert(t.2 == gm && t.3 == ginst);
            match gm.handler {
                ParMethod::Iface(s) => {
                    if gres matches Err(e) {
                        assert(is_matching_err_reply(reply, *msg, s.fail, msg.args@, sig_seq(gm.i_args@)));
                    }
                },
                ParMethod::AllRef(ts) => {
                    if gres matches Err(e) {
                        assert(is_matching_err_reply(reply, *msg, ts.fail, msg.args@, sig_seq(gm.i_args@)));
                    }
                },
            }
        }
        Some(out)
    }
}

/// The exclusive model's route: header extraction, registry lookup and
/// method scan. The instance joins in later and only for the
/// exclusive-instance handler kind.
pub open spec fn mut_route(cr: Crossroads<Mut>, msg: Message) -> Option<(u64, MethodInfo<Mut>)> {
    if !is_routable_call(msg) {
        None
    } else {
        match str_assoc_get(cr.reg@, msg.interface->0@) {
            None => None,
            Some((tid, ii)) => match method_find(ii.methods@, msg.member->0@) {
                None => None,
                Some(m) => Some((tid, m)),
            },
        }
    }
}

/// How one dispatch may change a store: the instance under `tid` now holds
/// `cells`; every other identity's instance is untouched.
pub open spec fn store_updated(pre: PathData<Mut>, post: PathData<Mut>, tid: u64, cells: Seq<
    u64,
>) -> bool {
    &&& post.wf()
    &&& post.entries@.len() == pre.entries@.len()
    &&& forall|id: u64|
        id != tid ==> id_assoc_get(post.entries@, id) == id_assoc_get(pre.entries@, id)
    &&& id_assoc_get(post.entries@, tid) matches Some(inst) && inst.cells@ == cells
}

/// How one dispatch may change the whole tree: the registry is untouched,
/// every other path's store is untouched, and at path `p` only the
/// instance under `tid` changed, to `cells`.
pub open spec fn tree_updated(
    pre: Crossroads<Mut>,
    post: Crossroads<Mut>,
    p: Seq<char>,
    tid: u64,
    cells: Seq<u64>,
) -> bool {
    &&& post.reg == pre.reg
    &&& post.paths@.len() == pre.paths@.len()
    &&& forall|q: Seq<char>| q != p ==> str_assoc_get(post.paths@, q) == str_assoc_get(pre.paths@, q)
    &&& str_assoc_get(pre.paths@, p) is Some
    &&& str_assoc_get(post.paths@, p) is Some
    &&& store_updated(
        str_assoc_get(pre.paths@, p)->0,
        str_assoc_get(post.paths@, p)->0,
        tid,
        cells,
    )
}

/// What one exclusive-model dispatch does, from the state before to the
/// state after and the output. A route or instance miss yields nothing and
/// changes nothing. An exclusive-instance handler answers with its reply
/// first and its queued messages after it, changing only its own
/// instance — and nothing at all when it fails. An all-read handler
/// answers from the tree and changes nothing.
pub open spec fn dispatch_mut_rel(
    pre: Crossroads<Mut>,
    post: Crossroads<Mut>,
    msg: Message,
    r: Option<Vec<Message>>,
) -> bool {
    match mut_route(pre, msg) {
        None => r is None && post == pre,
        Some((tid, m)) => {
            let p = msg.path->0@;
            let its = sig_seq(m.i_args@);
            let ots = sig_seq(m.o_args@);
            match m.handler.0 {
                MutMethods::MutIface(s) => match instance_find(pre, p, tid) {
                    None => r is None && post == pre,
                    Some(inst) => {
                        if iface_run_ok(s, inst.cells@, msg.args@, its, ots) {
                            &&& tree_updated(
                                pre,
                                post,
                                p,
                                tid,
                                iface_run_cells(s, inst.cells@, msg.args@),
                            )
                            &&& r is Some
                            &&& r->0@.len() == 1 + s.queued@.len()
                            &&& is_method_return_of(r->0@[0], msg)
                            &&& r->0@[0].args@ == iface_run_outs(s, inst.cells@, msg.args@, ots)
                            &&& forall|j: int|
                                0 <= j < s.queued@.len() ==> msg_eq(
                                    #[trigger] r->0@[1 + j],
                                    s.queued@[j],
                                )
                        } else {
                            &&& tree_updated(pre, post, p, tid, inst.cells@)
                            &&& r is Some
                            &&& r->0@.len() == 1
                            &&& is_matching_err_reply(r->0@[0], msg, s.fail, msg.args@, its)
                        }
                    },
                },
                MutMethods::AllRef(ts) => match str_assoc_get(pre.paths@, p) {
                    None => r is None && post == pre,
                    Some(d) => {
                        let ic = pre.reg@.len() as u64;
                        let pc = d.entries@.len() as u64;
                        &&& post == pre
                        &&& r is Some
                        &&& r->0@.len() == 1
                        &&& if tree_run_ok(ts, ic, pc, msg.args@, its, ots) {
                            is_method_return_of(r->0@[0], msg) && r->0@[0].args@ == tree_run_outs(
                                ts,
                                ic,
                                pc,
                                msg.args@,
                                ots,
                            )
                        } else {
                            is_matching_err_reply(r->0@[0], msg, ts.fail, msg.args@, its)
                        }
                    },
                },
            }
        },
    }
}

/// The protocol error name for a write to a property that has no setter.
pub open spec fn read_only_name() -> Seq<char> {
    "org.freedesktop.DBus.Error.PropertyReadOnly"@
}

/// The error reply content for a write to a read-only property.
fn read_only_err() -> (e: MethodErr)
    ensures
        e.name@ == read_only_name(),
{
    MethodErr {
        name: "org.freedesktop.DBus.Error.PropertyReadOnly".to_owned(),
        text: "property has no setter".to_owned(),
    }
}

/// Whether a stored setter can take `v` against store `d`: no declared
/// failure, an integer value, and the setter's own instance and cell
/// present.
pub open spec fn setprop_ok(h: crate::handlers::PropSetter, d: PathData<Mut>, v: ArgValue) -> bool {
    &&& h.fail is None
    &&& crate::arg::is_numeric(v)
    &&& id_assoc_get(d.entries@, h.type_id) is Some
    &&& h.cell < id_assoc_get(d.entries@, h.type_id)->0.cells@.len()
}

/// Which error a failed setter call reports: its declared failure first,
/// then a value mismatch, else a step failure.
pub open spec fn setprop_err_matches(h: crate::handlers::PropSetter, v: ArgValue, e: MethodErr) -> bool {
    if h.fail is Some {
        e.name@ == h.fail->0.name@ && e.text@ == h.fail->0.text@
    } else if !crate::arg::is_numeric(v) {
        e.name@ == crate::handlers::invalid_args_name()
    } else {
        e.name@ == crate::handlers::failed_name()
    }
}

impl Mut {
    /// Invokes a stored setter against a whole instance store: the setter
    /// locates its own instance by type identity and writes the offered
    /// value into its cell. On any failure the store stays unchanged.
    pub fn call_setprop_mut(
        handler: &crate::handlers::PropSetter,
        pathdata: &mut PathData<Mut>,
        value: &ArgValue,
    ) -> (r: Result<bool, MethodErr>)
        requires
            old(pathdata).wf(),
        ensures
            setprop_ok(*handler, *old(pathdata), *value) ==> ({
                &&& r matches Ok(b) && b
                &&& store_updated(
                    *old(pathdata),
                    *final(pathdata),
                    handler.type_id,
                    id_assoc_get(
                        old(pathdata).entries@,
                        handler.type_id,
                    )->0.cells@.update(handler.cell as int, crate::arg::numeric_of(*value)),
                )
            }),
            !setprop_ok(*handler, *old(pathdata), *value) ==> ({
                &&& r matches Err(e) && setprop_err_matches(*handler, *value, e)
                &&& *final(pathdata) == *old(pathdata)
            }),
    {
        match &handler.fail {
            Some(f) => {
                return Err(f.dup());
            },
            None => {},
        }
        let v = match value.as_u64() {
            Some(v) => v,
            None => {
                return Err(crate::handlers::invalid_args_err());
            },
        };
        let ei = match id_assoc_find(&pathdata.entries, handler.type_id) {
            Some(i) => i,
            None => {
                return Err(crate::handlers::failed_err());
            },
        };
        if handler.cell >= pathdata.entries[ei].1.cells.len() {
            return Err(crate::handlers::failed_err());
        }
        let ghost pre = *pathdata;
        let inst = &mut pathdata.entries[ei].1;
        inst.cells[handler.cell] = v;
        proof {
            let tid = handler.type_id;
            assert(pathdata.entries@[ei as int].0 == tid);
            assert forall|j: int| 0 <= j < ei implies (#[trigger] pathdata.entries@[j].0)
                != tid by {
                assert(pathdata.entries@[j] == pre.entries@[j]);
            }
            crate::assoc::lemma_id_assoc_get_at(pathdata.entries@, tid, ei as int);
            assert forall|id: u64| id != tid implies id_assoc_get(pathdata.entries@, id)
                == id_assoc_get(pre.entries@, id) by {
                crate::assoc::lemma_id_assoc_update_other(
                    pre.entries@,
                    ei as int,
                    pathdata.entries@[ei as int],
                    id,
                );
                assert(pathdata.entries@ =~= pre.entries@.update(
                    ei as int,
                    pathdata.entries@[ei as int],
                ));
            }
            assert forall|i2: int, j2: int|
                0 <= i2 < j2 < pathdata.entries@.len() implies (
                #[trigger] pathdata.entries@[i2].0) != (#[trigger] pathdata.entries@[j2].0) by {
                assert(pathdata.entries@[i2].0 == pre.entries@[i2].0);
                assert(pathdata.entries@[j2].0 == pre.entries@[j2].0);
            }
        }
        Ok(true)
    }
}

/// Whether two engine states hold the same tables: the registry is the
/// same value and the path table holds the same entries.
pub open spec fn tables_eq(pre: Crossroads<Mut>, post: Crossroads<Mut>) -> bool {
    post.reg == pre.reg && post.paths@ == pre.paths@
}

/// What one property write does: a lookup miss yields nothing and changes
/// nothing; a property without a setter reports a read-only error; a
/// setter either writes one cell of its own instance or fails with the
/// matching error, changing nothing.
pub open spec fn prop_set_rel(
    pre: Crossroads<Mut>,
    post: Crossroads<Mut>,
    p: Seq<char>,
    i: Seq<char>,
    pn: Seq<char>,
    v: ArgValue,
    r: Option<Result<bool, MethodErr>>,
) -> bool {
    match str_assoc_get(pre.reg@, i) {
        None => r is None && post == pre,
        Some((tid, ii)) => match prop_find(ii.props@, pn) {
            None => r is None && post == pre,
            Some(pr) => match str_assoc_get(pre.paths@, p) {
                None => r is None && post == pre,
                Some(d) => match pr.set {
                    None => {
                        &&& r matches Some(res) && res matches Err(e) && e.name@ == read_only_name()
                        &&& post == pre
                    },
                    Some(h) => {
                        &&& r is Some
                        &&& if setprop_ok(h, d, v) {
                            &&& r->0 matches Ok(b) && b
                            &&& tree_updated(
                                pre,
                                post,
                                p,
                                h.type_id,
                                id_assoc_get(d.entries@, h.type_id)->0.cells@.update(
                                    h.cell as int,
                                    crate::arg::numeric_of(v),
                                ),
                            )
                        } else {
                            &&& r->0 matches Err(e) && setprop_err_matches(h, v, e)
                            &&& tables_eq(pre, post)
                        }
                    },
                },
            },
        },
    }
}

impl Crossroads<Mut> {
    /// The mutable property entry point for the external properties
    /// interface: locates a property by path, interface name and property
    /// name, and invokes its stored setter with the offered value.
    pub fn prop_set(&mut self, path: &String, iname: &String, propname: &String, value: &ArgValue) -> (r:
        Option<Result<bool, MethodErr>>)
        requires
            old(self).wf(),
        ensures
            final(self).wf(),
            prop_set_rel(*old(self), *final(self), path@, iname@, propname@, *value, r),
    {
        let ri = match str_assoc_find(&self.reg, iname) {
            Some(i) => i,
            None => {
                return None;
            },
        };
        let pp = match find_prop(&self.reg[ri].1.1.props, propname) {
            Some(i) => i,
            None => {
                return None;
            },
        };
        let pidx = match str_assoc_find(&self.paths, path) {
            Some(i) => i,
            None => {
                return None;
            },
        };
        let ghost pre = *self;
        match &self.reg[ri].1.1.props[pp].set {
            None => Some(Err(read_only_err())),
            Some(h) => {
                let ghost gh = *h;
                let pd = &mut self.paths[pidx].1;
                let res = Mut::call_setprop_mut(h, pd, value);
                proof {
                    let p = path@;
                    assert(self.paths@[pidx as int].0@ == p);
                    assert forall|j: int| 0 <= j < pidx implies (#[trigger] self.paths@[j].0@)
                        != p by {
                        assert(self.paths@[j] == pre.paths@[j]);
                    }
                    lemma_str_assoc_get_at(self.paths@, p, pidx as int);
                    assert(str_assoc_get(pre.paths@, p) == Some(pre.paths@[pidx as int].1)) by {
                        lemma_str_assoc_get_at(pre.paths@, p, pidx as int);
                    }
                    let d = pre.paths@[pidx as int].1;
                    if setprop_ok(gh, d, *value) {
                        assert forall|q: Seq<char>| q != p implies str_assoc_get(self.paths@, q)
                            == str_assoc_get(pre.paths@, q) by {
                            lemma_str_assoc_update_other(
                                pre.paths@,
                                pidx as int,
                                self.paths@[pidx as int],
                                q,
                            );
                            assert(self.paths@ =~= pre.paths@.update(
                                pidx as int,
                                self.paths@[pidx as int],
                            ));
                        }
                        assert forall|i2: int, j2: int|
                            0 <= i2 < j2 < self.paths@.len() implies (
                            #[trigger] self.paths@[i2].0@) != (#[trigger] self.paths@[j2].0@) by {
                            assert(self.paths@[i2].0@ == pre.paths@[i2].0@);
                            assert(self.paths@[j2].0@ == pre.paths@[j2].0@);
                        }
                        assert forall|i2: int|
                            0 <= i2 < self.paths@.len() implies (
                            #[trigger] self.paths@[i2]).1.wf() by {
                            if i2 != pidx {
                                assert(self.paths@[i2] == pre.paths@[i2]);
                            }
                        }
                    } else {
                        assert(self.paths@ =~= pre.paths@.update(
                            pidx as int,
                            pre.paths@[pidx as int],
                        ));
                        assert(self.paths@ =~= pre.paths@);
                    }
                }
                Some(res)
            },
        }
    }
}

impl Crossroads<Mut> {
    /// An empty exclusive-model engine.
    pub fn new_mut() -> (r: Crossroads<Mut>)
        ensures
            r.wf(),
            forall|n: Seq<char>| r.reg_get(n) is None,
            forall|p: Seq<char>| r.data_get(p) is None,
    {
        Crossroads::new()
    }

    /// The read-only second resolution pass for an all-read handler: it
    /// needs the target path's store but no exclusive access to any
    /// instance.
    fn dispatch_ref(&self, msg: &Message, hs: &MsgHeaders) -> (r: Option<Vec<Message>>)
        requires
            self.wf(),
            is_routable_call(*msg),
            hs.p@ == msg.path->0@,
            hs.i@ == msg.interface->0@,
            hs.m@ == msg.member->0@,
            mut_route(*self, *msg) matches Some(t) && t.1.handler.0 is AllRef,
        ensures
            dispatch_mut_rel(*self, *self, *msg, r),
    {
        let ri = match str_assoc_find(&self.reg, &hs.i) {
            Some(i) => i,
            None => {
                return None;
            },
        };
        let mi = match find_method(&self.reg[ri].1.1.methods, &hs.m) {
            Some(i) => i,
            None => {
                return None;
            },
        };
        let minfo = &self.reg[ri].1.1.methods[mi];
        let ghost gm = *minfo;
        match &minfo.handler.0 {
            MutMethods::MutIface(_) => None,
            MutMethods::AllRef(ts) => {
                let pi = match str_assoc_find(&self.paths, &hs.p) {
                    Some(i) => i,
                    None => {
                        return None;
                    },
                };
                let data = &self.paths[pi].1;
                let res = run_tree_script(
                    ts,
                    self.reg.len() as u64,
                    data.entries.len() as u64,
                    &msg.args,
                    &minfo.i_args,
                    &minfo.o_args,
                );
                let ghost gres = res;
                let ghost gts = match gm.handler.0 {
                    MutMethods::AllRef(t) => t,
                    MutMethods::MutIface(_) => arbitrary(),
                };
                let reply = posthandler(msg, res);
                let mut out: Vec<Message> = Vec::new();
                out.push(reply);
                proof {
                    if gres matches Err(e) {
                        assert(is_matching_err_reply(
                            reply,
                            *msg,
                            gts.fail,
                            msg.args@,
                            sig_seq(gm.i_args@),
                        ));
                    }
                }
                Some(out)
            },
        }
    }

    /// Dispatches one request under the exclusive model: nothing when the
    /// message is not a routable method call or a lookup step misses; for
    /// an exclusive-instance handler, the reply followed by the handler's
    /// queued messages, with only the target instance changed; for an
    /// all-read handler, one reply and no change. The handler kind is
    /// tried exclusively first, and an all-read handler is reached by a
    /// second, read-only pass.
    pub fn dispatch_mut(&mut self, msg: &Message) -> (r: Option<Vec<Message>>)
        requires
            old(self).wf(),
        ensures
            final(self).wf(),
            dispatch_mut_rel(*old(self), *final(self), *msg, r),
    {
        let hs = match msg_headers(msg) {
            Some(h) => h,
            None => {
                return None;
            },
        };
        let ri = match str_assoc_find(&self.reg, &hs.i) {
            Some(i) => i,
            None => {
                return None;
            },
        };
        let typeid = self.reg[ri].1.0;
        let mi = match find_method(&self.reg[ri].1.1.methods, &hs.m) {
            Some(i) => i,
            None => {
                return None;
            },
        };
        let try_ref = matches!(&self.reg[ri].1.1.methods[mi].handler.0, MutMethods::AllRef(_));
        if try_ref {
            return self.dispatch_ref(msg, &hs);
        }
        let pi = match str_assoc_find(&self.paths, &hs.p) {
            Some(i) => i,
            None => {
                return None;
            },
        };
        let ei = match id_assoc_find(&self.paths[pi].1.entries, typeid) {
            Some(i) => i,
            None => {
                return None;
            },
        };
        let ghost pre = *self;
        let mut ctx = MutCtx::new(msg);
        let minfo = &self.reg[ri].1.1.methods[mi];
        let ghost gm = *minfo;
        let s = match &minfo.handler.0 {
            MutMethods::MutIface(s) => s,
            MutMethods::AllRef(_) => {
                return None;
            },
        };
        let inst = &mut self.paths[pi].1.entries[ei].1;
        let ghost ginst = *inst;
        let res = run_iface_script(s, inst, &msg.args, &minfo.i_args, &minfo.o_args, &mut ctx);
        let ghost gres = res;
        let reply = posthandler(msg, res);
        let mut out: Vec<Message> = Vec::new();
        out.push(reply);
        out.append(&mut ctx.send_extra);
        proof {
            let p = msg.path->0@;
            let ghost gs = match gm.handler.0 {
                MutMethods::MutIface(t) => t,
                MutMethods::AllRef(_) => arbitrary(),
            };
            assert(mut_route(pre, *msg) == Some((typeid, gm)));
            assert(instance_find(pre, p, typeid) == Some(ginst));
            // the post-state tables: only entry `pi`, and in it only
            // instance `ei`, changed
            assert(self.paths@[pi as int].0@ == p);
            assert forall|j: int| 0 <= j < pi implies (#[trigger] self.paths@[j].0@) != p by {
                assert(self.paths@[j] == pre.paths@[j]);
            }
            lemma_str_assoc_get_at(self.paths@, p, pi as int);
            assert forall|q: Seq<char>| q != p implies str_assoc_get(self.paths@, q)
                == str_assoc_get(pre.paths@, q) by {
                lemma_str_assoc_update_other(
                    pre.paths@,
                    pi as int,
                    self.paths@[pi as int],
                    q,
                );
                assert(self.paths@ =~= pre.paths@.update(pi as int, self.paths@[pi as int]));
            }
            let dn = self.paths@[pi as int].1;
            let dp = pre.paths@[pi as int].1;
            assert(str_assoc_get(pre.paths@, p) == Some(dp)) by {
                lemma_str_assoc_get_at(pre.paths@, p, pi as int);
            }
            assert(dn.entries@[ei as int].0 == typeid);
            assert forall|j: int| 0 <= j < ei implies (#[trigger] dn.entries@[j].0) != typeid by {
                assert(dn.entries@[j] == dp.entries@[j]);
            }
            crate::assoc::lemma_id_assoc_get_at(dn.entries@, typeid, ei as int);
            assert forall|id: u64| id != typeid implies id_assoc_get(dn.entries@, id)
                == id_assoc_get(dp.entries@, id) by {
                crate::assoc::lemma_id_assoc_update_other(
                    dp.entries@,
                    ei as int,
                    dn.entries@[ei as int],
                    id,
                );
                assert(dn.entries@ =~= dp.entries@.update(ei as int, dn.entries@[ei as int]));
            }
            assert forall|i2: int, j2: int|
                0 <= i2 < j2 < dn.entries@.len() implies (#[trigger] dn.entries@[i2].0)
                != (#[trigger] dn.entries@[j2].0) by {
                assert(dn.entries@[i2].0 == dp.entries@[i2].0);
                assert(dn.entries@[j2].0 == dp.entries@[j2].0);
            }
            // the whole tree stays well-formed
            assert forall|i2: int, j2: int|
                0 <= i2 < j2 < self.paths@.len() implies (#[trigger] self.paths@[i2].0@)
                != (#[trigger] self.paths@[j2].0@) by {
                assert(self.paths@[i2].0@ == pre.paths@[i2].0@);
                assert(self.paths@[j2].0@ == pre.paths@[j2].0@);
            }
            assert forall|i2: int|
                0 <= i2 < self.paths@.len() implies (#[trigger] self.paths@[i2]).1.wf() by {
                if i2 != pi {
                    assert(self.paths@[i2] == pre.paths@[i2]);
                }
            }
            // the output: primary reply first, queued messages after it
            if iface_run_ok(gs, ginst.cells@, msg.args@, sig_seq(gm.i_args@), sig_seq(gm.o_args@)) {
                assert(out@.len() == 1 + gs.queued@.len());
                assert(out@[0] == reply);
                assert forall|j: int| 0 <= j < gs.queued@.len() implies msg_eq(
                    #[trigger] out@[1 + j],
                    gs.queued@[j],
                ) by {}
            } else {
                assert(is_matching_err_reply(
                    reply,
                    *msg,
                    gs.fail,
                    msg.args@,
                    sig_seq(gm.i_args@),
                ));
            }
        }
        Some(out)
    }
}

} // verus!
