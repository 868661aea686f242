//! Handler bodies as explicit transition scripts.
//!
//! Handler values must be stored inside interface metadata and invoked by
//! the dispatcher, so the engine represents a handler's computation as
//! data: a script of cell updates over the stored instance's state, a list
//! of output selectors, messages to queue, and an optional declared
//! failure. A script runs transactionally: either every step succeeds and
//! the instance, the queue and the reply all change together, or nothing
//! changes and an error reply is produced.

use vstd::prelude::*;
use vstd::wrapping::u64_specs;
use crate::arg::ArgType;
use crate::arg::ArgValue;
use crate::arg::MethodErr;
use crate::arg::arg_type_of;
use crate::arg::coerce_spec;
use crate::arg::is_numeric;
use crate::arg::numeric_of;
use crate::message::Message;

verus! {

/// A stored interface-implementation instance: a record of numbered state
/// cells. One instance backs one implementation type at one object path.
#[derive(Debug)]
pub struct Instance {
    /// The instance's state cells.
    pub cells: Vec<u64>,
}

impl Instance {
    /// An instance with the given initial state.
    pub fn new(cells: Vec<u64>) -> (r: Instance)
        ensures
            r.cells@ == cells@,
    {
        Instance { cells }
    }

    /// A copy of this instance's state.
    pub fn dup(&self) -> (r: Instance)
        ensures
            r.cells@ == self.cells@,
    {
        Instance { cells: self.cells.clone() }
    }
}

/// One update of an instance's state cells. Additions wrap at the cell
/// width.
#[derive(Clone, Copy, Debug)]
pub enum CellUpdate {
    /// Add input argument `arg` to cell `cell`.
    AddArg { cell: usize, arg: usize },
    /// Store input argument `arg` into cell `cell`.
    SetArg { cell: usize, arg: usize },
    /// Add one to cell `cell`.
    Incr { cell: usize },
    /// Store a constant into cell `cell`.
    SetConst { cell: usize, value: u64 },
}

/// One output of a handler: what to place at one reply position, before
/// conversion to the declared output type.
#[derive(Clone, Debug)]
pub enum OutputSpec {
    /// The value of instance cell `cell`.
    Cell { cell: usize },
    /// Input argument `arg`, echoed.
    Arg { arg: usize },
    /// A constant integer.
    ConstInt { value: u64 },
    /// A constant string.
    ConstStr { value: String },
    /// A constant boolean.
    ConstBool { value: bool },
    /// How many interfaces the registry holds. Only handlers with read
    /// access to the whole tree can produce it.
    IfaceCount,
    /// How many instances the target object path holds. Only handlers with
    /// read access to the whole tree can produce it.
    PathInstanceCount,
}

/// A handler body for a method that works on its own instance.
#[derive(Debug)]
pub struct MethodScript {
    /// A declared failure: the handler fails with this error on every call.
    pub fail: Option<MethodErr>,
    /// The state transition, applied in order.
    pub updates: Vec<CellUpdate>,
    /// The reply's outputs.
    pub outputs: Vec<OutputSpec>,
    /// Extra outgoing messages to queue on success.
    pub queued: Vec<Message>,
}

/// A handler body for the shared-ownership discipline: it reads its own
/// instance but cannot change state or queue messages, so any number of
/// dispatches may run it concurrently.
#[derive(Debug)]
pub struct ParScript {
    /// A declared failure: the handler fails with this error on every call.
    pub fail: Option<MethodErr>,
    /// The reply's outputs.
    pub outputs: Vec<OutputSpec>,
}

/// A handler body for a method that reads the whole tree instead of one
/// instance (introspection-like). It cannot change any state.
#[derive(Debug)]
pub struct TreeScript {
    /// A declared failure: the handler fails with this error on every call.
    pub fail: Option<MethodErr>,
    /// The reply's outputs.
    pub outputs: Vec<OutputSpec>,
}

/// What one cell update does to the state: `None` when it names a missing
/// cell or a missing or non-integer argument.
pub open spec fn apply_update_spec(cells: Seq<u64>, u: CellUpdate, args: Seq<ArgValue>) -> Option<
    Seq<u64>,
> {
    match u {
        CellUpdate::AddArg { cell, arg } => {
            if cell < cells.len() && arg < args.len() && is_numeric(args[arg as int]) {
                Some(
                    cells.update(
                        cell as int,
                        u64_specs::wrapping_add(cells[cell as int], numeric_of(args[arg as int])),
                    ),
                )
            } else {
                None
            }
        },
        CellUpdate::SetArg { cell, arg } => {
            if cell < cells.len() && arg < args.len() && is_numeric(args[arg as int]) {
                Some(cells.update(cell as int, numeric_of(args[arg as int])))
            } else {
                None
            }
        },
        CellUpdate::Incr { cell } => {
            if cell < cells.len() {
                Some(cells.update(cell as int, u64_specs::wrapping_add(cells[cell as int], 1)))
            } else {
                None
            }
        },
        CellUpdate::SetConst { cell, value } => {
            if cell < cells.len() {
                Some(cells.update(cell as int, value))
            } else {
                None
            }
        },
    }
}

/// What a whole update list does to the state, in order; `None` as soon as
/// one update fails.
pub open spec fn apply_updates_spec(cells: Seq<u64>, us: Seq<CellUpdate>, args: Seq<ArgValue>) -> Option<
    Seq<u64>,
>
    decreases us.len(),
{
    if us.len() == 0 {
        Some(cells)
    } else {
        match apply_update_spec(cells, us[0], args) {
            Some(c2) => apply_updates_spec(c2, us.drop_first(), args),
            None => None,
        }
    }
}

/// The raw value of an output selector for a handler that sees its own
/// instance: `None` when the selector is out of range or needs tree
/// access.
pub open spec fn eval_output_cells(o: OutputSpec, cells: Seq<u64>, args: Seq<ArgValue>) -> Option<
    ArgValue,
> {
    match o {
        OutputSpec::Cell { cell } => {
            if cell < cells.len() {
                Some(ArgValue::U64(cells[cell as int]))
            } else {
                None
            }
        },
        OutputSpec::Arg { arg } => {
            if arg < args.len() {
                Some(args[arg as int])
            } else {
                None
            }
        },
        OutputSpec::ConstInt { value } => Some(ArgValue::U64(value)),
        OutputSpec::ConstStr { value } => Some(ArgValue::Str(value)),
        OutputSpec::ConstBool { value } => Some(ArgValue::Bool(value)),
        OutputSpec::IfaceCount => None,
        OutputSpec::PathInstanceCount => None,
    }
}

/// The raw value of an output selector for a handler that reads the whole
/// tree: it sees the registry and store sizes but no instance.
pub open spec fn eval_output_tree(
    o: OutputSpec,
    iface_count: u64,
    inst_count: u64,
    args: Seq<ArgValue>,
) -> Option<ArgValue> {
    match o {
        OutputSpec::Cell { cell } => None,
        OutputSpec::Arg { arg } => {
            if arg < args.len() {
                Some(args[arg as int])
            } else {
                None
            }
        },
        OutputSpec::ConstInt { value } => Some(ArgValue::U64(value)),
        OutputSpec::ConstStr { value } => Some(ArgValue::Str(value)),
        OutputSpec::ConstBool { value } => Some(ArgValue::Bool(value)),
        OutputSpec::IfaceCount => Some(ArgValue::U64(iface_count)),
        OutputSpec::PathInstanceCount => Some(ArgValue::U64(inst_count)),
    }
}

impl OutputSpec {
    /// A copy of this selector.
    pub fn dup(&self) -> (r: OutputSpec)
        ensures
            r == *self,
    {
        match self {
            OutputSpec::Cell { cell } => OutputSpec::Cell { cell: *cell },
            OutputSpec::Arg { arg } => OutputSpec::Arg { arg: *arg },
            OutputSpec::ConstInt { value } => OutputSpec::ConstInt { value: *value },
            OutputSpec::ConstStr { value } => OutputSpec::ConstStr { value: value.clone() },
            OutputSpec::ConstBool { value } => OutputSpec::ConstBool { value: *value },
            OutputSpec::IfaceCount => OutputSpec::IfaceCount,
            OutputSpec::PathInstanceCount => OutputSpec::PathInstanceCount,
        }
    }

    /// Evaluates this selector over an instance's cells, as
    /// [`eval_output_cells`] says.
    pub fn run_cells(&self, cells: &Vec<u64>, args: &Vec<ArgValue>) -> (r: Option<ArgValue>)
        ensures
            r == eval_output_cells(*self, cells@, args@),
    {
        match self {
            OutputSpec::Cell { cell } => {
                if *cell < cells.len() {
                    Some(ArgValue::U64(cells[*cell]))
                } else {
                    None
                }
            },
            OutputSpec::Arg { arg } => {
                if *arg < args.len() {
                    Some(args[*arg].dup())
                } else {
                    None
                }
            },
            OutputSpec::ConstInt { value } => Some(ArgValue::U64(*value)),
            OutputSpec::ConstStr { value } => Some(ArgValue::Str(value.clone())),
            OutputSpec::ConstBool { value } => Some(ArgValue::Bool(*value)),
            OutputSpec::IfaceCount => None,
            OutputSpec::PathInstanceCount => None,
        }
    }

    /// Evaluates this selector with read access to the whole tree, as
    /// [`eval_output_tree`] says.
    pub fn run_tree(&self, iface_count: u64, inst_count: u64, args: &Vec<ArgValue>) -> (r: Option<
        ArgValue,
    >)
        ensures
            r == eval_output_tree(*self, iface_count, inst_count, args@),
    {
        match self {
            OutputSpec::Cell { cell } => None,
            OutputSpec::Arg { arg } => {
                if *arg < args.len() {
                    Some(args[*arg].dup())
                } else {
                    None
                }
            },
            OutputSpec::ConstInt { value } => Some(ArgValue::U64(*value)),
            OutputSpec::ConstStr { value } => Some(ArgValue::Str(value.clone())),
            OutputSpec::ConstBool { value } => Some(ArgValue::Bool(*value)),
            OutputSpec::IfaceCount => Some(ArgValue::U64(iface_count)),
            OutputSpec::PathInstanceCount => Some(ArgValue::U64(inst_count)),
        }
    }
}

/// Applies one cell update in place, as [`apply_update_spec`] says; on
/// failure the cells stay unchanged.
pub fn run_update(cells: &mut Vec<u64>, u: &CellUpdate, args: &Vec<ArgValue>) -> (ok: bool)
    ensures
        match apply_update_spec(old(cells)@, *u, args@) {
            Some(c2) => ok && final(cells)@ == c2,
            None => !ok && final(cells)@ == old(cells)@,
        },
{
    match u {
        CellUpdate::AddArg { cell, arg } => {
            if *cell < cells.len() && *arg < args.len() {
                match args[*arg].as_u64() {
                    Some(v) => {
                        let c = cells[*cell];
                        cells[*cell] = c.wrapping_add(v);
                        true
                    },
                    None => false,
                }
            } else {
                false
            }
        },
        CellUpdate::SetArg { cell, arg } => {
            if *cell < cells.len() && *arg < args.len() {
                match args[*arg].as_u64() {
                    Some(v) => {
                        cells[*cell] = v;
                        true
                    },
                    None => false,
                }
            } else {
                false
            }
        },
        CellUpdate::Incr { cell } => {
            if *cell < cells.len() {
                let c = cells[*cell];
                cells[*cell] = c.wrapping_add(1);
                true
            } else {
                false
            }
        },
        CellUpdate::SetConst { cell, value } => {
            if *cell < cells.len() {
                cells[*cell] = *value;
                true
            } else {
                false
            }
        },
    }
}

/// Applies a whole update list in place, as [`apply_updates_spec`] says;
/// when any update fails, the cells come back unchanged.
pub fn run_updates(cells: &mut Vec<u64>, updates: &Vec<CellUpdate>, args: &Vec<ArgValue>) -> (ok:
    bool)
    ensures
        match apply_updates_spec(old(cells)@, updates@, args@) {
            Some(c2) => ok && final(cells)@ == c2,
            None => !ok && final(cells)@ == old(cells)@,
        },
{
    let mut work = cells.clone();
    let n = updates.len();
    let mut i: usize = 0;
    proof {
        assert forall|j: int| 0 <= j < cells@.len() implies work@[j] == cells@[j] by {}
        assert(work@ =~= cells@);
        assert(updates@.skip(0) =~= updates@);
    }
    while i < n
        invariant
            n == updates@.len(),
            i <= n,
            apply_updates_spec(old(cells)@, updates@, args@) == apply_updates_spec(
                work@,
                updates@.skip(i as int),
                args@,
            ),
            cells@ == old(cells)@,
        decreases n - i,
    {
        let ghost pre = work@;
        let ok = run_update(&mut work, &updates[i], args);
        if !ok {
            proof {
                assert(updates@.skip(i as int)[0] == updates@[i as int]);
            }
            return false;
        }
        proof {
            assert(updates@.skip(i as int)[0] == updates@[i as int]);
            assert(updates@.skip(i as int).drop_first() =~= updates@.skip(i as int + 1));
        }
        i += 1;
    }
    proof {
        assert(updates@.skip(n as int) =~= Seq::<CellUpdate>::empty());
    }
    core::mem::swap(cells, &mut work);
    true
}

} // verus!
