//! The message representation at the engine's boundary.
//!
//! A request arrives already decoded: its role, its header fields (path,
//! interface, member) and its positional arguments are plain values. The
//! engine produces outgoing messages the same way: a method return or an
//! error keyed to the original call's serial, or a signal. Transport and
//! wire encoding happen outside the engine.

use vstd::prelude::*;
use crate::arg::ArgValue;
use crate::arg::MethodErr;
use crate::strings::iface_name_ok;
use crate::strings::member_name_ok;
use crate::strings::path_name_ok;
use crate::strings::check_iface_name;
use crate::strings::check_member_name;
use crate::strings::check_path_name;

verus! {

/// The role of a message.
#[derive(Clone, Copy, Debug, PartialEq, Eq, Structural)]
pub enum MessageType {
    /// A request for a method invocation.
    MethodCall,
    /// A successful reply to a method call.
    MethodReturn,
    /// A failure reply to a method call.
    Error,
    /// A one-way notification.
    Signal,
}

/// One message, with decoded headers and arguments.
#[derive(Clone, Debug)]
pub struct Message {
    /// The message role.
    pub kind: MessageType,
    /// This message's own serial number.
    pub serial: u32,
    /// For replies: the serial of the call being answered.
    pub reply_serial: Option<u32>,
    /// The object path header, if present.
    pub path: Option<String>,
    /// The interface-name header, if present.
    pub interface: Option<String>,
    /// The member-name header, if present.
    pub member: Option<String>,
    /// For error replies: the protocol error name.
    pub error_name: Option<String>,
    /// The decoded positional arguments.
    pub args: Vec<ArgValue>,
}

/// Whether a message is a method call that carries all three routing
/// headers.
pub open spec fn is_routable_call(m: Message) -> bool {
    &&& m.kind == MessageType::MethodCall
    &&& m.path is Some
    &&& m.interface is Some
    &&& m.member is Some
}

impl Message {
    /// Builds a method call addressed at `path` / `interface` / `member`,
    /// with no arguments yet. Returns `None` exactly when one of the three
    /// names breaks its grammar.
    pub fn new_method_call(path: &str, interface: &str, member: &str) -> (r: Option<Message>)
        ensures
            r is Some <==> (path_name_ok(path@) && iface_name_ok(interface@) && member_name_ok(
                member@,
            )),
            r is Some ==> {
                let m = r->0;
                &&& m.kind == MessageType::MethodCall
                &&& m.serial == 0
                &&& m.reply_serial is None
                &&& m.path is Some && m.path->0@ == path@
                &&& m.interface is Some && m.interface->0@ == interface@
                &&& m.member is Some && m.member->0@ == member@
                &&& m.error_name is None
                &&& m.args@ == Seq::<ArgValue>::empty()
            },
    {
        if check_path_name(path) && check_iface_name(interface) && check_member_name(member) {
            Some(
                Message {
                    kind: MessageType::MethodCall,
                    serial: 0,
                    reply_serial: None,
                    path: Some(path.to_owned()),
                    interface: Some(interface.to_owned()),
                    member: Some(member.to_owned()),
                    error_name: None,
                    args: Vec::new(),
                },
            )
        } else {
            None
        }
    }

    /// Builds a signal message from `path` / `interface` / `member`, with no
    /// arguments yet. Returns `None` exactly when one of the three names
    /// breaks its grammar.
    pub fn new_signal(path: &str, interface: &str, member: &str) -> (r: Option<Message>)
        ensures
            r is Some <==> (path_name_ok(path@) && iface_name_ok(interface@) && member_name_ok(
                member@,
            )),
            r is Some ==> {
                let m = r->0;
                &&& m.kind == MessageType::Signal
                &&& m.serial == 0
                &&& m.reply_serial is None
                &&& m.path is Some && m.path->0@ == path@
                &&& m.interface is Some && m.interface->0@ == interface@
                &&& m.member is Some && m.member->0@ == member@
                &&& m.error_name is None
                &&& m.args@ == Seq::<ArgValue>::empty()
            },
    {
        if check_path_name(path) && check_iface_name(interface) && check_member_name(member) {
            Some(
                Message {
                    kind: MessageType::Signal,
                    serial: 0,
                    reply_serial: None,
                    path: Some(path.to_owned()),
                    interface: Some(interface.to_owned()),
                    member: Some(member.to_owned()),
                    error_name: None,
                    args: Vec::new(),
                },
            )
        } else {
            None
        }
    }

    /// Appends one positional argument.
    pub fn append(&mut self, v: ArgValue)
        ensures
            *final(self) == (Message { args: final(self).args, ..*old(self) }),
            final(self).args@ == old(self).args@.push(v),
    {
        self.args.push(v);
    }

    /// Sets this message's serial number.
    pub fn set_serial(&mut self, serial: u32)
        ensures
            *final(self) == (Message { serial, ..*old(self) }),
    {
        self.serial = serial;
    }

    /// The empty successful reply to this call, keyed to its serial.
    pub fn method_return(&self) -> (r: Message)
        ensures
            is_method_return_of(r, *self),
            r.args@ == Seq::<ArgValue>::empty(),
    {
        Message {
            kind: MessageType::MethodReturn,
            serial: 0,
            reply_serial: Some(self.serial),
            path: None,
            interface: None,
            member: None,
            error_name: None,
            args: Vec::new(),
        }
    }
}

/// What a successful reply to `call` looks like: keyed to the call's
/// serial, no routing headers, no error name. Its arguments are
/// constrained separately.
pub open spec fn is_method_return_of(r: Message, call: Message) -> bool {
    &&& r.kind == MessageType::MethodReturn
    &&& r.serial == 0
    &&& r.reply_serial == Some(call.serial)
    &&& r.path is None
    &&& r.interface is None
    &&& r.member is None
    &&& r.error_name is None
}

/// What the error reply that `e` makes for `call` looks like: keyed to the
/// call's serial, named after the error, carrying the description as its
/// one argument.
pub open spec fn is_error_reply_of(r: Message, call: Message, e: MethodErr) -> bool {
    &&& r.kind == MessageType::Error
    &&& r.serial == 0
    &&& r.reply_serial == Some(call.serial)
    &&& r.path is None
    &&& r.interface is None
    &&& r.member is None
    &&& r.error_name is Some && r.error_name->0@ == e.name@
    &&& r.args@ =~= seq![ArgValue::Str(e.text)]
}

impl MethodErr {
    /// Converts this failure into the error reply to `call`.
    pub fn to_message(&self, call: &Message) -> (r: Message)
        ensures
            is_error_reply_of(r, *call, *self),
    {
        let mut args: Vec<ArgValue> = Vec::new();
        args.push(ArgValue::Str(self.text.clone()));
        Message {
            kind: MessageType::Error,
            serial: 0,
            reply_serial: Some(call.serial),
            path: None,
            interface: None,
            member: None,
            error_name: Some(self.name.clone()),
            args,
        }
    }
}

/// Whether two messages carry the same content: same role, serials,
/// headers and arguments.
pub open spec fn msg_eq(a: Message, b: Message) -> bool {
    &&& a.kind == b.kind
    &&& a.serial == b.serial
    &&& a.reply_serial == b.reply_serial
    &&& a.path == b.path
    &&& a.interface == b.interface
    &&& a.member == b.member
    &&& a.error_name == b.error_name
    &&& a.args@ == b.args@
}

/// Copies a vector of argument values.
pub fn dup_args(v: &Vec<ArgValue>) -> (r: Vec<ArgValue>)
    ensures
        r@ == v@,
{
    let mut r: Vec<ArgValue> = Vec::new();
    let n = v.len();
    let mut i: usize = 0;
    while i < n
        invariant
            n == v@.len(),
            i <= n,
            r@ == v@.subrange(0, i as int),
        decreases n - i,
    {
        r.push(v[i].dup());
        proof {
            assert(r@ =~= v@.subrange(0, i + 1));
        }
        i += 1;
    }
    proof {
        assert(r@ =~= v@);
    }
    r
}

impl Message {
    /// A copy of this message.
    pub fn dup(&self) -> (r: Message)
        ensures
            msg_eq(r, *self),
    {
        Message {
            kind: self.kind,
            serial: self.serial,
            reply_serial: self.reply_serial,
            path: match &self.path {
                Some(s) => Some(s.clone()),
                None => None,
            },
            interface: match &self.interface {
                Some(s) => Some(s.clone()),
                None => None,
            },
            member: match &self.member {
                Some(s) => Some(s.clone()),
                None => None,
            },
            error_name: match &self.error_name {
                Some(s) => Some(s.clone()),
                None => None,
            },
            args: dup_args(&self.args),
        }
    }
}

/// The routing headers of a method call.
pub struct MsgHeaders {
    /// The member name.
    pub m: String,
    /// The interface name.
    pub i: String,
    /// The object path.
    pub p: String,
}

/// Extracts the routing headers: `None` exactly when the message is not a
/// method call or lacks a path, an interface or a member header.
pub fn msg_headers(msg: &Message) -> (r: Option<MsgHeaders>)
    ensures
        r is Some <==> is_routable_call(*msg),
        r is Some ==> {
            &&& r->0.p@ == msg.path->0@
            &&& r->0.i@ == msg.interface->0@
            &&& r->0.m@ == msg.member->0@
        },
{
    if !(matches!(msg.kind, MessageType::MethodCall)) {
        return None;
    }
    let p = match &msg.path {
        Some(p) => p.clone(),
        None => { return None; },
    };
    let i = match &msg.interface {
        Some(i) => i.clone(),
        None => { return None; },
    };
    let m = match &msg.member {
        Some(m) => m.clone(),
        None => { return None; },
    };
    Some(MsgHeaders { m, i, p })
}

} // verus!
