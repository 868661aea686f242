//! Validated wire-format string identifiers.
//!
//! An interface name is a non-empty dot-delimited identifier, a member name a
//! single identifier, and a path name a slash-delimited hierarchy rooted at
//! `/`. Each type holds a string that passed its grammar check at
//! construction; equality is exact string equality.

use vstd::prelude::*;
use vstd::string::StrSliceExecFns;

verus! {

/// An identifier character: an ASCII letter, a digit, or an underscore.
pub open spec fn name_char_ok(c: char) -> bool {
    ||| 'a' as u32 <= c as u32 && c as u32 <= 'z' as u32
    ||| 'A' as u32 <= c as u32 && c as u32 <= 'Z' as u32
    ||| '0' as u32 <= c as u32 && c as u32 <= '9' as u32
    ||| c == '_'
}

/// The member-name grammar: a non-empty identifier of at most 255
/// characters.
pub open spec fn member_name_ok(s: Seq<char>) -> bool {
    &&& 0 < s.len() <= 255
    &&& forall|i: int| 0 <= i < s.len() ==> name_char_ok(#[trigger] s[i])
}

/// The interface-name grammar: non-empty, at most 255 characters, each an
/// identifier character or a dot, with no leading, trailing or doubled dot.
pub open spec fn iface_name_ok(s: Seq<char>) -> bool {
    &&& 0 < s.len() <= 255
    &&& forall|i: int| 0 <= i < s.len() ==> (name_char_ok(#[trigger] s[i]) || s[i] == '.')
    &&& s[0] != '.'
    &&& s[s.len() - 1] != '.'
    &&& forall|i: int| 0 <= i < s.len() - 1 ==> !(#[trigger] s[i] == '.' && s[i + 1] == '.')
}

/// The path-name grammar: starts at the root `/`, each further character an
/// identifier character or a slash, with no doubled and no trailing slash.
pub open spec fn path_name_ok(s: Seq<char>) -> bool {
    &&& 0 < s.len()
    &&& s[0] == '/'
    &&& forall|i: int| 0 <= i < s.len() ==> (name_char_ok(#[trigger] s[i]) || s[i] == '/')
    &&& forall|i: int| 0 <= i < s.len() - 1 ==> !(#[trigger] s[i] == '/' && s[i + 1] == '/')
    &&& s.len() > 1 ==> s[s.len() - 1] != '/'
}

/// Decides [`name_char_ok`].
pub fn is_name_char(c: char) -> (b: bool)
    ensures
        b == name_char_ok(c),
{
    let n = c as u32;
    (97 <= n && n <= 122) || (65 <= n && n <= 90) || (48 <= n && n <= 57) || n == 95
}

/// Decides [`member_name_ok`].
pub fn check_member_name(s: &str) -> (b: bool)
    ensures
        b == member_name_ok(s@),
{
    let n = s.unicode_len();
    if n == 0 || n > 255 {
        return false;
    }
    let mut i: usize = 0;
    while i < n
        invariant
            n == s@.len(),
            0 < n <= 255,
            i <= n,
            forall|j: int| 0 <= j < i ==> name_char_ok(#[trigger] s@[j]),
        decreases n - i,
    {
        if !is_name_char(s.get_char(i)) {
            return false;
        }
        i += 1;
    }
    true
}

/// Decides [`iface_name_ok`].
pub fn check_iface_name(s: &str) -> (b: bool)
    ensures
        b == iface_name_ok(s@),
{
    let n = s.unicode_len();
    if n == 0 || n > 255 {
        return false;
    }
    if s.get_char(0) == '.' || s.get_char(n - 1) == '.' {
        return false;
    }
    let mut i: usize = 0;
    let mut prev_dot: bool = false;
    while i < n
        invariant
            n == s@.len(),
            0 < n <= 255,
            i <= n,
            forall|j: int| 0 <= j < i ==> (name_char_ok(#[trigger] s@[j]) || s@[j] == '.'),
            forall|j: int| 0 <= j < i - 1 ==> !(#[trigger] s@[j] == '.' && s@[j + 1] == '.'),
            prev_dot <==> (i > 0 && s@[i - 1] == '.'),
        decreases n - i,
    {
        let c = s.get_char(i);
        let dot = c == '.';
        if dot {
            if prev_dot {
                return false;
            }
        } else {
            if !is_name_char(c) {
                return false;
            }
        }
        prev_dot = dot;
        i += 1;
    }
    true
}

/// Decides [`path_name_ok`].
pub fn check_path_name(s: &str) -> (b: bool)
    ensures
        b == path_name_ok(s@),
{
    let n = s.unicode_len();
    if n == 0 {
        return false;
    }
    if s.get_char(0) != '/' {
        return false;
    }
    if n > 1 && s.get_char(n - 1) == '/' {
        return false;
    }
    let mut i: usize = 0;
    let mut prev_slash: bool = false;
    while i < n
        invariant
            n == s@.len(),
            0 < n,
            i <= n,
            s@[0] == '/',
            forall|j: int| 0 <= j < i ==> (name_char_ok(#[trigger] s@[j]) || s@[j] == '/'),
            forall|j: int| 0 <= j < i - 1 ==> !(#[trigger] s@[j] == '/' && s@[j + 1] == '/'),
            prev_slash <==> (i > 0 && s@[i - 1] == '/'),
        decreases n - i,
    {
        let c = s.get_char(i);
        let slash = c == '/';
        if slash {
            if prev_slash {
                return false;
            }
        } else {
            if !is_name_char(c) {
                return false;
            }
        }
        prev_slash = slash;
        i += 1;
    }
    true
}

/// A validated interface name.
#[derive(Debug)]
pub struct IfaceName {
    s: String,
}

impl View for IfaceName {
    type V = Seq<char>;

    closed spec fn view(&self) -> Seq<char> {
        self.s@
    }
}

impl IfaceName {
    /// Every value of this type satisfies the interface-name grammar.
    pub open spec fn wf(&self) -> bool {
        iface_name_ok(self@)
    }

    /// Validates `s` as an interface name.
    pub fn new(s: &str) -> (r: Option<IfaceName>)
        ensures
            r is Some <==> iface_name_ok(s@),
            r is Some ==> r->0@ == s@ && r->0.wf(),
    {
        if check_iface_name(s) {
            Some(IfaceName { s: s.to_owned() })
        } else {
            None
        }
    }

    /// The name as a string slice.
    pub fn as_str(&self) -> (r: &str)
        ensures
            r@ == self@,
    {
        self.s.as_str()
    }

    /// An owned copy of the name's text.
    pub fn key(&self) -> (r: String)
        ensures
            r@ == self@,
    {
        self.s.as_str().to_owned()
    }

    /// Whether this name's text equals `other`.
    pub fn eq_string(&self, other: &String) -> (r: bool)
        ensures
            r == (self@ == other@),
    {
        self.s == *other
    }

    /// A copy of this name.
    pub fn dup(&self) -> (r: IfaceName)
        ensures
            r@ == self@,
            r.wf() == self.wf(),
    {
        IfaceName { s: self.s.clone() }
    }
}

/// A validated member (method, property or signal) name.
#[derive(Debug)]
pub struct MemberName {
    s: String,
}

impl View for MemberName {
    type V = Seq<char>;

    closed spec fn view(&self) -> Seq<char> {
        self.s@
    }
}

impl MemberName {
    /// Every value of this type satisfies the member-name grammar.
    pub open spec fn wf(&self) -> bool {
        member_name_ok(self@)
    }

    /// Validates `s` as a member name.
    pub fn new(s: &str) -> (r: Option<MemberName>)
        ensures
            r is Some <==> member_name_ok(s@),
            r is Some ==> r->0@ == s@ && r->0.wf(),
    {
        if check_member_name(s) {
            Some(MemberName { s: s.to_owned() })
        } else {
            None
        }
    }

    /// The name as a string slice.
    pub fn as_str(&self) -> (r: &str)
        ensures
            r@ == self@,
    {
        self.s.as_str()
    }

    /// Whether this name's text equals `other`.
    pub fn eq_string(&self, other: &String) -> (r: bool)
        ensures
            r == (self@ == other@),
    {
        self.s == *other
    }

    /// A copy of this name.
    pub fn dup(&self) -> (r: MemberName)
        ensures
            r@ == self@,
            r.wf() == self.wf(),
    {
        MemberName { s: self.s.clone() }
    }
}

/// A validated object-path name.
#[derive(Debug)]
pub struct PathName {
    s: String,
}

impl View for PathName {
    type V = Seq<char>;

    closed spec fn view(&self) -> Seq<char> {
        self.s@
    }
}

impl PathName {
    /// Every value of this type satisfies the path-name grammar.
    pub open spec fn wf(&self) -> bool {
        path_name_ok(self@)
    }

    /// Validates `s` as a path name.
    pub fn new(s: &str) -> (r: Option<PathName>)
        ensures
            r is Some <==> path_name_ok(s@),
            r is Some ==> r->0@ == s@ && r->0.wf(),
    {
        if check_path_name(s) {
            Some(PathName { s: s.to_owned() })
        } else {
            None
        }
    }

    /// The name as a string slice.
    pub fn as_str(&self) -> (r: &str)
        ensures
            r@ == self@,
    {
        self.s.as_str()
    }

    /// An owned copy of the name's text.
    pub fn key(&self) -> (r: String)
        ensures
            r@ == self@,
    {
        self.s.as_str().to_owned()
    }

    /// A copy of this name.
    pub fn dup(&self) -> (r: PathName)
        ensures
            r@ == self@,
            r.wf() == self.wf(),
    {
        PathName { s: self.s.clone() }
    }
}

} // verus!
