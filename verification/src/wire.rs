//! The document tree that requests and replies travel in.
//!
//! A `Wire` value is one JSON document: the transport turns request trees
//! into text and reply text into trees, and everything in between works on
//! the tree. Objects keep their members in order; a member is found by its
//! name, the first one winning.

use vstd::prelude::*;

verus! {

/// One named entry of an object.
#[derive(Debug, PartialEq, Eq)]
pub struct Member {
    pub name: String,
    pub value: Wire,
}

/// A document: the shapes a JSON value can take. The protocol's numbers are
/// integers; a number that is no 64-bit integer is kept as `Decimal`, in the
/// digits it was written with, and no field of the protocol reads it.
#[derive(Debug, PartialEq, Eq)]
pub enum Wire {
    Null,
    Bool(bool),
    Int(i64),
    Decimal(String),
    Text(String),
    List(Vec<Wire>),
    Object(Vec<Member>),
}

/// The mathematical value of a [`Member`].
pub struct MemberView {
    pub name: Seq<char>,
    pub value: WireView,
}

/// The mathematical value of a [`Wire`] document.
pub enum WireView {
    Null,
    Bool(bool),
    Int(int),
    Decimal(Seq<char>),
    Text(Seq<char>),
    List(Seq<WireView>),
    Object(Seq<MemberView>),
}

impl View for Member {
    type V = MemberView;

    open spec fn view(&self) -> MemberView
        decreases self,
    {
        MemberView { name: self.name@, value: self.value@ }
    }
}

impl View for Wire {
    type V = WireView;

    open spec fn view(&self) -> WireView
        decreases self,
    {
        match self {
            Wire::Null => WireView::Null,
            Wire::Bool(b) => WireView::Bool(*b),
            Wire::Int(n) => WireView::Int(*n as int),
            Wire::Decimal(digits) => WireView::Decimal(digits@),
            Wire::Text(s) => WireView::Text(s@),
            Wire::List(items) => WireView::List(
                Seq::new(
                    items@.len(),
                    |i: int|
                        if 0 <= i < items@.len() {
                            items@[i]@
                        } else {
                            WireView::Null
                        },
                ),
            ),
            Wire::Object(members) => WireView::Object(
                Seq::new(
                    members@.len(),
                    |i: int|
                        if 0 <= i < members@.len() {
                            members@[i]@
                        } else {
                            MemberView { name: Seq::empty(), value: WireView::Null }
                        },
                ),
            ),
        }
    }
}

/// The values of a run of documents, one for one.
pub open spec fn wires_view(items: Seq<Wire>) -> Seq<WireView> {
    Seq::new(items.len(), |i: int| items[i]@)
}

/// The values of a run of members, one for one.
pub open spec fn members_view(members: Seq<Member>) -> Seq<MemberView> {
    Seq::new(members.len(), |i: int| members[i]@)
}

/// A member of the given name and value.
pub open spec fn named(name: Seq<char>, value: WireView) -> MemberView {
    MemberView { name, value }
}

/// Whether some member carries the name.
pub open spec fn has_member(members: Seq<MemberView>, name: Seq<char>) -> bool {
    exists|i: int| 0 <= i < members.len() && (#[trigger] members[i]).name == name
}

/// Whether `i` is the position of the first member that carries the name.
pub open spec fn is_first_named(members: Seq<MemberView>, name: Seq<char>, i: int) -> bool {
    &&& 0 <= i < members.len()
    &&& members[i].name == name
    &&& forall|j: int| 0 <= j < i ==> (#[trigger] members[j]).name != name
}

/// The value of the first member that carries the name, if there is one.
pub open spec fn member(members: Seq<MemberView>, name: Seq<char>) -> Option<WireView> {
    if has_member(members, name) {
        Some(members[choose|i: int| is_first_named(members, name, i)].value)
    } else {
        None
    }
}

/// The value found under `name` in a document: the first member of that name
/// when the document is an object, nothing otherwise.
pub open spec fn field(doc: WireView, name: Seq<char>) -> Option<WireView> {
    match doc {
        WireView::Object(members) => member(members, name),
        _ => None,
    }
}

/// A member is found at the first position that carries its name.
pub proof fn lemma_member_at(members: Seq<MemberView>, name: Seq<char>, i: int)
    requires
        is_first_named(members, name, i),
    ensures
        member(members, name) == Some(members[i].value),
{
    let c = choose|c: int| is_first_named(members, name, c);
    assert(is_first_named(members, name, c));
    if c < i {
        assert(members[c].name != name);
    }
    if i < c {
        assert(members[i].name != name);
    }
}

/// Nothing is found under a name that no member carries.
pub proof fn lemma_member_absent(members: Seq<MemberView>, name: Seq<char>)
    requires
        forall|i: int| 0 <= i < members.len() ==> (#[trigger] members[i]).name != name,
    ensures
        member(members, name) is None,
{
}

impl Member {
    /// A member of the given name and value.
    pub fn new(name: &str, value: Wire) -> (m: Member)
        ensures
            m@ == named(name@, value@),
    {
        Member { name: name.to_owned(), value }
    }
}

impl Wire {
    /// A text document holding a copy of `s`.
    pub fn text(s: &String) -> (w: Wire)
        ensures
            w@ == WireView::Text(s@),
    {
        Wire::Text(s.clone())
    }

    /// A number document.
    pub fn number(n: i32) -> (w: Wire)
        ensures
            w@ == WireView::Int(n as int),
    {
        Wire::Int(n as i64)
    }

    /// An object made of the given members, in their order.
    pub fn object(members: Vec<Member>) -> (w: Wire)
        ensures
            w@ == WireView::Object(members_view(members@)),
    {
        let w = Wire::Object(members);
        assert(w@->Object_0 =~= members_view(members@));
        w
    }

    /// A list made of the given documents, in their order.
    pub fn list(items: Vec<Wire>) -> (w: Wire)
        ensures
            w@ == WireView::List(wires_view(items@)),
    {
        let w = Wire::List(items);
        assert(w@->List_0 =~= wires_view(items@));
        w
    }

    /// Looks a member up by name. Only an object has members; in an object
    /// that repeats a name the first member of that name is the one found.
    pub fn field(&self, name: &str) -> (found: Option<&Wire>)
        ensures
            match found {
                Some(w) => field(self@, name@) == Some(w@),
                None => field(self@, name@) is None,
            },
    {
        match self {
            Wire::Object(members) => {
                let wanted = name.to_owned();
                let ghost mv = members_view(members@);
                assert(self@->Object_0 =~= mv);
                let mut i: usize = 0;
                while i < members.len()
                    invariant
                        0 <= i <= members.len(),
                        wanted@ == name@,
                        mv == members_view(members@),
                        self@ == WireView::Object(mv),
                        forall|j: int| 0 <= j < i ==> (#[trigger] mv[j]).name != name@,
                    decreases members.len() - i,
                {
                    if members[i].name == wanted {
                        proof {
                            assert(mv[i as int] == members@[i as int]@);
                            lemma_member_at(mv, name@, i as int);
                        }
                        return Some(&members[i].value);
                    }
                    assert(mv[i as int] == members@[i as int]@);
                    i += 1;
                }
                proof {
                    lemma_member_absent(mv, name@);
                }
                None
            },
            _ => None,
        }
    }
}

} // verus!
