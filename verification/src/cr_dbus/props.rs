//! Replies of the CR D-Bus interfaces: property values, property lists
//! and the errors a method call can end with.

use vstd::prelude::*;

verus! {

/// A property value sent on the bus.
#[derive(Debug, Clone)]
pub enum PropValue {
    Bool(bool),
    U32(u32),
    U64(u64),
    Str(String),
    StrList(Vec<String>),
}

/// The error a D-Bus method call ends with.
#[derive(Debug, Clone)]
pub enum DbusError {
    /// An argument was refused.
    InvalidArgs(String),
    /// The call failed.
    Failed(String),
    /// The caller may not do this.
    AccessDenied(String),
}

/// A property value with its strings taken as character sequences.
pub enum PropView {
    Bool(bool),
    U32(u32),
    U64(u64),
    Str(Seq<char>),
    StrList(Seq<Seq<char>>),
}

impl View for PropValue {
    type V = PropView;

    open spec fn view(&self) -> PropView {
        match *self {
            PropValue::Bool(b) => PropView::Bool(b),
            PropValue::U32(v) => PropView::U32(v),
            PropValue::U64(v) => PropView::U64(v),
            PropValue::Str(s) => PropView::Str(s@),
            PropValue::StrList(l) => PropView::StrList(l@.map_values(|x: String| x@)),
        }
    }
}

/// A property list as (name, value) pairs.
pub open spec fn props_view(p: Seq<(String, PropValue)>) -> Seq<(Seq<char>, PropView)> {
    p.map_values(|e: (String, PropValue)| (e.0@, e.1@))
}

/// Appends a named property.
pub fn push_prop(props: &mut Vec<(String, PropValue)>, name: &str, value: PropValue)
    ensures
        props_view(final(props)@) == props_view(old(props)@).push((name@, value@)),
{
    props.push((name.to_string(), value));
    assert(props_view(final(props)@) =~= props_view(old(props)@).push((name@, value@)));
}

/// A copy of a list of strings.
pub fn copy_strings(v: &Vec<String>) -> (r: Vec<String>)
    ensures
        r@.map_values(|x: String| x@) == v@.map_values(|x: String| x@),
{
    let mut r: Vec<String> = Vec::new();
    let mut i: usize = 0;
    while i < v.len()
        invariant
            i <= v@.len(),
            r@.len() == i,
            forall|j: int| 0 <= j < i ==> #[trigger] r@[j]@ == v@[j]@,
        decreases v@.len() - i,
    {
        r.push(v[i].clone());
        i += 1;
    }
    assert(r@.map_values(|x: String| x@) =~= v@.map_values(|x: String| x@));
    r
}

} // verus!
