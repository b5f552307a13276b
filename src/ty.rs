//! Identifiers of concrete types.
use vstd::prelude::*;

verus! {

/// The mathematical value of a [`Type`]: its stable id and its debug text.
pub ghost struct TypeView {
    pub id: u64,
    pub path: Seq<char>,
}

/// An identifier of a concrete type: a stable unique id and a human-readable
/// type path used for diagnostics. Two `Type`s are equal iff their ids are.
pub struct Type {
    id: u64,
    path: String,
}

impl View for Type {
    type V = TypeView;

    closed spec fn view(&self) -> TypeView {
        TypeView { id: self.id, path: self.path@ }
    }
}

impl Type {
    /// Names the type with the given id and type path.
    pub fn new(id: u64, path: String) -> (r: Type)
        ensures
            r@ == (TypeView { id, path: path@ }),
    {
        Type { id, path }
    }

    /// The stable id of the type.
    pub fn id(&self) -> (r: u64)
        ensures
            r == self@.id,
    {
        self.id
    }

    /// The type path, which is also the debug representation of the type.
    pub fn path(&self) -> (r: &str)
        ensures
            r@ == self@.path,
    {
        self.path.as_str()
    }
}

impl Clone for Type {
    fn clone(&self) -> (r: Type)
        ensures
            r@ == self@,
    {
        Type { id: self.id, path: self.path.clone() }
    }
}

impl PartialEq for Type {
    fn eq(&self, other: &Type) -> (r: bool) {
        self.id == other.id
    }
}

impl vstd::std_specs::cmp::PartialEqSpecImpl for Type {
    open spec fn obeys_eq_spec() -> bool {
        true
    }

    open spec fn eq_spec(&self, other: &Type) -> bool {
        self@.id == other@.id
    }
}

impl Eq for Type {}

} // verus!
