//! The stored reflective description of one concrete type.
use vstd::prelude::*;

use crate::ty::{Type, TypeView};

verus! {

/// What the registry holds for one concrete type. It is created once, when
/// the type is registered, and never changes after that.
pub struct TypeRegistration {
    ty: Type,
}

impl TypeRegistration {
    /// The type that this registration describes.
    pub closed spec fn spec_type(&self) -> TypeView {
        self.ty@
    }

    /// A registration describing `ty`.
    pub fn new(ty: Type) -> (r: TypeRegistration)
        ensures
            r.spec_type() == ty@,
    {
        TypeRegistration { ty }
    }

    /// The id of the registered type.
    pub fn type_id(&self) -> (r: u64)
        ensures
            r == self.spec_type().id,
    {
        self.ty.id()
    }

    /// The registered type.
    pub fn ty(&self) -> (r: &Type)
        ensures
            r@ == self.spec_type(),
    {
        &self.ty
    }
}

} // verus!
