//! The store of type registrations, keyed by type id.
use std::collections::HashMap;
use vstd::prelude::*;

use crate::registration::TypeRegistration;

verus! {

broadcast use vstd::std_specs::hash::group_hash_axioms;

/// The registrations known to a deserialization session, at most one for each
/// type id. Every registration is stored under the id of the type it
/// describes.
pub struct TypeRegistry {
    registrations: HashMap<u64, TypeRegistration>,
}

/// The map that results from registering `reg` in `m`: a type that already
/// has a registration keeps it.
pub open spec fn registered(
    m: Map<u64, TypeRegistration>,
    reg: TypeRegistration,
) -> Map<u64, TypeRegistration> {
    if m.contains_key(reg.spec_type().id) {
        m
    } else {
        m.insert(reg.spec_type().id, reg)
    }
}

/// Each registration sits under the id of the type it describes.
pub open spec fn keyed_by_type_id(m: Map<u64, TypeRegistration>) -> bool {
    forall|id: u64| #[trigger] m.contains_key(id) ==> m[id].spec_type().id == id
}

impl View for TypeRegistry {
    type V = Map<u64, TypeRegistration>;

    closed spec fn view(&self) -> Map<u64, TypeRegistration> {
        self.registrations@
    }
}

impl TypeRegistry {
    /// Well-formedness: every registration sits under its own type id.
    pub open spec fn wf(&self) -> bool {
        keyed_by_type_id(self@)
    }

    /// A registry without registrations.
    pub fn new() -> (r: TypeRegistry)
        ensures
            r@ == Map::<u64, TypeRegistration>::empty(),
            r.wf(),
    {
        TypeRegistry { registrations: HashMap::new() }
    }

    /// Registers `registration` under the id of its type, unless that type is
    /// registered already; returns whether it was added.
    pub fn add_registration(&mut self, registration: TypeRegistration) -> (added: bool)
        requires
            old(self).wf(),
        ensures
            added == !old(self)@.contains_key(registration.spec_type().id),
            final(self)@ == registered(old(self)@, registration),
            final(self).wf(),
    {
        let id = registration.type_id();
        if self.registrations.contains_key(&id) {
            false
        } else {
            self.registrations.insert(id, registration);
            true
        }
    }

    /// The registration of the type with id `id`, if there is one.
    pub fn get(&self, id: u64) -> (r: Option<&TypeRegistration>)
        ensures
            r == (if self@.contains_key(id) {
                Some(&self@[id])
            } else {
                None
            }),
    {
        self.registrations.get(&id)
    }

    /// The number of registered types.
    pub fn len(&self) -> (r: usize)
        ensures
            r == self@.len(),
    {
        self.registrations.len()
    }
}

} // verus!
