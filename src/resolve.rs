//! Resolution of a type identifier into its registration.
use vstd::prelude::*;

use crate::error::CustomError;
use crate::registration::TypeRegistration;
use crate::registry::{TypeRegistry, keyed_by_type_id, registered};
use crate::ty::{Type, TypeView};

verus! {

/// The diagnostic for a type whose registration is missing, given the type's
/// debug representation.
pub open spec fn not_found_message(path: Seq<char>) -> Seq<char> {
    "no registration found for type `"@ + path + "`"@
}

/// What resolving `ty` against the registrations `m` comes to: the
/// registration stored under its id, or the diagnostic naming it.
pub open spec fn resolution(m: Map<u64, TypeRegistration>, ty: TypeView) -> Result<
    TypeRegistration,
    Seq<char>,
> {
    if m.contains_key(ty.id) {
        Ok(m[ty.id])
    } else {
        Err(not_found_message(ty.path))
    }
}

/// `r` is an outcome of resolving `ty` against `m`: the registration itself,
/// or an error that reports the diagnostic.
pub open spec fn resolved_as<E: CustomError>(
    r: Result<&TypeRegistration, E>,
    m: Map<u64, TypeRegistration>,
    ty: TypeView,
) -> bool {
    match (r, resolution(m, ty)) {
        (Ok(reg), Ok(expected)) => *reg == expected,
        (Err(e), Err(msg)) => e.reports(msg),
        _ => false,
    }
}

fn registration_not_found(ty: &Type) -> (r: String)
    ensures
        r@ == not_found_message(ty@.path),
{
    let mut msg = String::from_str("no registration found for type `");
    msg.append(ty.path());
    msg.append("`");
    msg
}

/// Looks up the registration of `ty` in `registry`. A missing registration is
/// reported as an error of the caller's representation, built from a message
/// that names the type.
pub fn try_get_registration<'a, E: CustomError>(ty: Type, registry: &'a TypeRegistry) -> (r:
    Result<&'a TypeRegistration, E>)
    ensures
        resolved_as(r, registry@, ty@),
        r is Ok <==> registry@.contains_key(ty@.id),
{
    match registry.get(ty.id()) {
        Some(registration) => Ok(registration),
        None => Err(E::custom(registration_not_found(&ty))),
    }
}

/// A type that has a registration resolves to it, and that registration
/// describes a type with the same id.
pub proof fn lemma_present_type_resolves(m: Map<u64, TypeRegistration>, ty: TypeView)
    requires
        keyed_by_type_id(m),
        m.contains_key(ty.id),
    ensures
        resolution(m, ty) == Ok::<TypeRegistration, Seq<char>>(m[ty.id]),
        m[ty.id].spec_type().id == ty.id,
{
}

/// Once a registration is added for a type that had none, resolving that type
/// gives back exactly the registration that was added, however many other
/// types are registered after it.
pub proof fn lemma_added_registration_resolves(
    m: Map<u64, TypeRegistration>,
    reg: TypeRegistration,
    later: Seq<TypeRegistration>,
)
    requires
        !m.contains_key(reg.spec_type().id),
    ensures
        resolution(later.fold_left(
            registered(m, reg),
            |acc: Map<u64, TypeRegistration>, r: TypeRegistration| registered(acc, r),
        ), reg.spec_type()) == Ok::<
            TypeRegistration,
            Seq<char>,
        >(reg),
    decreases later.len(),
{
    if later.len() > 0 {
        let front = later.drop_last();
        lemma_added_registration_resolves(m, reg, front);
    }
}

/// A type without a registration fails with the diagnostic built from its own
/// debug representation: the message holds that representation right after
/// its fixed opening, and types with other representations get other
/// messages.
pub proof fn lemma_absent_type_message(m: Map<u64, TypeRegistration>, ty: TypeView, other: TypeView)
    requires
        !m.contains_key(ty.id),
    ensures
        resolution(m, ty) == Err::<TypeRegistration, Seq<char>>(not_found_message(ty.path)),
        not_found_message(ty.path).subrange(32, 32 + ty.path.len() as int) == ty.path,
        other.path != ty.path ==> not_found_message(other.path) != not_found_message(ty.path),
{
    reveal_strlit("no registration found for type `");
    reveal_strlit("`");
    let msg = not_found_message(ty.path);
    assert(msg.subrange(32, 32 + ty.path.len() as int) =~= ty.path);
    if not_found_message(other.path) == msg {
        assert(not_found_message(other.path).len() == 33 + other.path.len());
        assert(msg.len() == 33 + ty.path.len());
        assert(other.path =~= not_found_message(other.path).subrange(
            32,
            32 + other.path.len() as int,
        ));
    }
}

/// Resolving the same type against the same registrations has one outcome:
/// two results, in the same or in different error representations, either
/// both hold the same registration or both are errors reporting the same
/// message.
pub proof fn lemma_resolution_outcome_is_fixed<E1: CustomError, E2: CustomError>(
    r1: Result<&TypeRegistration, E1>,
    r2: Result<&TypeRegistration, E2>,
    m: Map<u64, TypeRegistration>,
    ty: TypeView,
)
    requires
        resolved_as(r1, m, ty),
        resolved_as(r2, m, ty),
    ensures
        r1 is Ok <==> r2 is Ok,
        r1 is Ok ==> r1->Ok_0 == r2->Ok_0,
        r1 is Err ==> r1->Err_0.reports(not_found_message(ty.path)) && r2->Err_0.reports(
            not_found_message(ty.path),
        ),
{
}

} // verus!
