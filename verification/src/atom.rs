//! Interned level names.

use string_cache::DefaultAtom;
use vstd::prelude::*;

verus! {

#[verifier::external_type_specification]
#[verifier::external_body]
#[verifier::reject_recursive_types(Static)]
pub struct ExAtom<Static>(string_cache::Atom<Static>);

#[verifier::external_type_specification]
#[verifier::external_body]
pub struct ExEmptyStaticAtomSet(string_cache::EmptyStaticAtomSet);

/// The text that an atom was interned from.
pub uninterp spec fn atom_text(a: DefaultAtom) -> Seq<char>;

/// `Atom::from` on a string slice: interns the text. The atom that comes
/// back dereferences to the same text.
#[verifier::external_body]
pub(crate) fn atom_from(s: &str) -> (a: DefaultAtom)
    ensures
        atom_text(a) == s@,
{
    DefaultAtom::from(s)
}

/// `Atom::clone`: another handle on the same interned text.
#[verifier::external_body]
pub(crate) fn atom_clone(a: &DefaultAtom) -> (r: DefaultAtom)
    ensures
        r == *a,
{
    a.clone()
}

/// `Atom::eq`: atoms are equal exactly when their texts are, since a text
/// is always interned to the same atom.
#[verifier::external_body]
pub(crate) fn atom_eq(a: &DefaultAtom, b: &DefaultAtom) -> (r: bool)
    ensures
        r == (atom_text(*a) == atom_text(*b)),
{
    a == b
}

} // verus!
