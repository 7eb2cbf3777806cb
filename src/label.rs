use vstd::prelude::*;
use core::any::TypeId;
use core::marker::PhantomData;

verus! {

/// `std::any::TypeId`, carried through as an opaque value.
#[verifier::external_type_specification]
#[verifier::external_body]
pub struct ExTypeId(TypeId);

/// The identifier of data kind `T`: one fixed value for each `T`. Which value,
/// and how the values of two types relate, is left open here.
pub closed spec fn kind_of<T: ?Sized + 'static>() -> TypeId {
    arbitrary::<(TypeId, PhantomData<T>)>().0
}

/// Relies on `TypeId::of`: the same type always yields the same identifier.
pub assume_specification<T: ?Sized + 'static>[ core::any::TypeId::of::<T> ]() -> (r: TypeId)
    ensures
        r == kind_of::<T>(),
;

/// Relies on `TypeId`'s `==`: two identifiers compare equal exactly when they are the same.
pub assume_specification[ <TypeId as core::cmp::PartialEq>::eq ](a: &TypeId, b: &TypeId) -> (r: bool)
    ensures
        r == (*a == *b),
;

/// A dependency on data of kind `T`; carries no runtime state.
pub struct DataLabel<T: 'static + Send + Sync> {
    marker: PhantomData<T>,
}

impl<T: 'static + Send + Sync> DataLabel<T> {
    /// The data kind this label stands for.
    pub open spec fn kind_spec(&self) -> TypeId {
        kind_of::<T>()
    }

    /// The identifier of the data kind this label stands for.
    pub fn kind(&self) -> (r: TypeId)
        ensures
            r == self.kind_spec(),
    {
        TypeId::of::<T>()
    }
}

impl<T: 'static + Send + Sync> Default for DataLabel<T> {
    fn default() -> Self {
        DataLabel { marker: PhantomData }
    }
}

impl<T: 'static + Send + Sync> Clone for DataLabel<T> {
    fn clone(&self) -> (r: Self)
        ensures
            r == *self,
    {
        DataLabel { marker: PhantomData }
    }
}

impl<T: 'static + Send + Sync> Copy for DataLabel<T> {
}

impl<T: 'static + Send + Sync> PartialEq for DataLabel<T> {
    fn eq(&self, other: &Self) -> (r: bool)
        ensures
            r,
    {
        true
    }
}

impl<T: 'static + Send + Sync> vstd::std_specs::cmp::PartialEqSpecImpl for DataLabel<T> {
    open spec fn obeys_eq_spec() -> bool {
        true
    }

    open spec fn eq_spec(&self, other: &Self) -> bool {
        true
    }
}

impl<T: 'static + Send + Sync> Eq for DataLabel<T> {
}

/// Relies on `TypeId`'s `Hash`: feeds the identifier into `state`.
#[verifier::external_body]
fn hash_kind<H: core::hash::Hasher>(kind: &TypeId, state: &mut H) {
    core::hash::Hash::hash(kind, state)
}

impl<T: 'static + Send + Sync> core::hash::Hash for DataLabel<T> {
    /// Hashes the data kind only, so all labels of one kind hash alike.
    fn hash<H: core::hash::Hasher>(&self, state: &mut H) {
        hash_kind(&self.kind(), state)
    }
}

/// Any two labels of the same data kind are the same value: a label has
/// exactly one inhabitant per kind.
pub proof fn lemma_label_identity<T: 'static + Send + Sync>(a: DataLabel<T>, b: DataLabel<T>)
    ensures
        a == b,
        a.kind_spec() == b.kind_spec(),
{
}

} // verus!
