//! The append-only table of types.

use vstd::prelude::*;
use super::{lookup, number_type, primitive_types, seeded, Number, Type, TypeId, TypeView};

verus! {

/// Append-only table from [`TypeId`] to [`Type`]. An entry, once added, is
/// never changed or removed.
#[derive(Debug)]
pub struct TypeStore {
    types: Vec<Type>,
}

impl View for TypeStore {
    type V = Seq<TypeView>;

    closed spec fn view(&self) -> Seq<TypeView> {
        self.types@.map_values(|t: Type| t@)
    }
}

impl TypeStore {
    pub fn new(types: Vec<Type>) -> (r: TypeStore)
        ensures
            r@ == types@.map_values(|t: Type| t@),
    {
        TypeStore { types }
    }

    /// Appends `ty` and returns its handle. Every handle given out before
    /// keeps its entry.
    pub fn add_type(&mut self, ty: Type) -> (id: TypeId)
        ensures
            final(self)@ == old(self)@.push(ty@),
            id.0 == old(self)@.len(),
            lookup(final(self)@, id) == Some(ty@),
            forall|other: TypeId|
                lookup(old(self)@, other) is Some ==> lookup(final(self)@, other) == lookup(
                    old(self)@,
                    other,
                ),
            seeded(old(self)@) ==> seeded(final(self)@),
    {
        let next_id = self.types.len();
        proof {
            assert(self.types@.push(ty).map_values(|t: Type| t@) =~= self.types@.map_values(
                |t: Type| t@,
            ).push(ty@));
            if seeded(old(self)@) {
                assert(old(self)@.push(ty@).subrange(0, 18) =~= old(self)@.subrange(0, 18));
            }
        }
        self.types.push(ty);
        TypeId(next_id as u64)
    }

    pub fn get_type(&self, type_id: TypeId) -> (r: Option<&Type>)
        ensures
            match r {
                Some(ty) => lookup(self@, type_id) == Some(ty@),
                None => lookup(self@, type_id) is None,
            },
    {
        let index = type_id.0;
        if index < self.types.len() as u64 {
            Some(&self.types[index as usize])
        } else {
            None
        }
    }

    /// Number of entries, which is also the next handle to be given out.
    pub fn len(&self) -> (r: usize)
        ensures
            r == self@.len(),
    {
        self.types.len()
    }
}

impl Default for TypeStore {
    /// A store that holds the primitive types at their reserved handles.
    fn default() -> (r: TypeStore)
        ensures
            r@ == primitive_types(),
            seeded(r@),
    {
        let mut types: Vec<Type> = Vec::new();
        types.push(Type::Void);
        types.push(Type::Bool);
        types.push(Type::Str);
        types.push(Type::String);
        types.push(Type::Char);
        types.push(Number::I8.as_type());
        types.push(Number::I16.as_type());
        types.push(Number::I32.as_type());
        types.push(Number::I64.as_type());
        types.push(Number::Isize.as_type());
        types.push(Number::U8.as_type());
        types.push(Number::U16.as_type());
        types.push(Number::U32.as_type());
        types.push(Number::U64.as_type());
        types.push(Number::Usize.as_type());
        types.push(Number::F32.as_type());
        types.push(Number::F64.as_type());
        types.push(Type::Nothing);
        let store = TypeStore::new(types);
        proof {
            assert(store@ =~= primitive_types());
            assert(store@.subrange(0, 18) =~= primitive_types());
        }
        store
    }
}

/// Each reserved handle denotes its primitive type in every seeded store,
/// however many types were added since.
pub proof fn lemma_reserved_handles(types: Seq<TypeView>)
    requires
        seeded(types),
    ensures
        lookup(types, TypeId::void()) == Some(TypeView::Void),
        lookup(types, TypeId::bool()) == Some(TypeView::Bool),
        lookup(types, TypeId::str()) == Some(TypeView::Str),
        lookup(types, TypeId::string()) == Some(TypeView::String),
        lookup(types, TypeId::char()) == Some(TypeView::Char),
        lookup(types, TypeId::nothing()) == Some(TypeView::Nothing),
        forall|n: Number| lookup(types, super::type_id::number_type_id(n)) == Some(number_type(n)),
{
    let p = types.subrange(0, 18);
    assert(forall|i: int| 0 <= i < 18 ==> types[i] == p[i]);
    assert forall|n: Number| lookup(types, super::type_id::number_type_id(n)) == Some(
        number_type(n),
    ) by {
        let id = super::type_id::number_type_id(n);
        assert(types[id.0 as int] == p[id.0 as int]);
    }
}

} // verus!
