use vstd::prelude::*;

verus! {

/// The generics of the item that derives: the names of its type parameters, in order, and
/// the type parameters `T` for which the predicate `Standard: Distribution<T>` has been added
/// to the where clause, in the order in which the predicates were added.
#[derive(Clone, Debug, PartialEq, Eq)]
pub struct Generics {
    pub type_params: Vec<String>,
    pub bounded_params: Vec<String>,
}

/// A copy of a list of names.
pub fn copy_names(names: &Vec<String>) -> (r: Vec<String>)
    ensures
        r@ == names@,
{
    let mut r: Vec<String> = Vec::new();
    for i in 0..names.len()
        invariant
            r@ == names@.subrange(0, i as int),
    {
        r.push(names[i].clone());
        assert(r@ =~= names@.subrange(0, i + 1));
    }
    assert(names@.subrange(0, names@.len() as int) =~= names@);
    r
}

impl Generics {
    /// Appends the predicate `Standard: Distribution<T>` to the where clause for every type
    /// parameter `T`, in order.
    pub fn prepare_where_clause(&mut self)
        ensures
            final(self).type_params@ == old(self).type_params@,
            final(self).bounded_params@ == old(self).bounded_params@ + old(self).type_params@,
    {
        let added = copy_names(&self.type_params);
        let mut i: usize = 0;
        let ghost start = self.bounded_params@;
        while i < added.len()
            invariant
                i <= added@.len(),
                added@ == self.type_params@,
                self.type_params@ == old(self).type_params@,
                start == old(self).bounded_params@,
                self.bounded_params@ == start + added@.subrange(0, i as int),
            decreases added@.len() - i,
        {
            self.bounded_params.push(added[i].clone());
            i = i + 1;
            assert(self.bounded_params@ =~= start + added@.subrange(0, i as int));
        }
        assert(added@.subrange(0, added@.len() as int) =~= added@);
    }
}

/// The generics with the predicate `Standard: Distribution<T>` appended to the where clause
/// for every type parameter `T`.
pub fn add_trait_bounds(generics: Generics) -> (r: Generics)
    ensures
        r.type_params@ == generics.type_params@,
        r.bounded_params@ == generics.bounded_params@ + generics.type_params@,
{
    let mut generics = generics;
    generics.prepare_where_clause();
    generics
}

} // verus!
