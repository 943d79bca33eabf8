use vstd::prelude::*;

use crate::domain_error::DomainError;

verus! {

/// The list of ingredient names attached to a catalog item.
#[derive(Debug)]
pub struct Ingredientes {
    pub itens: Vec<String>,
}

impl View for Ingredientes {
    type V = Seq<Seq<char>>;

    open spec fn view(&self) -> Seq<Seq<char>> {
        self.itens@.map_values(|s: String| s@)
    }
}

impl Clone for Ingredientes {
    fn clone(&self) -> (r: Self)
        ensures
            r@ == self@,
    {
        let mut itens: Vec<String> = Vec::new();
        let mut i: usize = 0;
        while i < self.itens.len()
            invariant
                i <= self.itens.len(),
                itens@.len() == i,
                forall|j: int| 0 <= j < i ==> #[trigger] itens@[j]@ == self.itens@[j]@,
            decreases self.itens.len() - i,
        {
            itens.push(self.itens[i].clone());
            i += 1;
        }
        let r = Ingredientes { itens };
        proof {
            assert(r@ =~= self@);
        }
        r
    }
}

impl Ingredientes {
    /// Wraps a list of ingredient names; every list is accepted.
    pub fn new(itens: Vec<String>) -> (r: Result<Ingredientes, DomainError>)
        ensures
            r matches Ok(v) && v@ == itens@.map_values(|s: String| s@),
    {
        Ok(Ingredientes { itens })
    }

    /// The ingredient names, in the order given at construction.
    pub fn itens(&self) -> (r: &Vec<String>)
        ensures
            r@.map_values(|s: String| s@) == self@,
    {
        &self.itens
    }
}

} // verus!
