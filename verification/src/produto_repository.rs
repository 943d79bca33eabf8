use vstd::prelude::*;

use crate::busca::{indice_primeiro, lema_indice_aqui, lema_indice_nenhum};
use crate::domain_error::DomainError;
use crate::produto::{Categoria, Produto, ProdutoView};

verus! {

/// The index in `s` of the first catalog item with identity `id`, or -1.
pub open spec fn indice_produto(s: Seq<ProdutoView>, id: int) -> int {
    indice_primeiro(s, |p: ProdutoView| p.id == id)
}

/// The in-memory catalog store: lookups resolve an identity to the first
/// item carrying it, and category listings keep the insertion order.
pub struct ProdutoRepository {
    pub produtos: Vec<Produto>,
}

impl View for ProdutoRepository {
    type V = Seq<ProdutoView>;

    open spec fn view(&self) -> Seq<ProdutoView> {
        self.produtos@.map_values(|p: Produto| p@)
    }
}

impl ProdutoRepository {
    /// An empty store.
    pub fn new() -> (r: ProdutoRepository)
        ensures
            r@ == Seq::<ProdutoView>::empty(),
    {
        let r = ProdutoRepository { produtos: Vec::new() };
        proof {
            assert(r@ =~= Seq::<ProdutoView>::empty());
        }
        r
    }

    /// Appends a catalog item as given.
    pub fn adiciona_produto(&mut self, produto: Produto)
        ensures
            final(self)@ == old(self)@.push(produto@),
    {
        self.produtos.push(produto);
        proof {
            assert(self@ =~= old(self)@.push(self.produtos@.last()@));
        }
    }

    /// A copy of the first catalog item with identity `id`; `NotFound`
    /// exactly when no item carries that identity.
    #[verifier::loop_isolation(false)]
    pub fn get_produto_by_id(&self, id: usize) -> (r: Result<Produto, DomainError>)
        ensures
            match r {
                Ok(p) => indice_produto(self@, id as int) >= 0 && p@ == self@[indice_produto(
                    self@,
                    id as int,
                )] && p@.id == id as int,
                Err(e) => e == DomainError::NotFound && indice_produto(self@, id as int) == -1,
            },
    {
        let ghost pred = |p: ProdutoView| p.id == id as int;
        let mut i: usize = 0;
        while i < self.produtos.len()
            invariant
                i <= self.produtos.len(),
                forall|j: int| 0 <= j < i ==> !#[trigger] pred(self@[j]),
            decreases self.produtos.len() - i,
        {
            if self.produtos[i].id == id {
                proof {
                    lema_indice_aqui(self@, pred, i as int);
                }
                return Ok(self.produtos[i].clone());
            }
            i += 1;
        }
        proof {
            lema_indice_nenhum(self@, pred);
        }
        Err(DomainError::NotFound)
    }

    /// Copies of the catalog items in category `categoria`, in insertion
    /// order.
    pub fn get_produtos_by_categoria(&self, categoria: Categoria) -> (r: Vec<Produto>)
        ensures
            r@.map_values(|p: Produto| p@) == self@.filter(
                |p: ProdutoView| p.categoria == categoria,
            ),
    {
        let mut r: Vec<Produto> = Vec::new();
        let mut i: usize = 0;
        proof {
            reveal(Seq::filter);
            assert(r@.map_values(|p: Produto| p@) =~= self@.take(0).filter(
                |p: ProdutoView| p.categoria == categoria,
            ));
        }
        while i < self.produtos.len()
            invariant
                i <= self.produtos.len(),
                r@.map_values(|p: Produto| p@) == self@.take(i as int).filter(
                    |p: ProdutoView| p.categoria == categoria,
                ),
            decreases self.produtos.len() - i,
        {
            let ghost antes = r@.map_values(|p: Produto| p@);
            if matches_categoria(&self.produtos[i], categoria) {
                r.push(self.produtos[i].clone());
            }
            proof {
                reveal(Seq::filter);
                let pred = |p: ProdutoView| p.categoria == categoria;
                assert(self@.take(i + 1).drop_last() =~= self@.take(i as int));
                assert(self@.take(i + 1).last() == self@[i as int]);
                assert(self@.take(i + 1).filter(pred) == if pred(self@[i as int]) {
                    antes.push(self@[i as int])
                } else {
                    antes
                });
                assert(r@.map_values(|p: Produto| p@) =~= self@.take(i + 1).filter(pred));
            }
            i += 1;
        }
        proof {
            assert(self@.take(self.produtos.len() as int) =~= self@);
        }
        r
    }
}

/// Whether the item's category equals `categoria`.
fn matches_categoria(produto: &Produto, categoria: Categoria) -> (r: bool)
    ensures
        r == (produto@.categoria == categoria),
{
    produto.categoria == categoria
}

} // verus!
