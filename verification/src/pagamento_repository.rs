use vstd::prelude::*;

use crate::busca::{indice_primeiro, lema_indice_aqui, lema_indice_nenhum};
use crate::domain_error::DomainError;
use crate::pagamento::{Pagamento, PagamentoView};

verus! {

/// The index in `s` of the first payment record for order `id_pedido`, or
/// -1.
pub open spec fn indice_pagamento(s: Seq<PagamentoView>, id_pedido: int) -> int {
    indice_primeiro(s, |p: PagamentoView| p.id_pedido == id_pedido)
}

/// The in-memory payment store. A payment is tied to its order's identity;
/// `guarda_pagamento` keeps at most one record per order by replacing the
/// first existing one.
pub struct PagamentoRepository {
    pub pagamentos: Vec<Pagamento>,
}

impl View for PagamentoRepository {
    type V = Seq<PagamentoView>;

    open spec fn view(&self) -> Seq<PagamentoView> {
        self.pagamentos@.map_values(|p: Pagamento| p@)
    }
}

impl PagamentoRepository {
    /// An empty store.
    pub fn new() -> (r: PagamentoRepository)
        ensures
            r@ == Seq::<PagamentoView>::empty(),
    {
        let r = PagamentoRepository { pagamentos: Vec::new() };
        proof {
            assert(r@ =~= Seq::<PagamentoView>::empty());
        }
        r
    }

    /// A copy of the first payment record for order `id_pedido`; `NotFound`
    /// exactly when the order has no payment record.
    #[verifier::loop_isolation(false)]
    pub fn get_pagamento_by_id_pedido(&self, id_pedido: usize) -> (r: Result<
        Pagamento,
        DomainError,
    >)
        ensures
            match r {
                Ok(p) => indice_pagamento(self@, id_pedido as int) >= 0 && p@ == self@[
                    indice_pagamento(self@, id_pedido as int)
                ] && p@.id_pedido == id_pedido as int,
                Err(e) => e == DomainError::NotFound && indice_pagamento(self@, id_pedido as int)
                    == -1,
            },
    {
        let ghost pred = |p: PagamentoView| p.id_pedido == id_pedido as int;
        let mut i: usize = 0;
        while i < self.pagamentos.len()
            invariant
                i <= self.pagamentos.len(),
                forall|j: int| 0 <= j < i ==> !#[trigger] pred(self@[j]),
            decreases self.pagamentos.len() - i,
        {
            if self.pagamentos[i].id_pedido == id_pedido {
                proof {
                    lema_indice_aqui(self@, pred, i as int);
                }
                return Ok(self.pagamentos[i].clone());
            }
            i += 1;
        }
        proof {
            lema_indice_nenhum(self@, pred);
        }
        Err(DomainError::NotFound)
    }

    /// Stores `pagamento` for its order: the first existing record for that
    /// order is replaced, and when there is none the record is appended.
    #[verifier::loop_isolation(false)]
    pub fn guarda_pagamento(&mut self, pagamento: Pagamento)
        ensures
            ({
                let i = indice_pagamento(old(self)@, pagamento@.id_pedido);
                if i >= 0 {
                    final(self)@ == old(self)@.update(i, pagamento@)
                } else {
                    final(self)@ == old(self)@.push(pagamento@)
                }
            }),
    {
        let ghost pred = |p: PagamentoView| p.id_pedido == pagamento@.id_pedido;
        let mut i: usize = 0;
        while i < self.pagamentos.len()
            invariant
                i <= self.pagamentos.len(),
                forall|j: int| 0 <= j < i ==> !#[trigger] pred(self@[j]),
                self.pagamentos == old(self).pagamentos,
            decreases self.pagamentos.len() - i,
        {
            if self.pagamentos[i].id_pedido == pagamento.id_pedido {
                proof {
                    lema_indice_aqui(self@, pred, i as int);
                }
                self.pagamentos.set(i, pagamento);
                proof {
                    assert(self@ =~= old(self)@.update(i as int, self.pagamentos@[i as int]@));
                }
                return ;
            }
            i += 1;
        }
        proof {
            lema_indice_nenhum(self@, pred);
        }
        self.pagamentos.push(pagamento);
        proof {
            assert(self@ =~= old(self)@.push(self.pagamentos@.last()@));
        }
    }
}

} // verus!
