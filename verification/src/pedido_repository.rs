use vstd::prelude::*;

use crate::cliente::Cliente;
use crate::domain_error::DomainError;
use crate::pedido::{Pedido, PedidoView, Status};
use crate::produto::Produto;

verus! {

/// The in-memory order store. It is the durable owner of order records:
/// creation assigns the identities 1, 2, 3, ... in order, and every other
/// operation addresses a record by that identity.
pub struct PedidoRepository {
    pub pedidos: Vec<Pedido>,
}

impl View for PedidoRepository {
    type V = Seq<PedidoView>;

    open spec fn view(&self) -> Seq<PedidoView> {
        self.pedidos@.map_values(|p: Pedido| p@)
    }
}

impl PedidoRepository {
    /// The store's invariant: the record at position `i` carries identity
    /// `i + 1`, so identities are exactly `1 ..= len` and never collide.
    pub open spec fn wf(&self) -> bool {
        forall|i: int| 0 <= i < self@.len() ==> #[trigger] self@[i].id == i + 1
    }

    /// An empty store.
    pub fn new() -> (r: PedidoRepository)
        ensures
            r@ == Seq::<PedidoView>::empty(),
            r.wf(),
    {
        let r = PedidoRepository { pedidos: Vec::new() };
        proof {
            assert(r@ =~= Seq::<PedidoView>::empty());
        }
        r
    }

    /// Copies of all stored orders, in creation order.
    pub fn lista_pedidos(&self) -> (r: Vec<Pedido>)
        ensures
            r@.map_values(|p: Pedido| p@) == self@,
    {
        let mut r: Vec<Pedido> = Vec::new();
        let mut i: usize = 0;
        while i < self.pedidos.len()
            invariant
                i <= self.pedidos.len(),
                r@.len() == i,
                forall|j: int| 0 <= j < i ==> #[trigger] r@[j]@ == self@[j],
            decreases self.pedidos.len() - i,
        {
            r.push(self.pedidos[i].clone());
            i += 1;
        }
        proof {
            assert(r@.map_values(|p: Pedido| p@) =~= self@);
        }
        r
    }

    /// A copy of the order with identity `id`; `NotFound` exactly when no
    /// order carries that identity.
    pub fn get_pedido_by_id(&self, id: usize) -> (r: Result<Pedido, DomainError>)
        requires
            self.wf(),
        ensures
            match r {
                Ok(p) => 1 <= id <= self@.len() && p@ == self@[id - 1],
                Err(e) => e == DomainError::NotFound && !(1 <= id <= self@.len()),
            },
    {
        if id >= 1 && id <= self.pedidos.len() {
            Ok(self.pedidos[id - 1].clone())
        } else {
            Err(DomainError::NotFound)
        }
    }

    /// Persists a new order: the stored record is `pedido` with the next
    /// identity assigned, and that persisted record is returned.
    pub fn create_pedido(&mut self, pedido: Pedido) -> (r: Result<Pedido, DomainError>)
        requires
            old(self).wf(),
            old(self)@.len() < usize::MAX,
        ensures
            final(self).wf(),
            r matches Ok(p) && p@ == (PedidoView { id: old(self)@.len() as int + 1, ..pedido@ })
                && final(self)@ == old(self)@.push(p@),
    {
        let mut pedido = pedido;
        pedido.id = self.pedidos.len() + 1;
        let persistido = pedido.clone();
        self.pedidos.push(pedido);
        proof {
            assert(persistido@ =~= (PedidoView { id: old(self)@.len() as int + 1, ..persistido@ }));
            assert(self@ =~= old(self)@.push(persistido@));
        }
        Ok(persistido)
    }

    /// Overwrites the status of the order with identity `id` and returns the
    /// updated record; `NotFound` exactly when the identity is absent, in
    /// which case nothing changes.
    pub fn atualiza_status(&mut self, id: usize, status: Status) -> (r: Result<
        Pedido,
        DomainError,
    >)
        requires
            old(self).wf(),
        ensures
            final(self).wf(),
            match r {
                Ok(p) => {
                    &&& 1 <= id <= old(self)@.len()
                    &&& p@ == (PedidoView { status: status, ..old(self)@[id - 1] })
                    &&& final(self)@ == old(self)@.update(id - 1, p@)
                },
                Err(e) => {
                    &&& e == DomainError::NotFound
                    &&& !(1 <= id <= old(self)@.len())
                    &&& final(self)@ == old(self)@
                },
            },
    {
        if id >= 1 && id <= self.pedidos.len() {
            let idx = id - 1;
            let mut pedido = self.pedidos[idx].clone();
            pedido.set_status(status);
            let atualizado = pedido.clone();
            self.pedidos.set(idx, pedido);
            proof {
                assert(self@ =~= old(self)@.update(id - 1, atualizado@));
            }
            Ok(atualizado)
        } else {
            proof {
                assert(self@ =~= old(self)@);
            }
            Err(DomainError::NotFound)
        }
    }

    /// Stores `produto` in the snack slot of the order with identity `id`,
    /// replacing any prior snapshot, and returns the updated record;
    /// `NotFound` exactly when the identity is absent.
    pub fn cadastrar_lanche(&mut self, id: usize, produto: Produto) -> (r: Result<
        Pedido,
        DomainError,
    >)
        requires
            old(self).wf(),
        ensures
            final(self).wf(),
            match r {
                Ok(p) => {
                    &&& 1 <= id <= old(self)@.len()
                    &&& p@ == (PedidoView { lanche: Some(produto@), ..old(self)@[id - 1] })
                    &&& final(self)@ == old(self)@.update(id - 1, p@)
                },
                Err(e) => {
                    &&& e == DomainError::NotFound
                    &&& !(1 <= id <= old(self)@.len())
                    &&& final(self)@ == old(self)@
                },
            },
    {
        if id >= 1 && id <= self.pedidos.len() {
            let idx = id - 1;
            let mut pedido = self.pedidos[idx].clone();
            pedido.lanche = Some(produto);
            let atualizado = pedido.clone();
            self.pedidos.set(idx, pedido);
            proof {
                assert(atualizado@ =~= (PedidoView { lanche: atualizado@.lanche, ..old(self)@[id - 1] }));
                assert(self@ =~= old(self)@.update(id - 1, atualizado@));
            }
            Ok(atualizado)
        } else {
            proof {
                assert(self@ =~= old(self)@);
            }
            Err(DomainError::NotFound)
        }
    }

    /// Stores `produto` in the side slot of the order with identity `id`,
    /// replacing any prior snapshot, and returns the updated record;
    /// `NotFound` exactly when the identity is absent.
    pub fn cadastrar_acompanhamento(&mut self, id: usize, produto: Produto) -> (r: Result<
        Pedido,
        DomainError,
    >)
        requires
            old(self).wf(),
        ensures
            final(self).wf(),
            match r {
                Ok(p) => {
                    &&& 1 <= id <= old(self)@.len()
                    &&& p@ == (PedidoView { acompanhamento: Some(produto@), ..old(self)@[id - 1] })
                    &&& final(self)@ == old(self)@.update(id - 1, p@)
                },
                Err(e) => {
                    &&& e == DomainError::NotFound
                    &&& !(1 <= id <= old(self)@.len())
                    &&& final(self)@ == old(self)@
                },
            },
    {
        if id >= 1 && id <= self.pedidos.len() {
            let idx = id - 1;
            let mut pedido = self.pedidos[idx].clone();
            pedido.acompanhamento = Some(produto);
            let atualizado = pedido.clone();
            self.pedidos.set(idx, pedido);
            proof {
                assert(atualizado@ =~= (PedidoView {
                    acompanhamento: atualizado@.acompanhamento,
                    ..old(self)@[id - 1]
                }));
                assert(self@ =~= old(self)@.update(id - 1, atualizado@));
            }
            Ok(atualizado)
        } else {
            proof {
                assert(self@ =~= old(self)@);
            }
            Err(DomainError::NotFound)
        }
    }

    /// Stores `produto` in the drink slot of the order with identity `id`,
    /// replacing any prior snapshot, and returns the updated record;
    /// `NotFound` exactly when the identity is absent.
    pub fn cadastrar_bebida(&mut self, id: usize, produto: Produto) -> (r: Result<
        Pedido,
        DomainError,
    >)
        requires
            old(self).wf(),
        ensures
            final(self).wf(),
            match r {
                Ok(p) => {
                    &&& 1 <= id <= old(self)@.len()
                    &&& p@ == (PedidoView { bebida: Some(produto@), ..old(self)@[id - 1] })
                    &&& final(self)@ == old(self)@.update(id - 1, p@)
                },
                Err(e) => {
                    &&& e == DomainError::NotFound
                    &&& !(1 <= id <= old(self)@.len())
                    &&& final(self)@ == old(self)@
                },
            },
    {
        if id >= 1 && id <= self.pedidos.len() {
            let idx = id - 1;
            let mut pedido = self.pedidos[idx].clone();
            pedido.bebida = Some(produto);
            let atualizado = pedido.clone();
            self.pedidos.set(idx, pedido);
            proof {
                assert(atualizado@ =~= (PedidoView { bebida: atualizado@.bebida, ..old(self)@[id - 1] }));
                assert(self@ =~= old(self)@.update(id - 1, atualizado@));
            }
            Ok(atualizado)
        } else {
            proof {
                assert(self@ =~= old(self)@);
            }
            Err(DomainError::NotFound)
        }
    }

    /// Sets the customer reference of the order with identity `id` and
    /// returns the updated record; `NotFound` exactly when the identity is
    /// absent.
    pub fn cadastrar_cliente(&mut self, id: usize, cliente: Cliente) -> (r: Result<
        Pedido,
        DomainError,
    >)
        requires
            old(self).wf(),
        ensures
            final(self).wf(),
            match r {
                Ok(p) => {
                    &&& 1 <= id <= old(self)@.len()
                    &&& p@ == (PedidoView { cliente: Some(cliente@), ..old(self)@[id - 1] })
                    &&& final(self)@ == old(self)@.update(id - 1, p@)
                },
                Err(e) => {
                    &&& e == DomainError::NotFound
                    &&& !(1 <= id <= old(self)@.len())
                    &&& final(self)@ == old(self)@
                },
            },
    {
        if id >= 1 && id <= self.pedidos.len() {
            let idx = id - 1;
            let mut pedido = self.pedidos[idx].clone();
            pedido.cliente = Some(cliente);
            let atualizado = pedido.clone();
            self.pedidos.set(idx, pedido);
            proof {
                assert(atualizado@ =~= (PedidoView { cliente: atualizado@.cliente, ..old(self)@[id - 1] }));
                assert(self@ =~= old(self)@.update(id - 1, atualizado@));
            }
            Ok(atualizado)
        } else {
            proof {
                assert(self@ =~= old(self)@);
            }
            Err(DomainError::NotFound)
        }
    }

    /// Copies of the stored orders whose status is `status`, in creation
    /// order.
    pub fn lista_pedidos_by_status(&self, status: Status) -> (r: Vec<Pedido>)
        ensures
            r@.map_values(|p: Pedido| p@) == self@.filter(|p: PedidoView| p.status == status),
    {
        let mut r: Vec<Pedido> = Vec::new();
        let mut i: usize = 0;
        proof {
            reveal(Seq::filter);
            assert(r@.map_values(|p: Pedido| p@) =~= self@.take(0).filter(
                |p: PedidoView| p.status == status,
            ));
        }
        while i < self.pedidos.len()
            invariant
                i <= self.pedidos.len(),
                r@.map_values(|p: Pedido| p@) == self@.take(i as int).filter(
                    |p: PedidoView| p.status == status,
                ),
            decreases self.pedidos.len() - i,
        {
            let ghost antes = r@.map_values(|p: Pedido| p@);
            if matches_status(&self.pedidos[i], status) {
                r.push(self.pedidos[i].clone());
            }
            proof {
                reveal(Seq::filter);
                let pred = |p: PedidoView| p.status == status;
                assert(self@.take(i + 1).drop_last() =~= self@.take(i as int));
                assert(self@.take(i + 1).last() == self@[i as int]);
                assert(self@.take(i + 1).filter(pred) == if pred(self@[i as int]) {
                    antes.push(self@[i as int])
                } else {
                    antes
                });
                assert(r@.map_values(|p: Pedido| p@) =~= self@.take(i + 1).filter(pred));
            }
            i += 1;
        }
        proof {
            assert(self@.take(self.pedidos.len() as int) =~= self@);
        }
        r
    }
}

/// Whether the order's status equals `status`.
fn matches_status(pedido: &Pedido, status: Status) -> (r: bool)
    ensures
        r == (pedido@.status == status),
{
    pedido.status == status
}

} // verus!
