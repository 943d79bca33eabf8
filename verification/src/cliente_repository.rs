use vstd::prelude::*;

use crate::busca::{indice_primeiro, lema_indice_aqui, lema_indice_nenhum};
use crate::cliente::{Cliente, ClienteView};
use crate::domain_error::DomainError;

verus! {

/// The index in `s` of the first customer record with identity `id`, or -1.
pub open spec fn indice_cliente(s: Seq<ClienteView>, id: int) -> int {
    indice_primeiro(s, |c: ClienteView| c.id == id)
}

/// The in-memory customer store: lookups resolve an identity to the first
/// record carrying it.
pub struct ClienteRepository {
    pub clientes: Vec<Cliente>,
}

impl View for ClienteRepository {
    type V = Seq<ClienteView>;

    open spec fn view(&self) -> Seq<ClienteView> {
        self.clientes@.map_values(|c: Cliente| c@)
    }
}

impl ClienteRepository {
    /// An empty store.
    pub fn new() -> (r: ClienteRepository)
        ensures
            r@ == Seq::<ClienteView>::empty(),
    {
        let r = ClienteRepository { clientes: Vec::new() };
        proof {
            assert(r@ =~= Seq::<ClienteView>::empty());
        }
        r
    }

    /// Appends a customer record as given.
    pub fn adiciona_cliente(&mut self, cliente: Cliente)
        ensures
            final(self)@ == old(self)@.push(cliente@),
    {
        self.clientes.push(cliente);
        proof {
            assert(self@ =~= old(self)@.push(self.clientes@.last()@));
        }
    }

    /// A copy of the first customer record with identity `id`; `NotFound`
    /// exactly when no record carries that identity.
    #[verifier::loop_isolation(false)]
    pub fn get_cliente_by_id(&self, id: usize) -> (r: Result<Cliente, DomainError>)
        ensures
            match r {
                Ok(c) => indice_cliente(self@, id as int) >= 0 && c@ == self@[indice_cliente(
                    self@,
                    id as int,
                )] && c@.id == id as int,
                Err(e) => e == DomainError::NotFound && indice_cliente(self@, id as int) == -1,
            },
    {
        let ghost pred = |c: ClienteView| c.id == id as int;
        let mut i: usize = 0;
        while i < self.clientes.len()
            invariant
                i <= self.clientes.len(),
                forall|j: int| 0 <= j < i ==> !#[trigger] pred(self@[j]),
            decreases self.clientes.len() - i,
        {
            if self.clientes[i].id == id {
                proof {
                    lema_indice_aqui(self@, pred, i as int);
                }
                return Ok(self.clientes[i].clone());
            }
            i += 1;
        }
        proof {
            lema_indice_nenhum(self@, pred);
        }
        Err(DomainError::NotFound)
    }
}

} // verus!
