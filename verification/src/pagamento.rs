use vstd::prelude::*;

use crate::domain_error::DomainError;

verus! {

/// The immediate outcome a payment gateway reports for a charge request.
#[derive(Clone, Copy, Debug, PartialEq, Eq, Structural)]
pub enum StatusPagamento {
    Successo,
    Falha,
}

/// The contract the orchestrator uses to request a charge, independent of
/// which concrete processor fulfills it. Nothing is promised of the outcome:
/// callers must handle every answer.
pub trait PagamentoPort {
    /// Requests a charge of `total` for the order `pedido_id` and reports the
    /// gateway's immediate outcome.
    fn processa_pagamento(&mut self, pedido_id: usize, total: u64) -> Result<
        StatusPagamento,
        DomainError,
    >;
}

/// The mathematical value of a payment record.
#[verifier::ext_equal]
pub struct PagamentoView {
    pub id_pedido: int,
    pub estado: Seq<char>,
    pub referencia: Seq<char>,
}

/// The payment tied to an order (same identity). `estado` is the normalized
/// payment state (`pendente`, `aprovado`, ...); `referencia` is the external
/// reference assigned by the gateway or the webhook adapter.
#[derive(Debug)]
pub struct Pagamento {
    pub id_pedido: usize,
    pub estado: String,
    pub referencia: String,
}

impl View for Pagamento {
    type V = PagamentoView;

    open spec fn view(&self) -> PagamentoView {
        PagamentoView {
            id_pedido: self.id_pedido as int,
            estado: self.estado@,
            referencia: self.referencia@,
        }
    }
}

impl Clone for Pagamento {
    fn clone(&self) -> (r: Self)
        ensures
            r@ == self@,
    {
        let r = Pagamento {
            id_pedido: self.id_pedido,
            estado: self.estado.clone(),
            referencia: self.referencia.clone(),
        };
        proof {
            assert(r@ =~= self@);
        }
        r
    }
}

impl Pagamento {
    /// Builds a payment record from its fields.
    pub fn new(id_pedido: usize, estado: String, referencia: String) -> (r: Pagamento)
        ensures
            r@ == (PagamentoView {
                id_pedido: id_pedido as int,
                estado: estado@,
                referencia: referencia@,
            }),
    {
        Pagamento { id_pedido, estado, referencia }
    }

    /// The order this payment belongs to.
    pub fn id_pedido(&self) -> (r: usize)
        ensures
            r as int == self@.id_pedido,
    {
        self.id_pedido
    }

    /// The normalized payment state.
    pub fn estado(&self) -> (r: &str)
        ensures
            r@ == self@.estado,
    {
        self.estado.as_str()
    }

    /// The external payment reference.
    pub fn referencia(&self) -> (r: &str)
        ensures
            r@ == self@.referencia,
    {
        self.referencia.as_str()
    }

    /// Overwrites the normalized payment state.
    pub fn set_estado(&mut self, estado: String)
        ensures
            final(self)@ == (PagamentoView { estado: estado@, ..old(self)@ }),
    {
        self.estado = estado;
        proof {
            assert(self@ =~= (PagamentoView { estado: estado@, ..old(self)@ }));
        }
    }

    /// Overwrites the external payment reference.
    pub fn set_referencia(&mut self, referencia: String)
        ensures
            final(self)@ == (PagamentoView { referencia: referencia@, ..old(self)@ }),
    {
        self.referencia = referencia;
        proof {
            assert(self@ =~= (PagamentoView { referencia: referencia@, ..old(self)@ }));
        }
    }
}

} // verus!
