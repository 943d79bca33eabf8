use vstd::prelude::*;

use crate::domain_error::DomainError;
use crate::pagamento::StatusPagamento;

verus! {

/// The callback the simulated processor invokes when a charge is confirmed
/// out-of-band. Implementations are supplied by the embedding service.
pub trait PagamentoNotificationHandler {
    /// Delivers the confirmation `status` for the charge on order `id`.
    fn handle_payment_notification(&self, id: usize, status: StatusPagamento);
}

/// The contract of a payment processor that confirms asynchronously: the
/// call only records the charge, and the confirmation reaches the
/// notification handler later.
pub trait PagamentoProcessor {
    /// Requests processing of the charge on order `id`.
    fn process_pagamento(&self, id: usize) -> Result<(), DomainError>;
}

/// A simulated payment processor: it approves every charge, delivering the
/// confirmation to its notification handler after a short delay. The
/// delayed delivery itself is dispatched by the embedding service; the
/// processor decides what is delivered.
pub struct MockPagamentoProcessor<T: PagamentoNotificationHandler> {
    pub notification_handler: T,
}

impl<T: PagamentoNotificationHandler> MockPagamentoProcessor<T> {
    /// Builds the processor around the handler that will receive the
    /// confirmations.
    pub fn new(notification_handler: T) -> (r: Self)
        ensures
            r.notification_handler == notification_handler,
    {
        MockPagamentoProcessor { notification_handler }
    }

    /// The confirmation this processor delivers for the charge on order
    /// `id`: the simulated gateway always approves.
    pub fn confirmacao(&self, id: usize) -> (r: (usize, StatusPagamento))
        ensures
            r == (id, StatusPagamento::Successo),
    {
        (id, StatusPagamento::Successo)
    }

    /// The handler the confirmations are delivered to.
    pub fn notification_handler(&self) -> (r: &T)
        ensures
            r == &self.notification_handler,
    {
        &self.notification_handler
    }
}

} // verus!
