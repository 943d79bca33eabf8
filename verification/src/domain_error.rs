use vstd::prelude::*;

verus! {

/// The failures the order and payment operations can report.
///
/// Callers can tell a missing entity (`NotFound`) apart from a rejected
/// charge (`PaymentRejected`), a malformed request (`InvalidArgument`),
/// a registration failure at the payment processor (`PaymentAdapterError`)
/// and any other domain violation (`Invalid`).
#[derive(Clone, Copy, Debug, PartialEq, Eq, Structural)]
pub enum DomainError {
    NotFound,
    InvalidArgument,
    PaymentRejected,
    PaymentAdapterError,
    Invalid,
}

impl DomainError {
    /// A short human-readable description of the failure.
    pub fn descricao(&self) -> (r: &'static str)
        ensures
            *self is NotFound ==> r@ == "entidade nao encontrada"@,
            *self is InvalidArgument ==> r@ == "argumento invalido"@,
            *self is PaymentRejected ==> r@ == "pagamento recusado"@,
            *self is PaymentAdapterError ==> r@ == "falha no adaptador de pagamento"@,
            *self is Invalid ==> r@ == "operacao invalida"@,
    {
        match self {
            DomainError::NotFound => "entidade nao encontrada",
            DomainError::InvalidArgument => "argumento invalido",
            DomainError::PaymentRejected => "pagamento recusado",
            DomainError::PaymentAdapterError => "falha no adaptador de pagamento",
            DomainError::Invalid => "operacao invalida",
        }
    }
}

} // verus!
