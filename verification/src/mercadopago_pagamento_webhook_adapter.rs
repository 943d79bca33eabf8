use vstd::prelude::*;

use crate::domain_error::DomainError;
use crate::pagamento::{Pagamento, PagamentoView};
use crate::texto::{digitos, usize_texto};

verus! {

/// `serde_json::Value` carries inbound webhook payloads; it is opaque here,
/// and the two fields the core reads are pulled out by `extrai_sinal`.
#[verifier::external_type_specification]
#[verifier::external_body]
pub struct ExValue(serde_json::Value);

/// The mathematical value of a webhook signal.
#[verifier::ext_equal]
pub struct SinalWebhookView {
    pub acao: Option<Seq<char>>,
    pub id: Option<Seq<char>>,
}

/// The two fields of an inbound payment notification that the core reads:
/// an optional action marker and an optional external payment id. A payload
/// of any other shape yields both fields absent.
pub struct SinalWebhook {
    pub acao: Option<String>,
    pub id: Option<String>,
}

impl View for SinalWebhook {
    type V = SinalWebhookView;

    open spec fn view(&self) -> SinalWebhookView {
        SinalWebhookView {
            acao: match self.acao {
                Some(a) => Some(a@),
                None => None,
            },
            id: match self.id {
                Some(i) => Some(i@),
                None => None,
            },
        }
    }
}

/// Relies on `serde_json::Value::as_object`, `serde_json::Map::get` and
/// `serde_json::Value::as_str` to pull the `action` and `id` string fields
/// out of a notification payload; a field that is absent or not a string
/// comes back as `None`. The payload is opaque, so nothing is promised of
/// the result.
#[verifier::external_body]
fn extrai_sinal(data: &serde_json::Value) -> (r: SinalWebhook) {
    let objeto = data.as_object();
    let acao = objeto
        .and_then(|o| o.get("action"))
        .and_then(|v| v.as_str())
        .map(|s| s.to_string());
    let id = objeto
        .and_then(|o| o.get("id"))
        .and_then(|v| v.as_str())
        .map(|s| s.to_string());
    SinalWebhook { acao, id }
}

/// How a webhook signal changes a payment: the success action marks the
/// payment approved, a present id overwrites the external reference, and an
/// empty signal changes nothing.
pub open spec fn aplica_sinal_spec(sinal: SinalWebhookView, pagamento: PagamentoView) -> PagamentoView {
    let com_estado = if sinal.acao == Some("payment.approved"@) {
        PagamentoView { estado: "aprovado"@, ..pagamento }
    } else {
        pagamento
    };
    match sinal.id {
        Some(i) => PagamentoView { referencia: i, ..com_estado },
        None => com_estado,
    }
}

/// Applies a webhook signal to a payment, exactly as `aplica_sinal_spec`
/// describes it. Ingestion never fails: an unrecognized signal degrades to
/// a no-op update.
pub fn aplica_sinal(sinal: &SinalWebhook, pagamento: Pagamento) -> (r: Pagamento)
    ensures
        r@ == aplica_sinal_spec(sinal@, pagamento@),
{
    let mut pagamento = pagamento;
    let ghost antes = pagamento@;
    if let Some(acao) = &sinal.acao {
        if *acao == String::from_str("payment.approved") {
            pagamento.set_estado(String::from_str("aprovado"));
        }
    }
    if let Some(id) = &sinal.id {
        pagamento.set_referencia(id.clone());
    }
    proof {
        assert(pagamento@ =~= aplica_sinal_spec(sinal@, antes));
    }
    pagamento
}

/// The adapter for the remote payment processor: it interprets inbound
/// notification payloads and prepares the data for callback registration.
pub struct MercadoPagoPagamentoWebhookAdapter {}

impl Clone for MercadoPagoPagamentoWebhookAdapter {
    fn clone(&self) -> (r: Self)
        ensures
            r == *self,
    {
        MercadoPagoPagamentoWebhookAdapter {  }
    }
}

impl MercadoPagoPagamentoWebhookAdapter {
    /// The adapter holds no state.
    pub fn new() -> MercadoPagoPagamentoWebhookAdapter {
        MercadoPagoPagamentoWebhookAdapter {  }
    }

    /// Interprets an inbound notification payload defensively and applies it
    /// to `pagamento`. Whatever the payload holds, the result is the payment
    /// with some signal applied: the state is marked approved only by the
    /// success action, and only a present id overwrites the reference.
    pub fn processa_webhook(&self, data: serde_json::Value, pagamento: Pagamento) -> (r: Pagamento)
        ensures
            exists|s: SinalWebhookView| r@ == aplica_sinal_spec(s, pagamento@),
    {
        let sinal = extrai_sinal(&data);
        let r = aplica_sinal(&sinal, pagamento);
        proof {
            assert(r@ == aplica_sinal_spec(sinal@, pagamento@));
        }
        r
    }
}

/// The callback URL this service registers at the remote processor for the
/// order `pedido_id`: `https://<host>/<order id>/pagamento`.
pub fn monta_webhook_url(api_host: &str, pedido_id: usize) -> (r: String)
    ensures
        r@ == "https://"@ + api_host@ + "/"@ + digitos(pedido_id as int) + "/pagamento"@,
{
    let mut url = String::from_str("https://");
    url.append(api_host);
    url.append("/");
    let numero = usize_texto(pedido_id);
    url.append(numero.as_str());
    url.append("/pagamento");
    url
}

/// What a registration reply yields: a success status carrying a payment
/// code stores that code as the payment's external reference, and any other
/// reply fails with `PaymentAdapterError`, leaving no transport detail to
/// the caller.
pub fn aplica_resposta_registro(
    sucesso: bool,
    payment_code: Option<String>,
    pagamento: Pagamento,
) -> (r: Result<Pagamento, DomainError>)
    ensures
        match r {
            Ok(p) => sucesso && (payment_code matches Some(c) && p@ == (PagamentoView {
                referencia: c@,
                ..pagamento@
            })),
            Err(e) => e == DomainError::PaymentAdapterError && !(sucesso
                && payment_code is Some),
        },
{
    if !sucesso {
        return Err(DomainError::PaymentAdapterError);
    }
    match payment_code {
        Some(codigo) => {
            let mut pagamento = pagamento;
            pagamento.set_referencia(codigo);
            Ok(pagamento)
        },
        None => Err(DomainError::PaymentAdapterError),
    }
}

} // verus!
