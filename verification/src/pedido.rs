use vstd::prelude::*;

use crate::cliente::{Cliente, ClienteView};
use crate::domain_error::DomainError;
use crate::produto::{Produto, ProdutoView};

verus! {

/// The order lifecycle states. `Pendente` is the initial state; payment
/// confirmation moves an order to `Recebido`; preparation then proceeds to
/// `EmPreparacao`, `Pronto` and `Finalizado`. `Cancelado` and `Invalido` are
/// administrative states reached only by an explicit transition request.
#[derive(Clone, Copy, Debug, PartialEq, Eq, Structural)]
pub enum Status {
    Pendente,
    Recebido,
    EmPreparacao,
    Pronto,
    Finalizado,
    Cancelado,
    Invalido,
}

/// What `Status::parse` yields for a given name.
pub open spec fn status_de_nome(s: Seq<char>) -> Option<Status> {
    if s == "Cancelado"@ {
        Some(Status::Cancelado)
    } else if s == "EmPreparacao"@ {
        Some(Status::EmPreparacao)
    } else if s == "Finalizado"@ {
        Some(Status::Finalizado)
    } else if s == "Invalido"@ {
        Some(Status::Invalido)
    } else if s == "Pendente"@ {
        Some(Status::Pendente)
    } else if s == "Pronto"@ {
        Some(Status::Pronto)
    } else if s == "Recebido"@ {
        Some(Status::Recebido)
    } else {
        None
    }
}

impl Status {
    /// Resolves a status name against the fixed set of state names; an
    /// unrecognized name fails before any mutation is attempted.
    pub fn parse(nome: &str) -> (r: Result<Status, DomainError>)
        ensures
            match status_de_nome(nome@) {
                Some(s) => r === Ok(s),
                None => r === Err(DomainError::InvalidArgument),
            },
    {
        let nome = String::from_str(nome);
        if nome == String::from_str("Cancelado") {
            Ok(Status::Cancelado)
        } else if nome == String::from_str("EmPreparacao") {
            Ok(Status::EmPreparacao)
        } else if nome == String::from_str("Finalizado") {
            Ok(Status::Finalizado)
        } else if nome == String::from_str("Invalido") {
            Ok(Status::Invalido)
        } else if nome == String::from_str("Pendente") {
            Ok(Status::Pendente)
        } else if nome == String::from_str("Pronto") {
            Ok(Status::Pronto)
        } else if nome == String::from_str("Recebido") {
            Ok(Status::Recebido)
        } else {
            Err(DomainError::InvalidArgument)
        }
    }
}

/// The mathematical value of an order.
#[verifier::ext_equal]
pub struct PedidoView {
    pub id: int,
    pub cliente: Option<ClienteView>,
    pub lanche: Option<ProdutoView>,
    pub acompanhamento: Option<ProdutoView>,
    pub bebida: Option<ProdutoView>,
    pub pagamento: Seq<char>,
    pub status: Status,
    pub data_criacao: Seq<char>,
    pub data_atualizacao: Seq<char>,
}

impl PedidoView {
    /// The order's total: the sum of the prices of the currently attached
    /// selections. An order with no selections has total zero.
    pub open spec fn total(self) -> int {
        (match self.lanche {
            Some(p) => p.preco,
            None => 0,
        }) + (match self.acompanhamento {
            Some(p) => p.preco,
            None => 0,
        }) + (match self.bebida {
            Some(p) => p.preco,
            None => 0,
        })
    }
}

/// An order: an optional customer reference, up to one catalog snapshot per
/// category, a payment reference, a lifecycle status and date-granularity
/// timestamps. The id is 0 until the store persists the order.
#[derive(Debug)]
pub struct Pedido {
    pub id: usize,
    pub cliente: Option<Cliente>,
    pub lanche: Option<Produto>,
    pub acompanhamento: Option<Produto>,
    pub bebida: Option<Produto>,
    pub pagamento: String,
    pub status: Status,
    pub data_criacao: String,
    pub data_atualizacao: String,
}

impl View for Pedido {
    type V = PedidoView;

    open spec fn view(&self) -> PedidoView {
        PedidoView {
            id: self.id as int,
            cliente: match self.cliente {
                Some(c) => Some(c@),
                None => None,
            },
            lanche: match self.lanche {
                Some(p) => Some(p@),
                None => None,
            },
            acompanhamento: match self.acompanhamento {
                Some(p) => Some(p@),
                None => None,
            },
            bebida: match self.bebida {
                Some(p) => Some(p@),
                None => None,
            },
            pagamento: self.pagamento@,
            status: self.status,
            data_criacao: self.data_criacao@,
            data_atualizacao: self.data_atualizacao@,
        }
    }
}

impl Clone for Pedido {
    fn clone(&self) -> (r: Self)
        ensures
            r@ == self@,
    {
        let r = Pedido {
            id: self.id,
            cliente: match &self.cliente {
                Some(c) => Some(c.clone()),
                None => None,
            },
            lanche: match &self.lanche {
                Some(p) => Some(p.clone()),
                None => None,
            },
            acompanhamento: match &self.acompanhamento {
                Some(p) => Some(p.clone()),
                None => None,
            },
            bebida: match &self.bebida {
                Some(p) => Some(p.clone()),
                None => None,
            },
            pagamento: self.pagamento.clone(),
            status: self.status,
            data_criacao: self.data_criacao.clone(),
            data_atualizacao: self.data_atualizacao.clone(),
        };
        proof {
            assert(r@ =~= self@);
        }
        r
    }
}

impl Pedido {
    /// Builds an order from its fields.
    #[allow(clippy::too_many_arguments)]
    pub fn new(
        id: usize,
        cliente: Option<Cliente>,
        lanche: Option<Produto>,
        acompanhamento: Option<Produto>,
        bebida: Option<Produto>,
        pagamento: String,
        status: Status,
        data_criacao: String,
        data_atualizacao: String,
    ) -> (r: Pedido)
        ensures
            r@ == (PedidoView {
                id: id as int,
                cliente: match cliente {
                    Some(c) => Some(c@),
                    None => None,
                },
                lanche: match lanche {
                    Some(p) => Some(p@),
                    None => None,
                },
                acompanhamento: match acompanhamento {
                    Some(p) => Some(p@),
                    None => None,
                },
                bebida: match bebida {
                    Some(p) => Some(p@),
                    None => None,
                },
                pagamento: pagamento@,
                status: status,
                data_criacao: data_criacao@,
                data_atualizacao: data_atualizacao@,
            }),
    {
        Pedido {
            id,
            cliente,
            lanche,
            acompanhamento,
            bebida,
            pagamento,
            status,
            data_criacao,
            data_atualizacao,
        }
    }

    /// The order's identity; 0 means the order was not persisted yet.
    pub fn id(&self) -> (r: usize)
        ensures
            r as int == self@.id,
    {
        self.id
    }

    /// The order's lifecycle status.
    pub fn status(&self) -> (r: Status)
        ensures
            r == self@.status,
    {
        self.status
    }

    /// The payment reference assigned by the gateway, empty until payment is
    /// initiated.
    pub fn pagamento(&self) -> (r: &str)
        ensures
            r@ == self@.pagamento,
    {
        self.pagamento.as_str()
    }

    /// Overwrites the lifecycle status.
    pub fn set_status(&mut self, status: Status)
        ensures
            final(self)@ == (PedidoView { status: status, ..old(self)@ }),
    {
        self.status = status;
        proof {
            assert(self@ =~= (PedidoView { status: status, ..old(self)@ }));
        }
    }

    /// The order's total, the sum of the attached selections' prices.
    pub fn get_total_valor_pedido(&self) -> (r: u64)
        ensures
            r as int == self@.total(),
    {
        let lanche: u64 = match &self.lanche {
            Some(p) => p.preco as u64,
            None => 0,
        };
        let acompanhamento: u64 = match &self.acompanhamento {
            Some(p) => p.preco as u64,
            None => 0,
        };
        let bebida: u64 = match &self.bebida {
            Some(p) => p.preco as u64,
            None => 0,
        };
        lanche + acompanhamento + bebida
    }
}

} // verus!
