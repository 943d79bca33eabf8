use vstd::prelude::*;

use crate::cliente::ClienteView;
use crate::cliente_repository::{indice_cliente, ClienteRepository};
use crate::domain_error::DomainError;
use crate::mercadopago_pagamento_webhook_adapter::{
    aplica_sinal_spec, MercadoPagoPagamentoWebhookAdapter, SinalWebhookView,
};
use crate::pagamento::{Pagamento, PagamentoPort, PagamentoView, StatusPagamento};
use crate::pagamento_repository::{indice_pagamento, PagamentoRepository};
use crate::pedido::{Pedido, PedidoView, Status};
use crate::pedido_repository::PedidoRepository;
use crate::produto::{Categoria, Produto, ProdutoView};
use crate::produto_repository::{indice_produto, ProdutoRepository};
use crate::relogio::data_de_hoje;

verus! {

/// Input for creating an order: an optional customer identity. When it is
/// present the customer must resolve; when it is absent the order starts
/// without a customer.
pub struct CreatePedidoInput {
    pub cliente_id: Option<usize>,
}

/// A full replacement set of order fields, as carried by update requests.
pub struct AtualizaPedidoInput {
    pub lanche: i32,
    pub acompanhamento: i32,
    pub bebida: i32,
    pub pagamento: String,
    pub status: Status,
    pub data_criacao: String,
    pub data_atualizacao: String,
}

/// The orchestrator of the order lifecycle and of both payment flows. It is
/// the sole writer of order status and payment state: it owns the stores and
/// the gateway port, and every multi-step operation holds the orchestrator
/// exclusively for its whole duration, so no operation is torn by a
/// concurrent caller.
pub struct PedidosEPagamentosUseCase<G: PagamentoPort> {
    pub pedido_repository: PedidoRepository,
    pub cliente_repository: ClienteRepository,
    pub produto_repository: ProdutoRepository,
    pub pagamento_repository: PagamentoRepository,
    pub pagamento_adapter: G,
}

impl<G: PagamentoPort> PedidosEPagamentosUseCase<G> {
    /// The orchestrator is well-formed when its order store is.
    pub open spec fn wf(&self) -> bool {
        self.pedido_repository.wf()
    }

    /// Builds the orchestrator over the injected stores and gateway port.
    pub fn new(
        pedido_repository: PedidoRepository,
        cliente_repository: ClienteRepository,
        produto_repository: ProdutoRepository,
        pagamento_repository: PagamentoRepository,
        pagamento_adapter: G,
    ) -> (r: Self)
        ensures
            r.pedido_repository == pedido_repository,
            r.cliente_repository == cliente_repository,
            r.produto_repository == produto_repository,
            r.pagamento_repository == pagamento_repository,
            r.pagamento_adapter == pagamento_adapter,
    {
        PedidosEPagamentosUseCase {
            pedido_repository,
            cliente_repository,
            produto_repository,
            pagamento_repository,
            pagamento_adapter,
        }
    }

    /// All stored orders, in creation order.
    pub fn lista_pedidos(&self) -> (r: Result<Vec<Pedido>, DomainError>)
        ensures
            r matches Ok(v) && v@.map_values(|p: Pedido| p@) == self.pedido_repository@,
    {
        Ok(self.pedido_repository.lista_pedidos())
    }

    /// The order with identity `id`; `NotFound` exactly when it is absent.
    pub fn seleciona_pedido_por_id(&self, id: usize) -> (r: Result<Pedido, DomainError>)
        requires
            self.wf(),
        ensures
            match r {
                Ok(p) => 1 <= id <= self.pedido_repository@.len() && p@ == self.pedido_repository@[
                    id - 1
                ],
                Err(e) => e == DomainError::NotFound && !(1 <= id
                    <= self.pedido_repository@.len()),
            },
    {
        self.pedido_repository.get_pedido_by_id(id)
    }

    /// Creates an order. With no customer identity the order starts with no
    /// customer; with one, the customer must resolve or the operation fails
    /// with `NotFound` before anything is persisted. A new order has no
    /// selections, total zero, an empty payment reference, status `Pendente`
    /// and equal creation and update dates; the record persisted by the
    /// store, with its assigned identity, is what is returned.
    pub fn novo_pedido(&mut self, pedido_input: CreatePedidoInput) -> (r: Result<
        Pedido,
        DomainError,
    >)
        requires
            old(self).wf(),
            old(self).pedido_repository@.len() < usize::MAX,
        ensures
            final(self).wf(),
            final(self).cliente_repository == old(self).cliente_repository,
            final(self).produto_repository == old(self).produto_repository,
            final(self).pagamento_repository == old(self).pagamento_repository,
            final(self).pagamento_adapter == old(self).pagamento_adapter,
            match r {
                Ok(p) => {
                    &&& p@.id == old(self).pedido_repository@.len() as int + 1
                    &&& p@.cliente == (match pedido_input.cliente_id {
                        Some(cid) => Some(
                            old(self).cliente_repository@[indice_cliente(
                                old(self).cliente_repository@,
                                cid as int,
                            )],
                        ),
                        None => None::<ClienteView>,
                    })
                    &&& (pedido_input.cliente_id matches Some(cid) ==> indice_cliente(
                        old(self).cliente_repository@,
                        cid as int,
                    ) >= 0)
                    &&& p@.lanche is None
                    &&& p@.acompanhamento is None
                    &&& p@.bebida is None
                    &&& p@.total() == 0
                    &&& p@.pagamento == Seq::<char>::empty()
                    &&& p@.status == Status::Pendente
                    &&& p@.data_criacao == p@.data_atualizacao
                    &&& final(self).pedido_repository@ == old(self).pedido_repository@.push(p@)
                },
                Err(e) => {
                    &&& e == DomainError::NotFound
                    &&& (pedido_input.cliente_id matches Some(cid) && indice_cliente(
                        old(self).cliente_repository@,
                        cid as int,
                    ) == -1)
                    &&& final(self).pedido_repository == old(self).pedido_repository
                },
            },
    {
        let cliente = match pedido_input.cliente_id {
            Some(id) => Some(self.cliente_repository.get_cliente_by_id(id)?),
            None => None,
        };

        let data = data_de_hoje();
        let pedido = Pedido::new(
            0,
            cliente,
            None,
            None,
            None,
            String::new(),
            Status::Pendente,
            data.clone(),
            data,
        );

        let pedido = self.pedido_repository.create_pedido(pedido)?;

        Ok(pedido)
    }

    /// The catalog items of the snack category, in insertion order.
    pub fn lista_lanches(&self) -> (r: Result<Vec<Produto>, DomainError>)
        ensures
            r matches Ok(v) && v@.map_values(|p: Produto| p@) == self.produto_repository@.filter(
                |p: ProdutoView| p.categoria == Categoria::Lanche,
            ),
    {
        Ok(self.produto_repository.get_produtos_by_categoria(Categoria::Lanche))
    }

    /// Attaches the snack `lanche_id` to the order `pedido_id`, replacing any
    /// prior snack. The item must resolve (`NotFound`), must be of the snack
    /// category (`InvalidArgument`) and the order must exist (`NotFound`);
    /// failures persist nothing.
    pub fn adicionar_lanche_com_personalizacao(&mut self, pedido_id: usize, lanche_id: usize) -> (r:
        Result<Pedido, DomainError>)
        requires
            old(self).wf(),
        ensures
            final(self).wf(),
            final(self).cliente_repository == old(self).cliente_repository,
            final(self).produto_repository == old(self).produto_repository,
            final(self).pagamento_repository == old(self).pagamento_repository,
            final(self).pagamento_adapter == old(self).pagamento_adapter,
            ({
                let ip = indice_produto(old(self).produto_repository@, lanche_id as int);
                match r {
                    Ok(p) => {
                        &&& ip >= 0
                        &&& old(self).produto_repository@[ip].categoria == Categoria::Lanche
                        &&& 1 <= pedido_id <= old(self).pedido_repository@.len()
                        &&& p@ == (PedidoView {
                            lanche: Some(old(self).produto_repository@[ip]),
                            ..old(self).pedido_repository@[pedido_id - 1]
                        })
                        &&& final(self).pedido_repository@ == old(self).pedido_repository@.update(
                            pedido_id - 1,
                            p@,
                        )
                    },
                    Err(e) => {
                        &&& final(self).pedido_repository@ == old(self).pedido_repository@
                        &&& (if ip == -1 {
                            e == DomainError::NotFound
                        } else if old(self).produto_repository@[ip].categoria
                            != Categoria::Lanche {
                            e == DomainError::InvalidArgument
                        } else {
                            e == DomainError::NotFound && !(1 <= pedido_id <= old(self).pedido_repository@.len())
                        })
                    },
                }
            }),
    {
        let lanche = self.produto_repository.get_produto_by_id(lanche_id)?;
        match lanche.categoria {
            Categoria::Lanche => {},
            _ => {
                return Err(DomainError::InvalidArgument);
            },
        }
        self.pedido_repository.cadastrar_lanche(pedido_id, lanche)
    }

    /// The catalog items of the side category, in insertion order.
    pub fn lista_acompanhamentos(&self) -> (r: Result<Vec<Produto>, DomainError>)
        ensures
            r matches Ok(v) && v@.map_values(|p: Produto| p@) == self.produto_repository@.filter(
                |p: ProdutoView| p.categoria == Categoria::Acompanhamento,
            ),
    {
        Ok(self.produto_repository.get_produtos_by_categoria(Categoria::Acompanhamento))
    }

    /// Attaches the side `acompanhamento_id` to the order `pedido_id`,
    /// replacing any prior side, under the same rules as the snack
    /// operation.
    pub fn adicionar_acompanhamento(&mut self, pedido_id: usize, acompanhamento_id: usize) -> (r:
        Result<Pedido, DomainError>)
        requires
            old(self).wf(),
        ensures
            final(self).wf(),
            final(self).cliente_repository == old(self).cliente_repository,
            final(self).produto_repository == old(self).produto_repository,
            final(self).pagamento_repository == old(self).pagamento_repository,
            final(self).pagamento_adapter == old(self).pagamento_adapter,
            ({
                let ip = indice_produto(old(self).produto_repository@, acompanhamento_id as int);
                match r {
                    Ok(p) => {
                        &&& ip >= 0
                        &&& old(self).produto_repository@[ip].categoria
                            == Categoria::Acompanhamento
                        &&& 1 <= pedido_id <= old(self).pedido_repository@.len()
                        &&& p@ == (PedidoView {
                            acompanhamento: Some(old(self).produto_repository@[ip]),
                            ..old(self).pedido_repository@[pedido_id - 1]
                        })
                        &&& final(self).pedido_repository@ == old(self).pedido_repository@.update(
                            pedido_id - 1,
                            p@,
                        )
                    },
                    Err(e) => {
                        &&& final(self).pedido_repository@ == old(self).pedido_repository@
                        &&& (if ip == -1 {
                            e == DomainError::NotFound
                        } else if old(self).produto_repository@[ip].categoria
                            != Categoria::Acompanhamento {
                            e == DomainError::InvalidArgument
                        } else {
                            e == DomainError::NotFound && !(1 <= pedido_id <= old(self).pedido_repository@.len())
                        })
                    },
                }
            }),
    {
        let acompanhamento = self.produto_repository.get_produto_by_id(acompanhamento_id)?;
        match acompanhamento.categoria {
            Categoria::Acompanhamento => {},
            _ => {
                return Err(DomainError::InvalidArgument);
            },
        }
        self.pedido_repository.cadastrar_acompanhamento(pedido_id, acompanhamento)
    }

    /// The catalog items of the drink category, in insertion order.
    pub fn lista_bebidas(&self) -> (r: Result<Vec<Produto>, DomainError>)
        ensures
            r matches Ok(v) && v@.map_values(|p: Produto| p@) == self.produto_repository@.filter(
                |p: ProdutoView| p.categoria == Categoria::Bebida,
            ),
    {
        Ok(self.produto_repository.get_produtos_by_categoria(Categoria::Bebida))
    }

    /// Attaches the drink `bebida_id` to the order `pedido_id`, replacing any
    /// prior drink, under the same rules as the snack operation.
    pub fn adicionar_bebida(&mut self, pedido_id: usize, bebida_id: usize) -> (r: Result<
        Pedido,
        DomainError,
    >)
        requires
            old(self).wf(),
        ensures
            final(self).wf(),
            final(self).cliente_repository == old(self).cliente_repository,
            final(self).produto_repository == old(self).produto_repository,
            final(self).pagamento_repository == old(self).pagamento_repository,
            final(self).pagamento_adapter == old(self).pagamento_adapter,
            ({
                let ip = indice_produto(old(self).produto_repository@, bebida_id as int);
                match r {
                    Ok(p) => {
                        &&& ip >= 0
                        &&& old(self).produto_repository@[ip].categoria == Categoria::Bebida
                        &&& 1 <= pedido_id <= old(self).pedido_repository@.len()
                        &&& p@ == (PedidoView {
                            bebida: Some(old(self).produto_repository@[ip]),
                            ..old(self).pedido_repository@[pedido_id - 1]
                        })
                        &&& final(self).pedido_repository@ == old(self).pedido_repository@.update(
                            pedido_id - 1,
                            p@,
                        )
                    },
                    Err(e) => {
                        &&& final(self).pedido_repository@ == old(self).pedido_repository@
                        &&& (if ip == -1 {
                            e == DomainError::NotFound
                        } else if old(self).produto_repository@[ip].categoria
                            != Categoria::Bebida {
                            e == DomainError::InvalidArgument
                        } else {
                            e == DomainError::NotFound && !(1 <= pedido_id <= old(self).pedido_repository@.len())
                        })
                    },
                }
            }),
    {
        let bebida = self.produto_repository.get_produto_by_id(bebida_id)?;
        match bebida.categoria {
            Categoria::Bebida => {},
            _ => {
                return Err(DomainError::InvalidArgument);
            },
        }
        self.pedido_repository.cadastrar_bebida(pedido_id, bebida)
    }

    /// Attaches the customer `cliente_id` to the order `pedido_id` by copy.
    /// The customer must resolve and the order must exist, both `NotFound`
    /// otherwise; failures persist nothing.
    pub fn adicionar_cliente(&mut self, pedido_id: usize, cliente_id: usize) -> (r: Result<
        Pedido,
        DomainError,
    >)
        requires
            old(self).wf(),
        ensures
            final(self).wf(),
            final(self).cliente_repository == old(self).cliente_repository,
            final(self).produto_repository == old(self).produto_repository,
            final(self).pagamento_repository == old(self).pagamento_repository,
            final(self).pagamento_adapter == old(self).pagamento_adapter,
            ({
                let ic = indice_cliente(old(self).cliente_repository@, cliente_id as int);
                match r {
                    Ok(p) => {
                        &&& ic >= 0
                        &&& 1 <= pedido_id <= old(self).pedido_repository@.len()
                        &&& p@ == (PedidoView {
                            cliente: Some(old(self).cliente_repository@[ic]),
                            ..old(self).pedido_repository@[pedido_id - 1]
                        })
                        &&& final(self).pedido_repository@ == old(self).pedido_repository@.update(
                            pedido_id - 1,
                            p@,
                        )
                    },
                    Err(e) => {
                        &&& final(self).pedido_repository@ == old(self).pedido_repository@
                        &&& e == DomainError::NotFound
                        &&& (ic == -1 || !(1 <= pedido_id <= old(self).pedido_repository@.len()))
                    },
                }
            }),
    {
        let cliente = self.cliente_repository.get_cliente_by_id(cliente_id)?;
        self.pedido_repository.cadastrar_cliente(pedido_id, cliente)
    }

    /// Applies the gateway's outcome for the order `pedido_id`. On
    /// `Successo` the order's status becomes `Recebido`, the payment record
    /// is marked approved (created if the order had none), and the order as
    /// it stood before the update is returned. On `Falha` the operation
    /// fails with `PaymentRejected` and nothing changes. An absent order
    /// fails with `NotFound`.
    pub fn conclui_pagamento(&mut self, pedido_id: usize, resultado: StatusPagamento) -> (r: Result<
        Pedido,
        DomainError,
    >)
        requires
            old(self).wf(),
        ensures
            final(self).wf(),
            final(self).cliente_repository == old(self).cliente_repository,
            final(self).produto_repository == old(self).produto_repository,
            final(self).pagamento_adapter == old(self).pagamento_adapter,
            ({
                let dentro = 1 <= pedido_id <= old(self).pedido_repository@.len();
                let ip = indice_pagamento(old(self).pagamento_repository@, pedido_id as int);
                match r {
                    Ok(p) => {
                        &&& dentro
                        &&& resultado == StatusPagamento::Successo
                        &&& p@ == old(self).pedido_repository@[pedido_id - 1]
                        &&& final(self).pedido_repository@ == old(self).pedido_repository@.update(
                            pedido_id - 1,
                            PedidoView {
                                status: Status::Recebido,
                                ..old(self).pedido_repository@[pedido_id - 1]
                            },
                        )
                        &&& final(self).pagamento_repository@ == (if ip >= 0 {
                            old(self).pagamento_repository@.update(
                                ip,
                                PagamentoView {
                                    estado: "aprovado"@,
                                    ..old(self).pagamento_repository@[ip]
                                },
                            )
                        } else {
                            old(self).pagamento_repository@.push(
                                PagamentoView {
                                    id_pedido: pedido_id as int,
                                    estado: "aprovado"@,
                                    referencia: Seq::<char>::empty(),
                                },
                            )
                        })
                    },
                    Err(e) => {
                        &&& final(self).pedido_repository@ == old(self).pedido_repository@
                        &&& final(self).pagamento_repository@ == old(self).pagamento_repository@
                        &&& (if !dentro {
                            e == DomainError::NotFound
                        } else {
                            e == DomainError::PaymentRejected && resultado
                                == StatusPagamento::Falha
                        })
                    },
                }
            }),
    {
        let pedido = self.pedido_repository.get_pedido_by_id(pedido_id)?;
        match resultado {
            StatusPagamento::Successo => {
                let pagamento = match self.pagamento_repository.get_pagamento_by_id_pedido(
                    pedido_id,
                ) {
                    Ok(registro) => {
                        let mut registro = registro;
                        registro.set_estado(String::from_str("aprovado"));
                        registro
                    },
                    Err(_) => Pagamento::new(
                        pedido_id,
                        String::from_str("aprovado"),
                        String::new(),
                    ),
                };
                self.pagamento_repository.guarda_pagamento(pagamento);
                let _ = self.pedido_repository.atualiza_status(pedido_id, Status::Recebido)?;
                Ok(pedido)
            },
            StatusPagamento::Falha => Err(DomainError::PaymentRejected),
        }
    }

    /// The synchronous payment path: fetches the order (`NotFound` when it
    /// is absent), charges its current total through the gateway port, and
    /// applies the outcome. On success the stored status becomes `Recebido`
    /// exactly once and the pre-update order is returned; on any non-success
    /// outcome the operation fails with `PaymentRejected` and the stores are
    /// unchanged. Which of the two happens is the gateway's decision alone.
    pub fn realizar_pagamento_do_pedido(&mut self, pedido_id: usize) -> (r: Result<
        Pedido,
        DomainError,
    >)
        requires
            old(self).wf(),
        ensures
            final(self).wf(),
            final(self).cliente_repository == old(self).cliente_repository,
            final(self).produto_repository == old(self).produto_repository,
            ({
                let dentro = 1 <= pedido_id <= old(self).pedido_repository@.len();
                let ip = indice_pagamento(old(self).pagamento_repository@, pedido_id as int);
                match r {
                    Ok(p) => {
                        &&& dentro
                        &&& p@ == old(self).pedido_repository@[pedido_id - 1]
                        &&& final(self).pedido_repository@ == old(self).pedido_repository@.update(
                            pedido_id - 1,
                            PedidoView {
                                status: Status::Recebido,
                                ..old(self).pedido_repository@[pedido_id - 1]
                            },
                        )
                        &&& final(self).pagamento_repository@ == (if ip >= 0 {
                            old(self).pagamento_repository@.update(
                                ip,
                                PagamentoView {
                                    estado: "aprovado"@,
                                    ..old(self).pagamento_repository@[ip]
                                },
                            )
                        } else {
                            old(self).pagamento_repository@.push(
                                PagamentoView {
                                    id_pedido: pedido_id as int,
                                    estado: "aprovado"@,
                                    referencia: Seq::<char>::empty(),
                                },
                            )
                        })
                    },
                    Err(e) => {
                        &&& final(self).pedido_repository@ == old(self).pedido_repository@
                        &&& final(self).pagamento_repository@ == old(self).pagamento_repository@
                        &&& (if !dentro {
                            e == DomainError::NotFound
                        } else {
                            e == DomainError::PaymentRejected
                        })
                    },
                }
            }),
    {
        let pedido = self.pedido_repository.get_pedido_by_id(pedido_id)?;

        let total_pedido = pedido.get_total_valor_pedido();

        let resultado = match self.pagamento_adapter.processa_pagamento(pedido_id, total_pedido) {
            Ok(status_pagamento) => status_pagamento,
            Err(_) => StatusPagamento::Falha,
        };

        self.conclui_pagamento(pedido_id, resultado)
    }

    /// Overwrites the status of the order `pedido_id` with an already
    /// validated target state; `NotFound` exactly when the order is absent.
    pub fn atualiza_status(&mut self, pedido_id: usize, status: Status) -> (r: Result<
        Pedido,
        DomainError,
    >)
        requires
            old(self).wf(),
        ensures
            final(self).wf(),
            final(self).cliente_repository == old(self).cliente_repository,
            final(self).produto_repository == old(self).produto_repository,
            final(self).pagamento_repository == old(self).pagamento_repository,
            final(self).pagamento_adapter == old(self).pagamento_adapter,
            match r {
                Ok(p) => {
                    &&& 1 <= pedido_id <= old(self).pedido_repository@.len()
                    &&& p@ == (PedidoView {
                        status: status,
                        ..old(self).pedido_repository@[pedido_id - 1]
                    })
                    &&& final(self).pedido_repository@ == old(self).pedido_repository@.update(
                        pedido_id - 1,
                        p@,
                    )
                },
                Err(e) => {
                    &&& e == DomainError::NotFound
                    &&& !(1 <= pedido_id <= old(self).pedido_repository@.len())
                    &&& final(self).pedido_repository@ == old(self).pedido_repository@
                },
            },
    {
        self.pedido_repository.atualiza_status(pedido_id, status)
    }

    /// The stored orders whose payment was confirmed (status `Recebido`),
    /// in creation order: the queue handed to preparation.
    pub fn lista_pedidos_novos(&self) -> (r: Result<Vec<Pedido>, DomainError>)
        ensures
            r matches Ok(v) && v@.map_values(|p: Pedido| p@) == self.pedido_repository@.filter(
                |p: PedidoView| p.status == Status::Recebido,
            ),
    {
        Ok(self.pedido_repository.lista_pedidos_by_status(Status::Recebido))
    }

    /// The payment record of the order `pedido_id`; `NotFound` exactly when
    /// the order never had a payment initiated.
    pub fn get_pagamento_by_pedido_id(&self, pedido_id: usize) -> (r: Result<
        Pagamento,
        DomainError,
    >)
        ensures
            match r {
                Ok(p) => indice_pagamento(self.pagamento_repository@, pedido_id as int) >= 0 && p@
                    == self.pagamento_repository@[indice_pagamento(
                    self.pagamento_repository@,
                    pedido_id as int,
                )] && p@.id_pedido == pedido_id as int,
                Err(e) => e == DomainError::NotFound && indice_pagamento(
                    self.pagamento_repository@,
                    pedido_id as int,
                ) == -1,
            },
    {
        self.pagamento_repository.get_pagamento_by_id_pedido(pedido_id)
    }

    /// The payment record the webhook path starts from for order
    /// `pedido_id`: the stored record when there is one, else a fresh
    /// `pendente` record with no reference.
    pub open spec fn pagamento_base(pags: Seq<PagamentoView>, pedido_id: int) -> PagamentoView {
        let ip = indice_pagamento(pags, pedido_id);
        if ip >= 0 {
            pags[ip]
        } else {
            PagamentoView {
                id_pedido: pedido_id,
                estado: "pendente"@,
                referencia: Seq::<char>::empty(),
            }
        }
    }

    /// The asynchronous payment path: applies an inbound webhook payload to
    /// the payment of the order `pedido_id`. The order must exist
    /// (`NotFound`); its payment record starts as `pendente` with no
    /// reference when none was stored yet. Whatever the payload holds, the
    /// stored result is the payment with some signal applied, and ingestion
    /// itself never fails: an unrecognizable payload degrades to a no-op
    /// update.
    pub fn webhook_pagamento(&mut self, pedido_id: usize, data: serde_json::Value) -> (r: Result<
        Pagamento,
        DomainError,
    >)
        requires
            old(self).wf(),
        ensures
            final(self).wf(),
            final(self).pedido_repository == old(self).pedido_repository,
            final(self).cliente_repository == old(self).cliente_repository,
            final(self).produto_repository == old(self).produto_repository,
            final(self).pagamento_adapter == old(self).pagamento_adapter,
            ({
                let dentro = 1 <= pedido_id <= old(self).pedido_repository@.len();
                let ip = indice_pagamento(old(self).pagamento_repository@, pedido_id as int);
                match r {
                    Ok(p) => {
                        &&& dentro
                        &&& exists|s: SinalWebhookView|
                            p@ == aplica_sinal_spec(
                                s,
                                Self::pagamento_base(
                                    old(self).pagamento_repository@,
                                    pedido_id as int,
                                ),
                            )
                        &&& final(self).pagamento_repository@ == (if ip >= 0 {
                            old(self).pagamento_repository@.update(ip, p@)
                        } else {
                            old(self).pagamento_repository@.push(p@)
                        })
                    },
                    Err(e) => {
                        &&& e == DomainError::NotFound
                        &&& !dentro
                        &&& final(self).pagamento_repository == old(self).pagamento_repository
                    },
                }
            }),
    {
        let _ = self.pedido_repository.get_pedido_by_id(pedido_id)?;
        let pagamento = match self.pagamento_repository.get_pagamento_by_id_pedido(pedido_id) {
            Ok(registro) => registro,
            Err(_) => Pagamento::new(pedido_id, String::from_str("pendente"), String::new()),
        };
        let ghost base = pagamento@;
        let ghost alvo = Self::pagamento_base(old(self).pagamento_repository@, pedido_id as int);
        proof {
            if indice_pagamento(self.pagamento_repository@, pedido_id as int) < 0 {
                assert(base =~= alvo);
            }
            assert(base == alvo);
        }
        let adapter = MercadoPagoPagamentoWebhookAdapter::new();
        let atualizado = adapter.processa_webhook(data, pagamento);
        proof {
            let s = choose|s: SinalWebhookView| atualizado@ == aplica_sinal_spec(s, base);
            assert(atualizado@ == aplica_sinal_spec(s, alvo));
            assert(atualizado@.id_pedido == pedido_id as int);
        }
        let guardado = atualizado.clone();
        self.pagamento_repository.guarda_pagamento(guardado);
        Ok(atualizado)
    }
}

/// Attaching the same drink to an order twice leaves the store exactly as
/// attaching it once does: the drink slot is a replacement, not an
/// addition, so the second attachment rewrites the same record with the
/// same value.
pub proof fn lema_adicionar_bebida_idempotente(
    pedidos: Seq<PedidoView>,
    i: int,
    produto: ProdutoView,
)
    requires
        0 <= i < pedidos.len(),
    ensures
        ({
            let uma = pedidos.update(i, PedidoView { bebida: Some(produto), ..pedidos[i] });
            uma.update(i, PedidoView { bebida: Some(produto), ..uma[i] }) == uma
        }),
{
    let uma = pedidos.update(i, PedidoView { bebida: Some(produto), ..pedidos[i] });
    assert(PedidoView { bebida: Some(produto), ..uma[i] } =~= uma[i]);
    assert(uma.update(i, PedidoView { bebida: Some(produto), ..uma[i] }) =~= uma);
}

} // verus!
