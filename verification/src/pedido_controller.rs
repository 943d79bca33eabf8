use vstd::prelude::*;

use crate::cliente_repository::{indice_cliente, ClienteRepository};
use crate::domain_error::DomainError;
use crate::mercadopago_pagamento_webhook_adapter::{aplica_sinal_spec, SinalWebhookView};
use crate::pagamento::{Pagamento, PagamentoPort, PagamentoView};
use crate::pagamento_repository::{indice_pagamento, PagamentoRepository};
use crate::pedido::{status_de_nome, Pedido, PedidoView, Status};
use crate::pedido_repository::PedidoRepository;
use crate::pedidos_e_pagamentos_use_case::{CreatePedidoInput, PedidosEPagamentosUseCase};
use crate::produto::{categoria_de_nome, Categoria, ProdutoView};
use crate::produto_repository::{indice_produto, ProdutoRepository};

verus! {

/// The order attached to `base` after storing `produto` in the slot of
/// `categoria`, replacing any prior snapshot there.
pub open spec fn pedido_com_slot(
    base: PedidoView,
    categoria: Categoria,
    produto: ProdutoView,
) -> PedidoView {
    match categoria {
        Categoria::Lanche => PedidoView { lanche: Some(produto), ..base },
        Categoria::Acompanhamento => PedidoView { acompanhamento: Some(produto), ..base },
        Categoria::Bebida => PedidoView { bebida: Some(produto), ..base },
    }
}

/// The inbound face of the order operations: it validates the textual
/// status and category names carried by requests and hands the validated
/// values to the orchestrator.
pub struct PedidoController<G: PagamentoPort> {
    pub pedidos_e_pagamentos_use_case: PedidosEPagamentosUseCase<G>,
}

impl<G: PagamentoPort> PedidoController<G> {
    /// The controller is well-formed when its orchestrator is.
    pub open spec fn wf(&self) -> bool {
        self.pedidos_e_pagamentos_use_case.wf()
    }

    /// Builds the controller over the injected stores and gateway port.
    pub fn new(
        pedido_repository: PedidoRepository,
        cliente_repository: ClienteRepository,
        produto_repository: ProdutoRepository,
        pagamento_repository: PagamentoRepository,
        pagamento_adapter: G,
    ) -> (r: Self)
        ensures
            r.pedidos_e_pagamentos_use_case.pedido_repository == pedido_repository,
            r.pedidos_e_pagamentos_use_case.cliente_repository == cliente_repository,
            r.pedidos_e_pagamentos_use_case.produto_repository == produto_repository,
            r.pedidos_e_pagamentos_use_case.pagamento_repository == pagamento_repository,
            r.pedidos_e_pagamentos_use_case.pagamento_adapter == pagamento_adapter,
    {
        let pedidos_e_pagamentos_use_case = PedidosEPagamentosUseCase::new(
            pedido_repository,
            cliente_repository,
            produto_repository,
            pagamento_repository,
            pagamento_adapter,
        );
        PedidoController { pedidos_e_pagamentos_use_case }
    }

    /// All stored orders, in creation order.
    pub fn get_pedidos(&self) -> (r: Result<Vec<Pedido>, DomainError>)
        ensures
            r matches Ok(v) && v@.map_values(|p: Pedido| p@)
                == self.pedidos_e_pagamentos_use_case.pedido_repository@,
    {
        self.pedidos_e_pagamentos_use_case.lista_pedidos()
    }

    /// The order with identity `id`; `NotFound` exactly when it is absent.
    pub fn get_pedido_by_id(&self, id: usize) -> (r: Result<Pedido, DomainError>)
        requires
            self.wf(),
        ensures
            match r {
                Ok(p) => 1 <= id <= self.pedidos_e_pagamentos_use_case.pedido_repository@.len()
                    && p@ == self.pedidos_e_pagamentos_use_case.pedido_repository@[id - 1],
                Err(e) => e == DomainError::NotFound && !(1 <= id
                    <= self.pedidos_e_pagamentos_use_case.pedido_repository@.len()),
            },
    {
        self.pedidos_e_pagamentos_use_case.seleciona_pedido_por_id(id)
    }

    /// Creates an order from the request input, as the orchestrator's
    /// creation operation describes it.
    pub fn novo_pedido(&mut self, pedido_input: CreatePedidoInput) -> (r: Result<
        Pedido,
        DomainError,
    >)
        requires
            old(self).wf(),
            old(self).pedidos_e_pagamentos_use_case.pedido_repository@.len() < usize::MAX,
        ensures
            final(self).wf(),
            match r {
                Ok(p) => {
                    &&& p@.status == Status::Pendente
                    &&& p@.total() == 0
                    &&& final(self).pedidos_e_pagamentos_use_case.pedido_repository@ == old(self).pedidos_e_pagamentos_use_case.pedido_repository@.push(p@)
                },
                Err(e) => {
                    &&& e == DomainError::NotFound
                    &&& (pedido_input.cliente_id matches Some(cid) && indice_cliente(
                        old(self).pedidos_e_pagamentos_use_case.cliente_repository@,
                        cid as int,
                    ) == -1)
                    &&& final(self).pedidos_e_pagamentos_use_case.pedido_repository@ == old(self).pedidos_e_pagamentos_use_case.pedido_repository@
                },
            },
    {
        self.pedidos_e_pagamentos_use_case.novo_pedido(pedido_input)
    }

    /// The orders whose payment was confirmed, in creation order.
    pub fn get_pedidos_novos(&self) -> (r: Result<Vec<Pedido>, DomainError>)
        ensures
            r matches Ok(v) && v@.map_values(|p: Pedido| p@)
                == self.pedidos_e_pagamentos_use_case.pedido_repository@.filter(
                |p: PedidoView| p.status == Status::Recebido,
            ),
    {
        self.pedidos_e_pagamentos_use_case.lista_pedidos_novos()
    }

    /// Validates a status name and overwrites the status of the order `id`
    /// with it. An unrecognized name fails with `InvalidArgument` before any
    /// mutation is attempted; an absent order fails with `NotFound`.
    pub fn atualiza_status_pedido(&mut self, id: usize, status: &str) -> (r: Result<
        Pedido,
        DomainError,
    >)
        requires
            old(self).wf(),
        ensures
            final(self).wf(),
            match status_de_nome(status@) {
                None => r === Err(DomainError::InvalidArgument) && final(self).pedidos_e_pagamentos_use_case == old(self).pedidos_e_pagamentos_use_case,
                Some(alvo) => match r {
                    Ok(p) => {
                        &&& 1 <= id <= old(self).pedidos_e_pagamentos_use_case.pedido_repository@.len()
                        &&& p@ == (PedidoView {
                            status: alvo,
                            ..old(self).pedidos_e_pagamentos_use_case.pedido_repository@[id - 1]
                        })
                        &&& final(self).pedidos_e_pagamentos_use_case.pedido_repository@ == old(self).pedidos_e_pagamentos_use_case.pedido_repository@.update(id - 1, p@)
                    },
                    Err(e) => {
                        &&& e == DomainError::NotFound
                        &&& !(1 <= id
                            <= old(self).pedidos_e_pagamentos_use_case.pedido_repository@.len())
                        &&& final(self).pedidos_e_pagamentos_use_case.pedido_repository@ == old(self).pedidos_e_pagamentos_use_case.pedido_repository@
                    },
                },
            },
    {
        let status = match Status::parse(status) {
            Ok(s) => s,
            Err(e) => {
                return Err(e);
            },
        };
        self.pedidos_e_pagamentos_use_case.atualiza_status(id, status)
    }

    /// Attaches the customer `cliente_id` to the order `id`, as the
    /// orchestrator's customer operation describes it.
    pub fn atualiza_cliente_pedido(&mut self, id: usize, cliente_id: usize) -> (r: Result<
        Pedido,
        DomainError,
    >)
        requires
            old(self).wf(),
        ensures
            final(self).wf(),
            ({
                let ic = indice_cliente(
                    old(self).pedidos_e_pagamentos_use_case.cliente_repository@,
                    cliente_id as int,
                );
                match r {
                    Ok(p) => {
                        &&& ic >= 0
                        &&& 1 <= id <= old(self).pedidos_e_pagamentos_use_case.pedido_repository@.len()
                        &&& p@ == (PedidoView {
                            cliente: Some(
                                old(self).pedidos_e_pagamentos_use_case.cliente_repository@[ic],
                            ),
                            ..old(self).pedidos_e_pagamentos_use_case.pedido_repository@[id - 1]
                        })
                        &&& final(self).pedidos_e_pagamentos_use_case.pedido_repository@ == old(self).pedidos_e_pagamentos_use_case.pedido_repository@.update(id - 1, p@)
                    },
                    Err(e) => {
                        &&& e == DomainError::NotFound
                        &&& (ic == -1 || !(1 <= id
                            <= old(self).pedidos_e_pagamentos_use_case.pedido_repository@.len()))
                        &&& final(self).pedidos_e_pagamentos_use_case.pedido_repository@ == old(self).pedidos_e_pagamentos_use_case.pedido_repository@
                    },
                }
            }),
    {
        self.pedidos_e_pagamentos_use_case.adicionar_cliente(id, cliente_id)
    }

    /// Validates a category name and attaches the item `produto_id` to the
    /// slot of that category on the order `id`. An unrecognized category
    /// fails with `InvalidArgument` before any lookup; then the item must
    /// resolve, carry the named category, and the order must exist, as the
    /// orchestrator's composition operations describe it.
    pub fn atualiza_produto_by_categoria(
        &mut self,
        id: usize,
        categoria: &str,
        produto_id: usize,
    ) -> (r: Result<Pedido, DomainError>)
        requires
            old(self).wf(),
        ensures
            final(self).wf(),
            match categoria_de_nome(categoria@) {
                None => r === Err(DomainError::InvalidArgument) && final(self).pedidos_e_pagamentos_use_case == old(self).pedidos_e_pagamentos_use_case,
                Some(cat) => ({
                    let ip = indice_produto(
                        old(self).pedidos_e_pagamentos_use_case.produto_repository@,
                        produto_id as int,
                    );
                    match r {
                        Ok(p) => {
                            &&& ip >= 0
                            &&& old(self).pedidos_e_pagamentos_use_case.produto_repository@[ip].categoria
                                == cat
                            &&& 1 <= id
                                <= old(self).pedidos_e_pagamentos_use_case.pedido_repository@.len()
                            &&& p@ == pedido_com_slot(
                                old(self).pedidos_e_pagamentos_use_case.pedido_repository@[id - 1],
                                cat,
                                old(self).pedidos_e_pagamentos_use_case.produto_repository@[ip],
                            )
                            &&& final(self).pedidos_e_pagamentos_use_case.pedido_repository@ == old(self).pedidos_e_pagamentos_use_case.pedido_repository@.update(id - 1, p@)
                        },
                        Err(e) => {
                            &&& final(self).pedidos_e_pagamentos_use_case.pedido_repository@ == old(self).pedidos_e_pagamentos_use_case.pedido_repository@
                            &&& (if ip == -1 {
                                e == DomainError::NotFound
                            } else if old(self).pedidos_e_pagamentos_use_case.produto_repository@[ip].categoria
                                != cat {
                                e == DomainError::InvalidArgument
                            } else {
                                e == DomainError::NotFound && !(1 <= id
                                    <= old(self).pedidos_e_pagamentos_use_case.pedido_repository@.len())
                            })
                        },
                    }
                }),
            },
    {
        let categoria = match Categoria::parse(categoria) {
            Ok(c) => c,
            Err(e) => {
                return Err(e);
            },
        };
        match categoria {
            Categoria::Lanche => self.pedidos_e_pagamentos_use_case
                .adicionar_lanche_com_personalizacao(id, produto_id),
            Categoria::Acompanhamento => self.pedidos_e_pagamentos_use_case.adicionar_acompanhamento(
                id,
                produto_id,
            ),
            Categoria::Bebida => self.pedidos_e_pagamentos_use_case.adicionar_bebida(id, produto_id),
        }
    }

    /// The synchronous payment path for the order `id`, as the
    /// orchestrator's payment operation describes it.
    pub fn pagar(&mut self, id: usize) -> (r: Result<Pedido, DomainError>)
        requires
            old(self).wf(),
        ensures
            final(self).wf(),
            match r {
                Ok(p) => {
                    &&& 1 <= id <= old(self).pedidos_e_pagamentos_use_case.pedido_repository@.len()
                    &&& p@ == old(self).pedidos_e_pagamentos_use_case.pedido_repository@[id - 1]
                    &&& final(self).pedidos_e_pagamentos_use_case.pedido_repository@ == old(self).pedidos_e_pagamentos_use_case.pedido_repository@.update(
                        id - 1,
                        PedidoView {
                            status: Status::Recebido,
                            ..old(self).pedidos_e_pagamentos_use_case.pedido_repository@[id - 1]
                        },
                    )
                    &&& ({
                        let ip = indice_pagamento(
                            old(self).pedidos_e_pagamentos_use_case.pagamento_repository@,
                            id as int,
                        );
                        final(self).pedidos_e_pagamentos_use_case.pagamento_repository@ == (
                        if ip >= 0 {
                            old(self).pedidos_e_pagamentos_use_case.pagamento_repository@.update(
                                ip,
                                PagamentoView {
                                    estado: "aprovado"@,
                                    ..old(self).pedidos_e_pagamentos_use_case.pagamento_repository@[ip]
                                },
                            )
                        } else {
                            old(self).pedidos_e_pagamentos_use_case.pagamento_repository@.push(
                                PagamentoView {
                                    id_pedido: id as int,
                                    estado: "aprovado"@,
                                    referencia: Seq::<char>::empty(),
                                },
                            )
                        })
                    })
                },
                Err(e) => {
                    &&& final(self).pedidos_e_pagamentos_use_case.pedido_repository@ == old(self).pedidos_e_pagamentos_use_case.pedido_repository@
                    &&& final(self).pedidos_e_pagamentos_use_case.pagamento_repository@ == old(self).pedidos_e_pagamentos_use_case.pagamento_repository@
                    &&& (if !(1 <= id
                        <= old(self).pedidos_e_pagamentos_use_case.pedido_repository@.len()) {
                        e == DomainError::NotFound
                    } else {
                        e == DomainError::PaymentRejected
                    })
                },
            },
    {
        self.pedidos_e_pagamentos_use_case.realizar_pagamento_do_pedido(id)
    }

    /// The payment record of the order `id`; `NotFound` exactly when no
    /// payment was initiated for it.
    pub fn get_pagamento_by_pedido_id(&self, id: usize) -> (r: Result<Pagamento, DomainError>)
        ensures
            match r {
                Ok(p) => indice_pagamento(
                    self.pedidos_e_pagamentos_use_case.pagamento_repository@,
                    id as int,
                ) >= 0 && p@.id_pedido == id as int,
                Err(e) => e == DomainError::NotFound && indice_pagamento(
                    self.pedidos_e_pagamentos_use_case.pagamento_repository@,
                    id as int,
                ) == -1,
            },
    {
        self.pedidos_e_pagamentos_use_case.get_pagamento_by_pedido_id(id)
    }

    /// The asynchronous payment path for the order `id`, as the
    /// orchestrator's webhook operation describes it.
    pub fn webhook_pagamento(&mut self, id: usize, data: serde_json::Value) -> (r: Result<
        Pagamento,
        DomainError,
    >)
        requires
            old(self).wf(),
        ensures
            final(self).wf(),
            final(self).pedidos_e_pagamentos_use_case.pedido_repository@ == old(self).pedidos_e_pagamentos_use_case.pedido_repository@,
            match r {
                Ok(p) => {
                    &&& 1 <= id <= old(self).pedidos_e_pagamentos_use_case.pedido_repository@.len()
                    &&& exists|s: SinalWebhookView|
                        p@ == aplica_sinal_spec(
                            s,
                            PedidosEPagamentosUseCase::<G>::pagamento_base(
                                old(self).pedidos_e_pagamentos_use_case.pagamento_repository@,
                                id as int,
                            ),
                        )
                    &&& ({
                        let ip = indice_pagamento(
                            old(self).pedidos_e_pagamentos_use_case.pagamento_repository@,
                            id as int,
                        );
                        final(self).pedidos_e_pagamentos_use_case.pagamento_repository@ == (
                        if ip >= 0 {
                            old(self).pedidos_e_pagamentos_use_case.pagamento_repository@.update(
                                ip,
                                p@,
                            )
                        } else {
                            old(self).pedidos_e_pagamentos_use_case.pagamento_repository@.push(p@)
                        })
                    })
                },
                Err(e) => {
                    &&& e == DomainError::NotFound
                    &&& !(1 <= id <= old(self).pedidos_e_pagamentos_use_case.pedido_repository@.len())
                    &&& final(self).pedidos_e_pagamentos_use_case.pagamento_repository@ == old(self).pedidos_e_pagamentos_use_case.pagamento_repository@
                },
            },
    {
        self.pedidos_e_pagamentos_use_case.webhook_pagamento(id, data)
    }
}

} // verus!
