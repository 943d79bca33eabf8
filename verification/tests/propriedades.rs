use pedidos::cliente::Cliente;
use pedidos::cliente_repository::ClienteRepository;
use pedidos::cpf::Cpf;
use pedidos::domain_error::DomainError;
use pedidos::ingredientes::Ingredientes;
use pedidos::mercadopago_pagamento_webhook_adapter::{
    aplica_resposta_registro, monta_webhook_url, MercadoPagoPagamentoWebhookAdapter,
};
use pedidos::pagamento::{Pagamento, PagamentoPort, StatusPagamento};
use pedidos::pagamento_repository::PagamentoRepository;
use pedidos::pedido::{Pedido, Status};
use pedidos::pedido_repository::PedidoRepository;
use pedidos::pedidos_e_pagamentos_use_case::{CreatePedidoInput, PedidosEPagamentosUseCase};
use pedidos::produto::{Categoria, Produto};
use pedidos::pedido_controller::PedidoController;
use pedidos::produto_repository::ProdutoRepository;

struct GatewayFixo {
    resultado: Result<StatusPagamento, DomainError>,
    chamadas: Vec<(usize, u64)>,
}

impl GatewayFixo {
    fn devolvendo(resultado: Result<StatusPagamento, DomainError>) -> GatewayFixo {
        GatewayFixo { resultado, chamadas: Vec::new() }
    }
}

impl PagamentoPort for GatewayFixo {
    fn processa_pagamento(
        &mut self,
        pedido_id: usize,
        total: u64,
    ) -> Result<StatusPagamento, DomainError> {
        self.chamadas.push((pedido_id, total));
        self.resultado
    }
}

fn produto(id: usize, nome: &str, categoria: Categoria, preco: u32) -> Produto {
    Produto::new(
        id,
        nome.to_string(),
        "foto.png".to_string(),
        "item de teste".to_string(),
        categoria,
        preco,
        Ingredientes::new(vec![]).unwrap(),
        "2021-10-10".to_string(),
        "2021-10-10".to_string(),
    )
}

fn use_case_vazio(
    resultado: Result<StatusPagamento, DomainError>,
) -> PedidosEPagamentosUseCase<GatewayFixo> {
    PedidosEPagamentosUseCase::new(
        PedidoRepository::new(),
        ClienteRepository::new(),
        ProdutoRepository::new(),
        PagamentoRepository::new(),
        GatewayFixo::devolvendo(resultado),
    )
}

fn com_pedido_e_produtos(
    resultado: Result<StatusPagamento, DomainError>,
) -> PedidosEPagamentosUseCase<GatewayFixo> {
    let mut use_case = use_case_vazio(resultado);
    use_case.novo_pedido(CreatePedidoInput { cliente_id: None }).unwrap();
    use_case.produto_repository.adiciona_produto(produto(7, "Misto", Categoria::Lanche, 25));
    use_case.produto_repository.adiciona_produto(produto(8, "Suco", Categoria::Bebida, 9));
    use_case
}

#[test]
fn anexo_valido_reflete_preco_no_total() {
    let mut use_case = com_pedido_e_produtos(Ok(StatusPagamento::Successo));
    let pedido = use_case.adicionar_lanche_com_personalizacao(1, 7).unwrap();
    assert_eq!(pedido.get_total_valor_pedido(), 25);
    let pedido = use_case.adicionar_bebida(1, 8).unwrap();
    assert_eq!(pedido.get_total_valor_pedido(), 34);
    assert_eq!(use_case.seleciona_pedido_por_id(1).unwrap().get_total_valor_pedido(), 34);
}

#[test]
fn anexo_com_categoria_errada_falha_sem_mudar_o_pedido() {
    let mut use_case = com_pedido_e_produtos(Ok(StatusPagamento::Successo));
    // item 8 is a drink, so the snack slot refuses it
    let result = use_case.adicionar_lanche_com_personalizacao(1, 8);
    assert_eq!(result.unwrap_err(), DomainError::InvalidArgument);
    let pedido = use_case.seleciona_pedido_por_id(1).unwrap();
    assert!(pedido.lanche.is_none());
    assert_eq!(pedido.get_total_valor_pedido(), 0);
}

#[test]
fn ids_desconhecidos_falham_com_not_found_sem_mutacao() {
    let mut use_case = com_pedido_e_produtos(Ok(StatusPagamento::Successo));
    assert_eq!(use_case.adicionar_lanche_com_personalizacao(1, 99).unwrap_err(), DomainError::NotFound);
    assert_eq!(use_case.adicionar_bebida(42, 8).unwrap_err(), DomainError::NotFound);
    assert_eq!(use_case.seleciona_pedido_por_id(42).unwrap_err(), DomainError::NotFound);
    assert_eq!(use_case.adicionar_cliente(1, 5).unwrap_err(), DomainError::NotFound);
    assert_eq!(
        use_case.novo_pedido(CreatePedidoInput { cliente_id: Some(5) }).unwrap_err(),
        DomainError::NotFound
    );
    let pedido = use_case.seleciona_pedido_por_id(1).unwrap();
    assert!(pedido.lanche.is_none() && pedido.bebida.is_none() && pedido.cliente.is_none());
    assert_eq!(use_case.lista_pedidos().unwrap().len(), 1);
}

#[test]
fn novo_pedido_sem_cliente_comeca_pendente_e_vazio() {
    let mut use_case = use_case_vazio(Ok(StatusPagamento::Successo));
    let pedido = use_case.novo_pedido(CreatePedidoInput { cliente_id: None }).unwrap();
    assert_eq!(pedido.status(), Status::Pendente);
    assert!(pedido.cliente.is_none());
    assert!(pedido.lanche.is_none() && pedido.acompanhamento.is_none() && pedido.bebida.is_none());
    assert_eq!(pedido.get_total_valor_pedido(), 0);
    assert_eq!(pedido.pagamento(), "");
    assert_eq!(pedido.data_criacao, pedido.data_atualizacao);
    assert!(!pedido.data_criacao.is_empty());
}

#[test]
fn novo_pedido_com_cliente_valido_o_anexa() {
    let mut use_case = use_case_vazio(Ok(StatusPagamento::Successo));
    use_case.cliente_repository.adiciona_cliente(Cliente::new(
        3,
        "nome".to_string(),
        "email".to_string(),
        Cpf::new("000.000.000-00".to_string()).unwrap(),
        "2021-10-10".to_string(),
        "2021-10-10".to_string(),
    ));
    let pedido = use_case.novo_pedido(CreatePedidoInput { cliente_id: Some(3) }).unwrap();
    assert_eq!(pedido.cliente.as_ref().unwrap().id(), 3);
}

#[test]
fn pagamento_com_sucesso_recebe_o_pedido_uma_vez() {
    let mut use_case = com_pedido_e_produtos(Ok(StatusPagamento::Successo));
    use_case.adicionar_bebida(1, 8).unwrap();
    let devolvido = use_case.realizar_pagamento_do_pedido(1).unwrap();
    // the caller receives the order as fetched before the status update
    assert_eq!(devolvido.status(), Status::Pendente);
    assert_eq!(use_case.seleciona_pedido_por_id(1).unwrap().status(), Status::Recebido);
    assert_eq!(use_case.pagamento_adapter.chamadas, vec![(1, 9)]);
    assert_eq!(use_case.get_pagamento_by_pedido_id(1).unwrap().estado(), "aprovado");
}

#[test]
fn pagamento_recusado_preserva_o_estado() {
    let mut use_case = com_pedido_e_produtos(Ok(StatusPagamento::Falha));
    use_case.adicionar_bebida(1, 8).unwrap();
    let result = use_case.realizar_pagamento_do_pedido(1);
    assert_eq!(result.unwrap_err(), DomainError::PaymentRejected);
    assert_eq!(use_case.seleciona_pedido_por_id(1).unwrap().status(), Status::Pendente);
    assert_eq!(use_case.get_pagamento_by_pedido_id(1).unwrap_err(), DomainError::NotFound);
}

#[test]
fn cobranca_de_dez_aprovada_e_depois_recusada() {
    // approved charge of exactly 10 moves the order to Recebido
    let mut use_case = use_case_vazio(Ok(StatusPagamento::Successo));
    use_case.novo_pedido(CreatePedidoInput { cliente_id: None }).unwrap();
    use_case.produto_repository.adiciona_produto(produto(1, "Suco", Categoria::Bebida, 10));
    use_case.adicionar_bebida(1, 1).unwrap();
    use_case.realizar_pagamento_do_pedido(1).unwrap();
    assert_eq!(use_case.pagamento_adapter.chamadas, vec![(1, 10)]);
    assert_eq!(use_case.seleciona_pedido_por_id(1).unwrap().status(), Status::Recebido);

    // the same order with a refusing gateway keeps its prior status
    let mut use_case = use_case_vazio(Ok(StatusPagamento::Falha));
    use_case.novo_pedido(CreatePedidoInput { cliente_id: None }).unwrap();
    use_case.produto_repository.adiciona_produto(produto(1, "Suco", Categoria::Bebida, 10));
    use_case.adicionar_bebida(1, 1).unwrap();
    assert_eq!(use_case.realizar_pagamento_do_pedido(1).unwrap_err(), DomainError::PaymentRejected);
    assert_eq!(use_case.seleciona_pedido_por_id(1).unwrap().status(), Status::Pendente);
}

#[test]
fn webhook_aprovado_marca_estado_e_referencia() {
    let mut use_case = com_pedido_e_produtos(Ok(StatusPagamento::Successo));
    let data = serde_json::from_str(r#"{"action":"payment.approved","id":"abc"}"#).unwrap();
    let pagamento = use_case.webhook_pagamento(1, data).unwrap();
    assert_eq!(pagamento.estado(), "aprovado");
    assert_eq!(pagamento.referencia(), "abc");
    let guardado = use_case.get_pagamento_by_pedido_id(1).unwrap();
    assert_eq!(guardado.estado(), "aprovado");
    assert_eq!(guardado.referencia(), "abc");
}

#[test]
fn webhook_vazio_nao_muda_nada() {
    let mut use_case = com_pedido_e_produtos(Ok(StatusPagamento::Successo));
    let data = serde_json::from_str("{}").unwrap();
    let pagamento = use_case.webhook_pagamento(1, data).unwrap();
    assert_eq!(pagamento.estado(), "pendente");
    assert_eq!(pagamento.referencia(), "");
}

#[test]
fn webhook_apenas_com_id_troca_so_a_referencia() {
    let mut use_case = com_pedido_e_produtos(Ok(StatusPagamento::Successo));
    let data = serde_json::from_str(r#"{"id":"xyz","action":"payment.rejected"}"#).unwrap();
    let pagamento = use_case.webhook_pagamento(1, data).unwrap();
    assert_eq!(pagamento.estado(), "pendente");
    assert_eq!(pagamento.referencia(), "xyz");
}

#[test]
fn webhook_com_payload_sem_objeto_degrada_para_nada() {
    let mut use_case = com_pedido_e_produtos(Ok(StatusPagamento::Successo));
    let data = serde_json::from_str("[1, 2, 3]").unwrap();
    let pagamento = use_case.webhook_pagamento(1, data).unwrap();
    assert_eq!(pagamento.estado(), "pendente");
    assert_eq!(pagamento.referencia(), "");
}

#[test]
fn webhook_para_pedido_desconhecido_falha() {
    let mut use_case = use_case_vazio(Ok(StatusPagamento::Successo));
    let data = serde_json::from_str("{}").unwrap();
    assert_eq!(use_case.webhook_pagamento(9, data).unwrap_err(), DomainError::NotFound);
}

#[test]
fn processa_webhook_direto_no_adaptador() {
    let adapter = MercadoPagoPagamentoWebhookAdapter::new();
    let pagamento = Pagamento::new(5, "pendente".to_string(), "antiga".to_string());
    let data = serde_json::from_str(r#"{"action":"payment.approved","id":"nova"}"#).unwrap();
    let atualizado = adapter.processa_webhook(data, pagamento);
    assert_eq!(atualizado.id_pedido(), 5);
    assert_eq!(atualizado.estado(), "aprovado");
    assert_eq!(atualizado.referencia(), "nova");
}

#[test]
fn anexar_bebida_duas_vezes_e_igual_a_uma() {
    let mut uma = com_pedido_e_produtos(Ok(StatusPagamento::Successo));
    uma.adicionar_bebida(1, 8).unwrap();

    let mut duas = com_pedido_e_produtos(Ok(StatusPagamento::Successo));
    duas.adicionar_bebida(1, 8).unwrap();
    duas.adicionar_bebida(1, 8).unwrap();

    let p1 = uma.seleciona_pedido_por_id(1).unwrap();
    let p2 = duas.seleciona_pedido_por_id(1).unwrap();
    assert_eq!(duas.lista_pedidos().unwrap().len(), 1);
    assert_eq!(p1.id(), p2.id());
    assert_eq!(p1.status(), p2.status());
    assert_eq!(p1.bebida.as_ref().unwrap().id(), p2.bebida.as_ref().unwrap().id());
    assert_eq!(p1.get_total_valor_pedido(), p2.get_total_valor_pedido());
    assert!(p2.lanche.is_none() && p2.acompanhamento.is_none());
}

#[test]
fn parse_de_status_aceita_os_nomes_fixos() {
    assert_eq!(Status::parse("Cancelado").unwrap(), Status::Cancelado);
    assert_eq!(Status::parse("EmPreparacao").unwrap(), Status::EmPreparacao);
    assert_eq!(Status::parse("Finalizado").unwrap(), Status::Finalizado);
    assert_eq!(Status::parse("Invalido").unwrap(), Status::Invalido);
    assert_eq!(Status::parse("Pendente").unwrap(), Status::Pendente);
    assert_eq!(Status::parse("Pronto").unwrap(), Status::Pronto);
    assert_eq!(Status::parse("Recebido").unwrap(), Status::Recebido);
    assert_eq!(Status::parse("Qualquer").unwrap_err(), DomainError::InvalidArgument);
}

#[test]
fn parse_de_categoria_aceita_os_nomes_fixos() {
    assert_eq!(Categoria::parse("Lanche").unwrap(), Categoria::Lanche);
    assert_eq!(Categoria::parse("Acompanhamento").unwrap(), Categoria::Acompanhamento);
    assert_eq!(Categoria::parse("Bebida").unwrap(), Categoria::Bebida);
    assert_eq!(Categoria::parse("Sobremesa").unwrap_err(), DomainError::InvalidArgument);
}

#[test]
fn cpf_aceita_a_forma_canonica_e_rejeita_o_resto() {
    assert_eq!(Cpf::new("123.456.789-09".to_string()).unwrap().numero(), "123.456.789-09");
    assert_eq!(Cpf::new("123".to_string()).unwrap_err(), DomainError::InvalidArgument);
    assert_eq!(Cpf::new("12345678909".to_string()).unwrap_err(), DomainError::InvalidArgument);
    assert_eq!(Cpf::new("abc.def.ghi-jk".to_string()).unwrap_err(), DomainError::InvalidArgument);
    assert_eq!(Cpf::new("123.456.789-0x".to_string()).unwrap_err(), DomainError::InvalidArgument);
}

#[test]
fn url_de_callback_carrega_o_id_em_decimal() {
    assert_eq!(monta_webhook_url("example.com", 42), "https://example.com/42/pagamento");
    assert_eq!(monta_webhook_url("api.local", 0), "https://api.local/0/pagamento");
    assert_eq!(monta_webhook_url("h", 905), "https://h/905/pagamento");
}

#[test]
fn resposta_de_registro_com_codigo_vira_referencia() {
    let pagamento = Pagamento::new(2, "pendente".to_string(), "".to_string());
    let atualizado =
        aplica_resposta_registro(true, Some("PC-1".to_string()), pagamento).unwrap();
    assert_eq!(atualizado.referencia(), "PC-1");
    assert_eq!(atualizado.estado(), "pendente");
}

#[test]
fn resposta_de_registro_sem_sucesso_ou_sem_codigo_falha() {
    let pagamento = Pagamento::new(2, "pendente".to_string(), "".to_string());
    assert_eq!(
        aplica_resposta_registro(false, Some("PC-1".to_string()), pagamento).unwrap_err(),
        DomainError::PaymentAdapterError
    );
    let pagamento = Pagamento::new(2, "pendente".to_string(), "".to_string());
    assert_eq!(
        aplica_resposta_registro(true, None, pagamento).unwrap_err(),
        DomainError::PaymentAdapterError
    );
}

#[test]
fn atualiza_status_por_nome_valida_antes_de_mudar() {
    let mut controller = PedidoController::new(
        PedidoRepository::new(),
        ClienteRepository::new(),
        ProdutoRepository::new(),
        PagamentoRepository::new(),
        GatewayFixo::devolvendo(Ok(StatusPagamento::Successo)),
    );
    controller
        .pedidos_e_pagamentos_use_case
        .novo_pedido(CreatePedidoInput { cliente_id: None })
        .unwrap();
    assert_eq!(
        controller.atualiza_status_pedido(1, "Njet").unwrap_err(),
        DomainError::InvalidArgument
    );
    assert_eq!(controller.get_pedido_by_id(1).unwrap().status(), Status::Pendente);
    let atualizado = controller.atualiza_status_pedido(1, "Pronto").unwrap();
    assert_eq!(atualizado.status(), Status::Pronto);
    assert_eq!(controller.get_pedido_by_id(1).unwrap().status(), Status::Pronto);
}

#[test]
fn atualiza_produto_por_categoria_despacha_para_o_slot() {
    let mut controller = PedidoController::new(
        PedidoRepository::new(),
        ClienteRepository::new(),
        ProdutoRepository::new(),
        PagamentoRepository::new(),
        GatewayFixo::devolvendo(Ok(StatusPagamento::Successo)),
    );
    controller
        .pedidos_e_pagamentos_use_case
        .novo_pedido(CreatePedidoInput { cliente_id: None })
        .unwrap();
    controller
        .pedidos_e_pagamentos_use_case
        .produto_repository
        .adiciona_produto(produto(4, "Suco", Categoria::Bebida, 7));
    assert_eq!(
        controller.atualiza_produto_by_categoria(1, "Refeicao", 4).unwrap_err(),
        DomainError::InvalidArgument
    );
    let pedido = controller.atualiza_produto_by_categoria(1, "Bebida", 4).unwrap();
    assert_eq!(pedido.bebida.as_ref().unwrap().id(), 4);
    assert_eq!(pedido.get_total_valor_pedido(), 7);
}

#[test]
fn descricoes_dos_erros_distinguem_as_falhas() {
    assert_eq!(DomainError::NotFound.descricao(), "entidade nao encontrada");
    assert_eq!(DomainError::PaymentRejected.descricao(), "pagamento recusado");
    assert_ne!(
        DomainError::InvalidArgument.descricao(),
        DomainError::PaymentAdapterError.descricao()
    );
}
