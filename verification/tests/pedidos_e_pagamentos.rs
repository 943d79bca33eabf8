use pedidos::cliente::Cliente;
use pedidos::cliente_repository::ClienteRepository;
use pedidos::cpf::Cpf;
use pedidos::domain_error::DomainError;
use pedidos::ingredientes::Ingredientes;
use pedidos::pagamento::{PagamentoPort, StatusPagamento};
use pedidos::pagamento_repository::PagamentoRepository;
use pedidos::pedido::{Pedido, Status};
use pedidos::pedido_repository::PedidoRepository;
use pedidos::pedidos_e_pagamentos_use_case::{CreatePedidoInput, PedidosEPagamentosUseCase};
use pedidos::produto::{Categoria, Produto};
use pedidos::produto_repository::ProdutoRepository;

struct GatewayFixo {
    resultado: Result<StatusPagamento, DomainError>,
    chamadas: Vec<(usize, u64)>,
}

impl GatewayFixo {
    fn sucesso() -> GatewayFixo {
        GatewayFixo { resultado: Ok(StatusPagamento::Successo), chamadas: Vec::new() }
    }
}

impl PagamentoPort for GatewayFixo {
    fn processa_pagamento(
        &mut self,
        pedido_id: usize,
        total: u64,
    ) -> Result<StatusPagamento, DomainError> {
        self.chamadas.push((pedido_id, total));
        self.resultado
    }
}

fn use_case_com(
    pedido_repository: PedidoRepository,
    cliente_repository: ClienteRepository,
    produto_repository: ProdutoRepository,
    gateway: GatewayFixo,
) -> PedidosEPagamentosUseCase<GatewayFixo> {
    PedidosEPagamentosUseCase::new(
        pedido_repository,
        cliente_repository,
        produto_repository,
        PagamentoRepository::new(),
        gateway,
    )
}

fn pedido_recebido() -> Pedido {
    Pedido::new(
        1,
        None,
        None,
        None,
        None,
        "id_pagamento".to_string(),
        Status::Recebido,
        "2021-10-10".to_string(),
        "2021-10-10".to_string(),
    )
}

fn lanche_x_bacon() -> Produto {
    let ingredientes = Ingredientes::new(vec![
        "Pão".to_string(),
        "Hambúrguer".to_string(),
        "Queijo".to_string(),
    ])
    .unwrap();
    Produto::new(
        1,
        "X-Bacon".to_string(),
        "foto.png".to_string(),
        "Saundiche de queijo e bacon".to_string(),
        Categoria::Lanche,
        10,
        ingredientes,
        "2021-10-10".to_string(),
        "2021-10-10".to_string(),
    )
}

fn acompanhamento_batata() -> Produto {
    let ingredientes = Ingredientes::new(vec![]).unwrap();
    Produto::new(
        1,
        "Batata Frita M".to_string(),
        "foto.png".to_string(),
        "Batata frita do tamanho médio".to_string(),
        Categoria::Acompanhamento,
        10,
        ingredientes,
        "2021-10-10".to_string(),
        "2021-10-10".to_string(),
    )
}

fn bebida_refrigerante() -> Produto {
    let ingredientes = Ingredientes::new(vec![]).unwrap();
    Produto::new(
        1,
        "Refrigerante de Cola M".to_string(),
        "foto.png".to_string(),
        "Refrigerante de Cola do tamanho médio".to_string(),
        Categoria::Bebida,
        10,
        ingredientes,
        "2021-10-10".to_string(),
        "2021-10-10".to_string(),
    )
}

#[test]
fn test_lista_pedidos() {
    let mut pedido_repository = PedidoRepository::new();
    let expected_pedido = pedido_repository.create_pedido(pedido_recebido()).unwrap();

    let use_case = use_case_com(
        pedido_repository,
        ClienteRepository::new(),
        ProdutoRepository::new(),
        GatewayFixo::sucesso(),
    );
    let result = use_case.lista_pedidos();
    assert_eq!(result.unwrap()[0].id(), expected_pedido.id());
}

#[test]
fn test_seleciona_pedido_por_id() {
    let mut pedido_repository = PedidoRepository::new();
    let expected_pedido = pedido_repository.create_pedido(pedido_recebido()).unwrap();

    let use_case = use_case_com(
        pedido_repository,
        ClienteRepository::new(),
        ProdutoRepository::new(),
        GatewayFixo::sucesso(),
    );
    let result = use_case.seleciona_pedido_por_id(1);
    assert_eq!(result.unwrap().id(), expected_pedido.id());
}

#[test]
fn test_novo_pedido() {
    let mut cliente_repository = ClienteRepository::new();
    let returned_cliente = Cliente::new(
        1,
        "nome".to_string(),
        "email".to_string(),
        Cpf::new("000.000.000-00".to_string()).unwrap(),
        "2021-10-10".to_string(),
        "2021-10-10".to_string(),
    );
    cliente_repository.adiciona_cliente(returned_cliente);

    let mut use_case = use_case_com(
        PedidoRepository::new(),
        cliente_repository,
        ProdutoRepository::new(),
        GatewayFixo::sucesso(),
    );
    let result = use_case.novo_pedido(CreatePedidoInput { cliente_id: Some(1) });
    assert_eq!(result.unwrap().id(), 1);
}

#[test]
fn test_lista_lanches() {
    let mut produto_repository = ProdutoRepository::new();
    let expected_produto = lanche_x_bacon();
    produto_repository.adiciona_produto(lanche_x_bacon());

    let use_case = use_case_com(
        PedidoRepository::new(),
        ClienteRepository::new(),
        produto_repository,
        GatewayFixo::sucesso(),
    );
    let result = use_case.lista_lanches();
    assert_eq!(result.unwrap()[0].id(), expected_produto.id());
}

#[test]
fn test_adicionar_lanche_com_personalizacao() {
    let mut produto_repository = ProdutoRepository::new();
    produto_repository.adiciona_produto(lanche_x_bacon());

    let mut pedido_repository = PedidoRepository::new();
    let expected_pedido = pedido_repository.create_pedido(pedido_recebido()).unwrap();

    let mut use_case = use_case_com(
        pedido_repository,
        ClienteRepository::new(),
        produto_repository,
        GatewayFixo::sucesso(),
    );
    let result = use_case.adicionar_lanche_com_personalizacao(1, 1);
    assert_eq!(result.unwrap().id(), expected_pedido.id());
}

#[test]
fn test_lista_acompanhamentos() {
    let mut produto_repository = ProdutoRepository::new();
    let expected_produto = acompanhamento_batata();
    produto_repository.adiciona_produto(acompanhamento_batata());

    let use_case = use_case_com(
        PedidoRepository::new(),
        ClienteRepository::new(),
        produto_repository,
        GatewayFixo::sucesso(),
    );
    let result = use_case.lista_acompanhamentos();
    assert_eq!(result.unwrap()[0].id(), expected_produto.id());
}

#[test]
fn test_adicionar_acompanhamento() {
    let mut produto_repository = ProdutoRepository::new();
    produto_repository.adiciona_produto(acompanhamento_batata());

    let mut pedido_repository = PedidoRepository::new();
    let expected_pedido = pedido_repository.create_pedido(pedido_recebido()).unwrap();

    let mut use_case = use_case_com(
        pedido_repository,
        ClienteRepository::new(),
        produto_repository,
        GatewayFixo::sucesso(),
    );
    let result = use_case.adicionar_acompanhamento(1, 1);
    assert_eq!(result.unwrap().id(), expected_pedido.id());
}

#[test]
fn test_lista_bebidas() {
    let mut produto_repository = ProdutoRepository::new();
    let expected_produto = bebida_refrigerante();
    produto_repository.adiciona_produto(bebida_refrigerante());

    let use_case = use_case_com(
        PedidoRepository::new(),
        ClienteRepository::new(),
        produto_repository,
        GatewayFixo::sucesso(),
    );
    let result = use_case.lista_bebidas();
    assert_eq!(result.unwrap()[0].id(), expected_produto.id());
}

#[test]
fn test_adicionar_bebida() {
    let mut produto_repository = ProdutoRepository::new();
    produto_repository.adiciona_produto(bebida_refrigerante());

    let mut pedido_repository = PedidoRepository::new();
    let expected_pedido = pedido_repository.create_pedido(pedido_recebido()).unwrap();

    let mut use_case = use_case_com(
        pedido_repository,
        ClienteRepository::new(),
        produto_repository,
        GatewayFixo::sucesso(),
    );
    let result = use_case.adicionar_bebida(1, 1);
    assert_eq!(result.unwrap().id(), expected_pedido.id());
}

#[test]
fn test_realizar_pagamento_do_pedido() {
    let mut pedido_repository = PedidoRepository::new();
    let pendente = Pedido::new(
        1,
        None,
        None,
        None,
        Some(bebida_refrigerante()),
        "id_pagamento".to_string(),
        Status::Pendente,
        "2021-10-10".to_string(),
        "2021-10-10".to_string(),
    );
    let expected_pedido = pedido_repository.create_pedido(pendente).unwrap();

    let mut use_case = use_case_com(
        pedido_repository,
        ClienteRepository::new(),
        ProdutoRepository::new(),
        GatewayFixo::sucesso(),
    );
    let result = use_case.realizar_pagamento_do_pedido(1);
    assert_eq!(result.unwrap().id(), expected_pedido.id());
    assert_eq!(use_case.pagamento_adapter.chamadas, vec![(1, 10)]);
    assert_eq!(use_case.seleciona_pedido_por_id(1).unwrap().status(), Status::Recebido);
}
