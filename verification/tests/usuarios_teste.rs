use pedidos::cpf::Cpf;
use pedidos::domain_error::DomainError;
use pedidos::in_memory_user_repository::InMemoryUserRepository;
use pedidos::mock::{MockPagamentoProcessor, PagamentoNotificationHandler};
use pedidos::pagamento::StatusPagamento;
use pedidos::tabela::ColumnTypes;
use pedidos::usuario::{Status, Tipo};
use pedidos::usuario_repository::UsuarioRepository;
use pedidos::usuario_use_case::{CreateUsuarioInput, UsuarioUseCase};
use pedidos::usuarios::{get_usuario_table_columns, usuario_de_linha};

fn entrada(cpf: &str) -> CreateUsuarioInput {
    CreateUsuarioInput {
        nome: "nome".to_string(),
        email: "email".to_string(),
        senha: "senha".to_string(),
        cpf: cpf.to_string(),
        tipo: "Admin".to_string(),
        status: "Ativo".to_string(),
    }
}

#[test]
fn criar_buscar_e_apagar_usuario() {
    let mut use_case = UsuarioUseCase::new(UsuarioRepository::new());
    let criado = use_case.create_usuario(entrada("111.222.333-44")).unwrap();
    assert_eq!(criado.id(), 1);
    assert_eq!(criado.tipo, Tipo::Admin);
    assert_eq!(criado.status, Status::Ativo);
    assert_eq!(criado.data_criacao, criado.data_atualizacao);

    let cpf = Cpf::new("111.222.333-44".to_string()).unwrap();
    assert_eq!(use_case.get_usuario_by_cpf(cpf).unwrap().id(), 1);
    assert_eq!(use_case.get_usuario_by_id(1).unwrap().nome, "nome");
    assert_eq!(use_case.get_usuarios().unwrap().len(), 1);

    let cpf = Cpf::new("111.222.333-44".to_string()).unwrap();
    use_case.delete_usuario(cpf).unwrap();
    assert_eq!(use_case.get_usuarios().unwrap().len(), 0);
    let cpf = Cpf::new("111.222.333-44".to_string()).unwrap();
    assert_eq!(use_case.delete_usuario(cpf).unwrap_err(), DomainError::NotFound);
}

#[test]
fn criar_usuario_com_cpf_invalido_falha() {
    let mut use_case = UsuarioUseCase::new(UsuarioRepository::new());
    assert_eq!(use_case.create_usuario(entrada("111")).unwrap_err(), DomainError::InvalidArgument);
    assert_eq!(use_case.get_usuarios().unwrap().len(), 0);
}

#[test]
fn identidades_de_usuario_nao_se_repetem_apos_apagar() {
    let mut use_case = UsuarioUseCase::new(UsuarioRepository::new());
    use_case.create_usuario(entrada("111.222.333-44")).unwrap();
    let cpf = Cpf::new("111.222.333-44".to_string()).unwrap();
    use_case.delete_usuario(cpf).unwrap();
    let segundo = use_case.create_usuario(entrada("555.666.777-88")).unwrap();
    assert_eq!(segundo.id(), 2);
}

#[test]
fn repositorio_em_memoria_traz_o_usuario_de_exemplo() {
    let repo = InMemoryUserRepository::new();
    let users = repo.get_users().unwrap();
    assert_eq!(users.len(), 1);
    assert_eq!(users[0].nome, "Albert Dias Moreira");
    assert_eq!(repo.get_user_by_id(1).unwrap().cpf().numero(), "000.000.000-00");
    assert_eq!(repo.get_user_by_id(2).unwrap_err(), DomainError::NotFound);
}

#[test]
fn colunas_da_tabela_de_usuarios() {
    let columns = get_usuario_table_columns();
    assert_eq!(columns.len(), 9);
    let (tipo, nulo, padrao) = columns.get("id").unwrap();
    assert_eq!(*tipo, ColumnTypes::Index);
    assert!(!nulo.0);
    assert!(padrao.0.is_none());
    let (tipo, nulo, padrao) = columns.get("data_criacao").unwrap();
    assert_eq!(*tipo, ColumnTypes::Timestamp);
    assert!(nulo.0);
    assert_eq!(padrao.0.as_deref(), Some("CURRENT_TIMESTAMP"));
    assert!(columns.contains_key("cpf") && columns.contains_key("senha"));
    assert!(columns.contains_key("data_atualizacao"));
}

#[test]
fn linha_de_banco_vira_usuario_validado() {
    let usuario = usuario_de_linha(
        9,
        "n".to_string(),
        "e".to_string(),
        "000.000.000-00".to_string(),
        "s".to_string(),
        "Cliente",
        "Inativo",
        "2021-10-10".to_string(),
        "2021-10-11".to_string(),
    )
    .unwrap();
    assert_eq!(usuario.id(), 9);
    assert_eq!(usuario.tipo, Tipo::Cliente);
    assert_eq!(usuario.status, Status::Inativo);

    let invalido = usuario_de_linha(
        9,
        "n".to_string(),
        "e".to_string(),
        "000.000.000-00".to_string(),
        "s".to_string(),
        "Gerente",
        "Ativo",
        "2021-10-10".to_string(),
        "2021-10-11".to_string(),
    );
    assert_eq!(invalido.unwrap_err(), DomainError::InvalidArgument);
}

struct Registrador {
    recebido: std::cell::Cell<Option<(usize, StatusPagamento)>>,
}

impl PagamentoNotificationHandler for Registrador {
    fn handle_payment_notification(&self, id: usize, status: StatusPagamento) {
        self.recebido.set(Some((id, status)));
    }
}

#[test]
fn processador_simulado_sempre_aprova() {
    let handler = Registrador { recebido: std::cell::Cell::new(None) };
    let processor = MockPagamentoProcessor::new(handler);
    let (id, status) = processor.confirmacao(31);
    assert_eq!(id, 31);
    assert_eq!(status, StatusPagamento::Successo);
    processor.notification_handler().handle_payment_notification(id, status);
    assert_eq!(processor.notification_handler.recebido.get(), Some((31, StatusPagamento::Successo)));
}
