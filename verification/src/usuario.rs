use vstd::prelude::*;

use crate::cpf::Cpf;
use crate::domain_error::DomainError;

verus! {

/// The role of a system user.
#[derive(Clone, Copy, Debug, PartialEq, Eq, Structural)]
pub enum Tipo {
    Admin,
    Cliente,
}

/// What `Tipo::parse` yields for a given name.
pub open spec fn tipo_de_nome(s: Seq<char>) -> Option<Tipo> {
    if s == "Admin"@ {
        Some(Tipo::Admin)
    } else if s == "Cliente"@ {
        Some(Tipo::Cliente)
    } else {
        None
    }
}

impl Tipo {
    /// Resolves a role name; unrecognized names are rejected.
    pub fn parse(nome: &str) -> (r: Result<Tipo, DomainError>)
        ensures
            match tipo_de_nome(nome@) {
                Some(t) => r === Ok(t),
                None => r === Err(DomainError::InvalidArgument),
            },
    {
        let nome = String::from_str(nome);
        if nome == String::from_str("Admin") {
            Ok(Tipo::Admin)
        } else if nome == String::from_str("Cliente") {
            Ok(Tipo::Cliente)
        } else {
            Err(DomainError::InvalidArgument)
        }
    }
}

/// Whether a user account is active.
#[derive(Clone, Copy, Debug, PartialEq, Eq, Structural)]
pub enum Status {
    Ativo,
    Inativo,
}

/// What `Status::parse` yields for a given name.
pub open spec fn status_usuario_de_nome(s: Seq<char>) -> Option<Status> {
    if s == "Ativo"@ {
        Some(Status::Ativo)
    } else if s == "Inativo"@ {
        Some(Status::Inativo)
    } else {
        None
    }
}

impl Status {
    /// Resolves an account-status name; unrecognized names are rejected.
    pub fn parse(nome: &str) -> (r: Result<Status, DomainError>)
        ensures
            match status_usuario_de_nome(nome@) {
                Some(s) => r === Ok(s),
                None => r === Err(DomainError::InvalidArgument),
            },
    {
        let nome = String::from_str(nome);
        if nome == String::from_str("Ativo") {
            Ok(Status::Ativo)
        } else if nome == String::from_str("Inativo") {
            Ok(Status::Inativo)
        } else {
            Err(DomainError::InvalidArgument)
        }
    }
}

/// The mathematical value of a user record.
#[verifier::ext_equal]
pub struct UsuarioView {
    pub id: int,
    pub nome: Seq<char>,
    pub email: Seq<char>,
    pub cpf: Seq<char>,
    pub senha: Seq<char>,
    pub tipo: Tipo,
    pub status: Status,
    pub data_criacao: Seq<char>,
    pub data_atualizacao: Seq<char>,
}

/// A system user: identity, contact data, credential, role, account status
/// and date-granularity timestamps.
#[derive(Debug)]
pub struct Usuario {
    pub id: usize,
    pub nome: String,
    pub email: String,
    pub cpf: Cpf,
    pub senha: String,
    pub tipo: Tipo,
    pub status: Status,
    pub data_criacao: String,
    pub data_atualizacao: String,
}

impl View for Usuario {
    type V = UsuarioView;

    open spec fn view(&self) -> UsuarioView {
        UsuarioView {
            id: self.id as int,
            nome: self.nome@,
            email: self.email@,
            cpf: self.cpf@,
            senha: self.senha@,
            tipo: self.tipo,
            status: self.status,
            data_criacao: self.data_criacao@,
            data_atualizacao: self.data_atualizacao@,
        }
    }
}

impl Clone for Usuario {
    fn clone(&self) -> (r: Self)
        ensures
            r@ == self@,
    {
        let r = Usuario {
            id: self.id,
            nome: self.nome.clone(),
            email: self.email.clone(),
            cpf: self.cpf.clone(),
            senha: self.senha.clone(),
            tipo: self.tipo,
            status: self.status,
            data_criacao: self.data_criacao.clone(),
            data_atualizacao: self.data_atualizacao.clone(),
        };
        proof {
            assert(r@ =~= self@);
        }
        r
    }
}

impl Usuario {
    /// Builds a user record from its fields.
    #[allow(clippy::too_many_arguments)]
    pub fn new(
        id: usize,
        nome: String,
        email: String,
        cpf: Cpf,
        senha: String,
        tipo: Tipo,
        status: Status,
        data_criacao: String,
        data_atualizacao: String,
    ) -> (r: Usuario)
        ensures
            r@ == (UsuarioView {
                id: id as int,
                nome: nome@,
                email: email@,
                cpf: cpf@,
                senha: senha@,
                tipo: tipo,
                status: status,
                data_criacao: data_criacao@,
                data_atualizacao: data_atualizacao@,
            }),
    {
        Usuario { id, nome, email, cpf, senha, tipo, status, data_criacao, data_atualizacao }
    }

    /// The user's identity.
    pub fn id(&self) -> (r: usize)
        ensures
            r as int == self@.id,
    {
        self.id
    }

    /// The user's CPF number.
    pub fn cpf(&self) -> (r: &Cpf)
        ensures
            r@ == self@.cpf,
    {
        &self.cpf
    }
}

} // verus!
