use vstd::prelude::*;

use crate::cpf::{cpf_valido, Cpf};
use crate::domain_error::DomainError;
use crate::relogio::data_de_hoje;
use crate::usuario::{status_usuario_de_nome, tipo_de_nome, Usuario};
use crate::usuario_repository::{indice_usuario, indice_usuario_cpf, UsuarioRepository};

verus! {

/// Input for creating a user: every field arrives as text and is validated
/// before anything is persisted.
pub struct CreateUsuarioInput {
    pub nome: String,
    pub email: String,
    pub senha: String,
    pub cpf: String,
    pub tipo: String,
    pub status: String,
}

/// Input for updating a user: only the present fields are to be changed.
pub struct UpdateUsuarioInput {
    pub nome: Option<String>,
    pub email: Option<String>,
    pub tipo: Option<String>,
    pub status: Option<String>,
}

/// The user-management operations over the user store.
pub struct UsuarioUseCase {
    pub usuario_repository: UsuarioRepository,
}

impl UsuarioUseCase {
    /// The use case is well-formed when its store is.
    pub open spec fn wf(&self) -> bool {
        self.usuario_repository.wf()
    }

    /// Builds the use case over the injected store.
    pub fn new(usuario_repository: UsuarioRepository) -> (r: Self)
        ensures
            r.usuario_repository == usuario_repository,
    {
        UsuarioUseCase { usuario_repository }
    }

    /// All stored users, in creation order.
    pub fn get_usuarios(&self) -> (r: Result<Vec<Usuario>, DomainError>)
        ensures
            r matches Ok(v) && v@.map_values(|u: Usuario| u@) == self.usuario_repository@,
    {
        Ok(self.usuario_repository.get_usuarios())
    }

    /// The user with identity `id`; `NotFound` exactly when it is absent.
    pub fn get_usuario_by_id(&self, id: usize) -> (r: Result<Usuario, DomainError>)
        ensures
            match r {
                Ok(u) => indice_usuario(self.usuario_repository@, id as int) >= 0 && u@
                    == self.usuario_repository@[indice_usuario(self.usuario_repository@, id as int)],
                Err(e) => e == DomainError::NotFound && indice_usuario(
                    self.usuario_repository@,
                    id as int,
                ) == -1,
            },
    {
        self.usuario_repository.get_usuario_by_id(id)
    }

    /// The user with CPF `cpf`; `NotFound` exactly when it is absent.
    pub fn get_usuario_by_cpf(&self, cpf: Cpf) -> (r: Result<Usuario, DomainError>)
        ensures
            match r {
                Ok(u) => indice_usuario_cpf(self.usuario_repository@, cpf@) >= 0 && u@
                    == self.usuario_repository@[indice_usuario_cpf(self.usuario_repository@, cpf@)],
                Err(e) => e == DomainError::NotFound && indice_usuario_cpf(
                    self.usuario_repository@,
                    cpf@,
                ) == -1,
            },
    {
        self.usuario_repository.get_usuario_by_cpf(&cpf)
    }

    /// Creates a user from textual input. The CPF must have its canonical
    /// shape, failing with `InvalidArgument` before anything is persisted;
    /// the role and status names must be well-formed (a malformed one is a
    /// caller error, ruled out up front). The persisted record carries the
    /// store-assigned identity and today's date as both timestamps.
    pub fn create_usuario(&mut self, usuario: CreateUsuarioInput) -> (r: Result<
        Usuario,
        DomainError,
    >)
        requires
            old(self).wf(),
            old(self).usuario_repository.proximo_id < usize::MAX,
            tipo_de_nome(usuario.tipo@) is Some,
            status_usuario_de_nome(usuario.status@) is Some,
        ensures
            final(self).wf(),
            match r {
                Ok(u) => {
                    &&& cpf_valido(usuario.cpf@)
                    &&& u@.id == old(self).usuario_repository.proximo_id as int
                    &&& u@.nome == usuario.nome@
                    &&& u@.email == usuario.email@
                    &&& u@.cpf == usuario.cpf@
                    &&& u@.senha == usuario.senha@
                    &&& Some(u@.tipo) == tipo_de_nome(usuario.tipo@)
                    &&& Some(u@.status) == status_usuario_de_nome(usuario.status@)
                    &&& u@.data_criacao == u@.data_atualizacao
                    &&& final(self).usuario_repository@ == old(self).usuario_repository@.push(u@)
                },
                Err(e) => {
                    &&& e == DomainError::InvalidArgument
                    &&& !cpf_valido(usuario.cpf@)
                    &&& final(self).usuario_repository@ == old(self).usuario_repository@
                },
            },
    {
        let new_id: usize = 0;
        let valid_cpf = Cpf::new(usuario.cpf)?;
        let valid_tipo = match crate::usuario::Tipo::parse(usuario.tipo.as_str()) {
            Ok(t) => t,
            Err(e) => {
                return Err(e);
            },
        };
        let valid_status = match crate::usuario::Status::parse(usuario.status.as_str()) {
            Ok(s) => s,
            Err(e) => {
                return Err(e);
            },
        };
        let data = data_de_hoje();

        let usuario = self.usuario_repository.create_usuario(
            Usuario::new(
                new_id,
                usuario.nome,
                usuario.email,
                valid_cpf,
                usuario.senha,
                valid_tipo,
                valid_status,
                data.clone(),
                data,
            ),
        )?;

        Ok(usuario)
    }

    /// Removes the user with CPF `cpf`; `NotFound` exactly when no user
    /// carries that number.
    pub fn delete_usuario(&mut self, cpf: Cpf) -> (r: Result<(), DomainError>)
        requires
            old(self).wf(),
        ensures
            final(self).wf(),
            match r {
                Ok(_) => indice_usuario_cpf(old(self).usuario_repository@, cpf@) >= 0
                    && final(self).usuario_repository@ == old(self).usuario_repository@.remove(
                    indice_usuario_cpf(old(self).usuario_repository@, cpf@),
                ),
                Err(e) => e == DomainError::NotFound && indice_usuario_cpf(
                    old(self).usuario_repository@,
                    cpf@,
                ) == -1 && final(self).usuario_repository@ == old(self).usuario_repository@,
            },
    {
        self.usuario_repository.delete_usuario(&cpf)?;
        Ok(())
    }
}

} // verus!
