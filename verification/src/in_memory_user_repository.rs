use vstd::prelude::*;

use crate::busca::{indice_primeiro, lema_indice_aqui, lema_indice_nenhum};
use crate::cpf::{cpf_valido, Cpf};
use crate::domain_error::DomainError;
use crate::usuario::{Status, Tipo, Usuario, UsuarioView};
use crate::usuario_repository::indice_usuario;

verus! {

/// A user store seeded with one fixed sample user, for running the service
/// without a database behind it.
pub struct InMemoryUserRepository {
    pub _users: Vec<Usuario>,
}

impl View for InMemoryUserRepository {
    type V = Seq<UsuarioView>;

    open spec fn view(&self) -> Seq<UsuarioView> {
        self._users@.map_values(|u: Usuario| u@)
    }
}

impl InMemoryUserRepository {
    /// A store holding exactly the sample user, with identity 1.
    pub fn new() -> (r: InMemoryUserRepository)
        ensures
            r@.len() == 1,
            r@[0].id == 1,
            r@[0].nome == "Albert Dias Moreira"@,
            r@[0].email == "contato@albert-dm.dev"@,
            r@[0].cpf == "000.000.000-00"@,
            r@[0].senha == "melhor_projeto"@,
    {
        proof {
            reveal_strlit("000.000.000-00");
            assert(cpf_valido("000.000.000-00"@)) by {
                assert forall|i: int| 0 <= i < 14 implies #[trigger] crate::cpf::posicao_cpf_valida(
                    "000.000.000-00"@,
                    i,
                ) by {}
            }
        }
        let cpf = Cpf::new(String::from_str("000.000.000-00")).unwrap();
        let user = Usuario::new(
            1,
            String::from_str("Albert Dias Moreira"),
            String::from_str("contato@albert-dm.dev"),
            cpf,
            String::from_str("melhor_projeto"),
            Tipo::Cliente,
            Status::Ativo,
            String::new(),
            String::new(),
        );
        let mut users: Vec<Usuario> = Vec::new();
        users.push(user);
        let r = InMemoryUserRepository { _users: users };
        proof {
            assert(r@[0] == r._users@[0]@);
        }
        r
    }

    /// Copies of all stored users.
    pub fn get_users(&self) -> (r: Result<Vec<Usuario>, DomainError>)
        ensures
            r matches Ok(v) && v@.map_values(|u: Usuario| u@) == self@,
    {
        let mut users: Vec<Usuario> = Vec::new();
        let mut i: usize = 0;
        while i < self._users.len()
            invariant
                i <= self._users.len(),
                users@.len() == i,
                forall|j: int| 0 <= j < i ==> #[trigger] users@[j]@ == self@[j],
            decreases self._users.len() - i,
        {
            users.push(self._users[i].clone());
            i += 1;
        }
        proof {
            assert(users@.map_values(|u: Usuario| u@) =~= self@);
        }
        Ok(users)
    }

    /// A copy of the first stored user with identity `id`; `NotFound`
    /// exactly when no user carries that identity.
    #[verifier::loop_isolation(false)]
    pub fn get_user_by_id(&self, id: usize) -> (r: Result<Usuario, DomainError>)
        ensures
            match r {
                Ok(u) => indice_usuario(self@, id as int) >= 0 && u@ == self@[indice_usuario(
                    self@,
                    id as int,
                )] && u@.id == id as int,
                Err(e) => e == DomainError::NotFound && indice_usuario(self@, id as int) == -1,
            },
    {
        let ghost pred = |u: UsuarioView| u.id == id as int;
        let mut i: usize = 0;
        while i < self._users.len()
            invariant
                i <= self._users.len(),
                forall|j: int| 0 <= j < i ==> !#[trigger] pred(self@[j]),
            decreases self._users.len() - i,
        {
            if self._users[i].id == id {
                proof {
                    lema_indice_aqui(self@, pred, i as int);
                }
                return Ok(self._users[i].clone());
            }
            i += 1;
        }
        proof {
            lema_indice_nenhum(self@, pred);
        }
        Err(DomainError::NotFound)
    }
}

} // verus!
