use vstd::prelude::*;

use crate::busca::{indice_primeiro, lema_indice_aqui, lema_indice_nenhum};
use crate::cpf::Cpf;
use crate::domain_error::DomainError;
use crate::usuario::{Usuario, UsuarioView};

verus! {

/// The index in `s` of the first user record with identity `id`, or -1.
pub open spec fn indice_usuario(s: Seq<UsuarioView>, id: int) -> int {
    indice_primeiro(s, |u: UsuarioView| u.id == id)
}

/// The index in `s` of the first user record with CPF `cpf`, or -1.
pub open spec fn indice_usuario_cpf(s: Seq<UsuarioView>, cpf: Seq<char>) -> int {
    indice_primeiro(s, |u: UsuarioView| u.cpf == cpf)
}

/// The in-memory user store. Creation assigns fresh identities from a
/// counter that stays above every stored identity, so identities never
/// collide even after deletions.
pub struct UsuarioRepository {
    pub usuarios: Vec<Usuario>,
    pub proximo_id: usize,
}

impl View for UsuarioRepository {
    type V = Seq<UsuarioView>;

    open spec fn view(&self) -> Seq<UsuarioView> {
        self.usuarios@.map_values(|u: Usuario| u@)
    }
}

impl UsuarioRepository {
    /// The store's invariant: every stored identity is below the counter.
    pub open spec fn wf(&self) -> bool {
        forall|i: int| 0 <= i < self@.len() ==> #[trigger] self@[i].id < self.proximo_id
    }

    /// An empty store; identities start at 1.
    pub fn new() -> (r: UsuarioRepository)
        ensures
            r@ == Seq::<UsuarioView>::empty(),
            r.wf(),
            r.proximo_id == 1,
    {
        let r = UsuarioRepository { usuarios: Vec::new(), proximo_id: 1 };
        proof {
            assert(r@ =~= Seq::<UsuarioView>::empty());
        }
        r
    }

    /// Copies of all stored users, in creation order.
    pub fn get_usuarios(&self) -> (r: Vec<Usuario>)
        ensures
            r@.map_values(|u: Usuario| u@) == self@,
    {
        let mut r: Vec<Usuario> = Vec::new();
        let mut i: usize = 0;
        while i < self.usuarios.len()
            invariant
                i <= self.usuarios.len(),
                r@.len() == i,
                forall|j: int| 0 <= j < i ==> #[trigger] r@[j]@ == self@[j],
            decreases self.usuarios.len() - i,
        {
            r.push(self.usuarios[i].clone());
            i += 1;
        }
        proof {
            assert(r@.map_values(|u: Usuario| u@) =~= self@);
        }
        r
    }

    /// A copy of the first user record with identity `id`; `NotFound`
    /// exactly when no record carries that identity.
    #[verifier::loop_isolation(false)]
    pub fn get_usuario_by_id(&self, id: usize) -> (r: Result<Usuario, DomainError>)
        ensures
            match r {
                Ok(u) => indice_usuario(self@, id as int) >= 0 && u@ == self@[indice_usuario(
                    self@,
                    id as int,
                )] && u@.id == id as int,
                Err(e) => e == DomainError::NotFound && indice_usuario(self@, id as int) == -1,
            },
    {
        let ghost pred = |u: UsuarioView| u.id == id as int;
        let mut i: usize = 0;
        while i < self.usuarios.len()
            invariant
                i <= self.usuarios.len(),
                forall|j: int| 0 <= j < i ==> !#[trigger] pred(self@[j]),
            decreases self.usuarios.len() - i,
        {
            if self.usuarios[i].id == id {
                proof {
                    lema_indice_aqui(self@, pred, i as int);
                }
                return Ok(self.usuarios[i].clone());
            }
            i += 1;
        }
        proof {
            lema_indice_nenhum(self@, pred);
        }
        Err(DomainError::NotFound)
    }

    /// A copy of the first user record with CPF `cpf`; `NotFound` exactly
    /// when no record carries that number.
    #[verifier::loop_isolation(false)]
    pub fn get_usuario_by_cpf(&self, cpf: &Cpf) -> (r: Result<Usuario, DomainError>)
        ensures
            match r {
                Ok(u) => indice_usuario_cpf(self@, cpf@) >= 0 && u@ == self@[indice_usuario_cpf(
                    self@,
                    cpf@,
                )] && u@.cpf == cpf@,
                Err(e) => e == DomainError::NotFound && indice_usuario_cpf(self@, cpf@) == -1,
            },
    {
        let ghost pred = |u: UsuarioView| u.cpf == cpf@;
        let mut i: usize = 0;
        while i < self.usuarios.len()
            invariant
                i <= self.usuarios.len(),
                forall|j: int| 0 <= j < i ==> !#[trigger] pred(self@[j]),
            decreases self.usuarios.len() - i,
        {
            if self.usuarios[i].cpf.numero == cpf.numero {
                proof {
                    lema_indice_aqui(self@, pred, i as int);
                }
                return Ok(self.usuarios[i].clone());
            }
            i += 1;
        }
        proof {
            lema_indice_nenhum(self@, pred);
        }
        Err(DomainError::NotFound)
    }

    /// Persists a new user: the stored record is `usuario` with the next
    /// identity assigned, and that persisted record is returned.
    pub fn create_usuario(&mut self, usuario: Usuario) -> (r: Result<Usuario, DomainError>)
        requires
            old(self).wf(),
            old(self).proximo_id < usize::MAX,
        ensures
            final(self).wf(),
            r matches Ok(u) && u@ == (UsuarioView { id: old(self).proximo_id as int, ..usuario@ })
                && final(self)@ == old(self)@.push(u@) && final(self).proximo_id == old(
                self,
            ).proximo_id + 1,
    {
        let mut usuario = usuario;
        usuario.id = self.proximo_id;
        self.proximo_id = self.proximo_id + 1;
        let persistido = usuario.clone();
        self.usuarios.push(usuario);
        proof {
            assert(persistido@ =~= (UsuarioView {
                id: old(self).proximo_id as int,
                ..persistido@
            }));
            assert(self@ =~= old(self)@.push(persistido@));
        }
        Ok(persistido)
    }

    /// Removes the first user record with CPF `cpf`; `NotFound` exactly
    /// when no record carries that number, in which case nothing changes.
    #[verifier::loop_isolation(false)]
    pub fn delete_usuario(&mut self, cpf: &Cpf) -> (r: Result<(), DomainError>)
        requires
            old(self).wf(),
        ensures
            final(self).wf(),
            final(self).proximo_id == old(self).proximo_id,
            match r {
                Ok(_) => indice_usuario_cpf(old(self)@, cpf@) >= 0 && final(self)@ == old(
                    self,
                )@.remove(indice_usuario_cpf(old(self)@, cpf@)),
                Err(e) => e == DomainError::NotFound && indice_usuario_cpf(old(self)@, cpf@) == -1
                    && final(self)@ == old(self)@,
            },
    {
        let ghost pred = |u: UsuarioView| u.cpf == cpf@;
        let mut i: usize = 0;
        while i < self.usuarios.len()
            invariant
                i <= self.usuarios.len(),
                forall|j: int| 0 <= j < i ==> !#[trigger] pred(self@[j]),
                self.usuarios == old(self).usuarios,
                self.proximo_id == old(self).proximo_id,
            decreases self.usuarios.len() - i,
        {
            if self.usuarios[i].cpf.numero == cpf.numero {
                proof {
                    lema_indice_aqui(self@, pred, i as int);
                }
                self.usuarios.remove(i);
                proof {
                    assert(self@ =~= old(self)@.remove(i as int));
                }
                return Ok(());
            }
            i += 1;
        }
        proof {
            lema_indice_nenhum(self@, pred);
        }
        Err(DomainError::NotFound)
    }
}

} // verus!
