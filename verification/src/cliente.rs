use vstd::prelude::*;

use crate::cpf::Cpf;

verus! {

/// The mathematical value of a customer record.
#[verifier::ext_equal]
pub struct ClienteView {
    pub id: int,
    pub nome: Seq<char>,
    pub email: Seq<char>,
    pub cpf: Seq<char>,
    pub data_criacao: Seq<char>,
    pub data_atualizacao: Seq<char>,
}

/// A customer record, attached to orders by copy.
#[derive(Debug)]
pub struct Cliente {
    pub id: usize,
    pub nome: String,
    pub email: String,
    pub cpf: Cpf,
    pub data_criacao: String,
    pub data_atualizacao: String,
}

impl View for Cliente {
    type V = ClienteView;

    open spec fn view(&self) -> ClienteView {
        ClienteView {
            id: self.id as int,
            nome: self.nome@,
            email: self.email@,
            cpf: self.cpf@,
            data_criacao: self.data_criacao@,
            data_atualizacao: self.data_atualizacao@,
        }
    }
}

impl Clone for Cliente {
    fn clone(&self) -> (r: Self)
        ensures
            r@ == self@,
    {
        let r = Cliente {
            id: self.id,
            nome: self.nome.clone(),
            email: self.email.clone(),
            cpf: self.cpf.clone(),
            data_criacao: self.data_criacao.clone(),
            data_atualizacao: self.data_atualizacao.clone(),
        };
        proof {
            assert(r@ =~= self@);
        }
        r
    }
}

impl Cliente {
    /// Builds a customer record from its fields.
    pub fn new(
        id: usize,
        nome: String,
        email: String,
        cpf: Cpf,
        data_criacao: String,
        data_atualizacao: String,
    ) -> (r: Cliente)
        ensures
            r@ == (ClienteView {
                id: id as int,
                nome: nome@,
                email: email@,
                cpf: cpf@,
                data_criacao: data_criacao@,
                data_atualizacao: data_atualizacao@,
            }),
    {
        Cliente { id, nome, email, cpf, data_criacao, data_atualizacao }
    }

    /// The customer's identity.
    pub fn id(&self) -> (r: usize)
        ensures
            r as int == self@.id,
    {
        self.id
    }
}

} // verus!
