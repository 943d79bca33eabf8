use vstd::prelude::*;

use crate::domain_error::DomainError;
use crate::ingredientes::Ingredientes;

verus! {

/// The three fixed catalog partitions; an order holds at most one item of
/// each.
#[derive(Clone, Copy, Debug, PartialEq, Eq, Structural)]
pub enum Categoria {
    Lanche,
    Acompanhamento,
    Bebida,
}

/// What `Categoria::parse` yields for a given name.
pub open spec fn categoria_de_nome(s: Seq<char>) -> Option<Categoria> {
    if s == "Lanche"@ {
        Some(Categoria::Lanche)
    } else if s == "Acompanhamento"@ {
        Some(Categoria::Acompanhamento)
    } else if s == "Bebida"@ {
        Some(Categoria::Bebida)
    } else {
        None
    }
}

impl Categoria {
    /// Resolves a category name; unrecognized names are rejected before any
    /// use is made of them.
    pub fn parse(nome: &str) -> (r: Result<Categoria, DomainError>)
        ensures
            match categoria_de_nome(nome@) {
                Some(c) => r === Ok(c),
                None => r === Err(DomainError::InvalidArgument),
            },
    {
        let nome = String::from_str(nome);
        if nome == String::from_str("Lanche") {
            Ok(Categoria::Lanche)
        } else if nome == String::from_str("Acompanhamento") {
            Ok(Categoria::Acompanhamento)
        } else if nome == String::from_str("Bebida") {
            Ok(Categoria::Bebida)
        } else {
            Err(DomainError::InvalidArgument)
        }
    }
}

/// The mathematical value of a catalog item.
#[verifier::ext_equal]
pub struct ProdutoView {
    pub id: int,
    pub nome: Seq<char>,
    pub foto: Seq<char>,
    pub descricao: Seq<char>,
    pub categoria: Categoria,
    pub preco: int,
    pub ingredientes: Seq<Seq<char>>,
    pub data_criacao: Seq<char>,
    pub data_atualizacao: Seq<char>,
}

/// A catalog item. Once fetched it is treated as an immutable snapshot: an
/// order stores a copy, so later catalog changes do not alter placed orders.
/// The price is kept in the smallest monetary unit.
#[derive(Debug)]
pub struct Produto {
    pub id: usize,
    pub nome: String,
    pub foto: String,
    pub descricao: String,
    pub categoria: Categoria,
    pub preco: u32,
    pub ingredientes: Ingredientes,
    pub data_criacao: String,
    pub data_atualizacao: String,
}

impl View for Produto {
    type V = ProdutoView;

    open spec fn view(&self) -> ProdutoView {
        ProdutoView {
            id: self.id as int,
            nome: self.nome@,
            foto: self.foto@,
            descricao: self.descricao@,
            categoria: self.categoria,
            preco: self.preco as int,
            ingredientes: self.ingredientes@,
            data_criacao: self.data_criacao@,
            data_atualizacao: self.data_atualizacao@,
        }
    }
}

impl Clone for Produto {
    fn clone(&self) -> (r: Self)
        ensures
            r@ == self@,
    {
        let r = Produto {
            id: self.id,
            nome: self.nome.clone(),
            foto: self.foto.clone(),
            descricao: self.descricao.clone(),
            categoria: self.categoria,
            preco: self.preco,
            ingredientes: self.ingredientes.clone(),
            data_criacao: self.data_criacao.clone(),
            data_atualizacao: self.data_atualizacao.clone(),
        };
        proof {
            assert(r@ =~= self@);
        }
        r
    }
}

impl Produto {
    /// Builds a catalog item from its fields.
    pub fn new(
        id: usize,
        nome: String,
        foto: String,
        descricao: String,
        categoria: Categoria,
        preco: u32,
        ingredientes: Ingredientes,
        data_criacao: String,
        data_atualizacao: String,
    ) -> (r: Produto)
        ensures
            r@ == (ProdutoView {
                id: id as int,
                nome: nome@,
                foto: foto@,
                descricao: descricao@,
                categoria: categoria,
                preco: preco as int,
                ingredientes: ingredientes@,
                data_criacao: data_criacao@,
                data_atualizacao: data_atualizacao@,
            }),
    {
        Produto { id, nome, foto, descricao, categoria, preco, ingredientes, data_criacao, data_atualizacao }
    }

    /// The item's identity.
    pub fn id(&self) -> (r: usize)
        ensures
            r as int == self@.id,
    {
        self.id
    }

    /// The item's category.
    pub fn categoria(&self) -> (r: Categoria)
        ensures
            r == self@.categoria,
    {
        self.categoria
    }

    /// The item's price, in the smallest monetary unit.
    pub fn preco(&self) -> (r: u32)
        ensures
            r as int == self@.preco,
    {
        self.preco
    }

    /// The item's display name.
    pub fn nome(&self) -> (r: &str)
        ensures
            r@ == self@.nome,
    {
        self.nome.as_str()
    }
}

} // verus!
