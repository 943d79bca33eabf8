use vstd::prelude::*;

use std::collections::HashMap;

use crate::cpf::{cpf_valido, Cpf};
use crate::domain_error::DomainError;
use crate::tabela::{ColumnDefault, ColumnNullable, ColumnTypes};
use crate::usuario::{
    status_usuario_de_nome, tipo_de_nome, Status, Tipo, Usuario, UsuarioView,
};
use vstd::std_specs::hash::obeys_key_model;

verus! {

/// The names of the columns of the user table.
pub open spec fn nome_coluna_usuario(s: Seq<char>) -> bool {
    ||| s == "id"@
    ||| s == "nome"@
    ||| s == "email"@
    ||| s == "cpf"@
    ||| s == "senha"@
    ||| s == "tipo"@
    ||| s == "status"@
    ||| s == "data_criacao"@
    ||| s == "data_atualizacao"@
}

/// Whether the map `m` binds a key with text `nome` to a column of type
/// `tipo`, nullability `nulo` and default expression `valor_padrao`.
pub open spec fn tem_coluna(
    m: Map<String, (ColumnTypes, ColumnNullable, ColumnDefault)>,
    nome: Seq<char>,
    tipo: ColumnTypes,
    nulo: bool,
    valor_padrao: Option<Seq<char>>,
) -> bool {
    exists|k: String|
        {
            &&& #[trigger] m.contains_key(k)
            &&& k@ == nome
            &&& m[k].0 == tipo
            &&& m[k].1.0 == nulo
            &&& m[k].2@ == valor_padrao
        }
}

/// The schema of the user table: every identity, text and credential column
/// is non-nullable with no default, and the two timestamp columns are
/// nullable with the current timestamp as default. The map's view is only
/// modeled when `String` keys obey the hash-table key model; under that
/// premise the map binds exactly the nine column names.
pub fn get_usuario_table_columns() -> (r: HashMap<
    String,
    (ColumnTypes, ColumnNullable, ColumnDefault),
>)
    ensures
        obeys_key_model::<String>() ==> {
            &&& forall|k: String| #[trigger] r@.contains_key(k) ==> nome_coluna_usuario(k@)
            &&& tem_coluna(r@, "id"@, ColumnTypes::Index, false, None)
            &&& tem_coluna(r@, "nome"@, ColumnTypes::Text, false, None)
            &&& tem_coluna(r@, "email"@, ColumnTypes::Text, false, None)
            &&& tem_coluna(r@, "cpf"@, ColumnTypes::Text, false, None)
            &&& tem_coluna(r@, "senha"@, ColumnTypes::Text, false, None)
            &&& tem_coluna(r@, "tipo"@, ColumnTypes::Text, false, None)
            &&& tem_coluna(r@, "status"@, ColumnTypes::Text, false, None)
            &&& tem_coluna(r@, "data_criacao"@, ColumnTypes::Timestamp, true, Some("CURRENT_TIMESTAMP"@))
            &&& tem_coluna(
                r@,
                "data_atualizacao"@,
                ColumnTypes::Timestamp,
                true,
                Some("CURRENT_TIMESTAMP"@),
            )
        },
{
    let mut columns: HashMap<String, (ColumnTypes, ColumnNullable, ColumnDefault)> =
        HashMap::new();
    let ghost mapa0 = columns@;
    let chave1 = String::from_str("id");
    let valor1 = (ColumnTypes::Index, ColumnNullable(false), ColumnDefault(None));
    let ghost chave1_g = chave1;
    let ghost valor1_g = valor1;
    columns.insert(chave1, valor1);
    let ghost mapa1 = columns@;
    let chave2 = String::from_str("nome");
    let valor2 = (ColumnTypes::Text, ColumnNullable(false), ColumnDefault(None));
    let ghost chave2_g = chave2;
    let ghost valor2_g = valor2;
    columns.insert(chave2, valor2);
    let ghost mapa2 = columns@;
    let chave3 = String::from_str("email");
    let valor3 = (ColumnTypes::Text, ColumnNullable(false), ColumnDefault(None));
    let ghost chave3_g = chave3;
    let ghost valor3_g = valor3;
    columns.insert(chave3, valor3);
    let ghost mapa3 = columns@;
    let chave4 = String::from_str("cpf");
    let valor4 = (ColumnTypes::Text, ColumnNullable(false), ColumnDefault(None));
    let ghost chave4_g = chave4;
    let ghost valor4_g = valor4;
    columns.insert(chave4, valor4);
    let ghost mapa4 = columns@;
    let chave5 = String::from_str("senha");
    let valor5 = (ColumnTypes::Text, ColumnNullable(false), ColumnDefault(None));
    let ghost chave5_g = chave5;
    let ghost valor5_g = valor5;
    columns.insert(chave5, valor5);
    let ghost mapa5 = columns@;
    let chave6 = String::from_str("tipo");
    let valor6 = (ColumnTypes::Text, ColumnNullable(false), ColumnDefault(None));
    let ghost chave6_g = chave6;
    let ghost valor6_g = valor6;
    columns.insert(chave6, valor6);
    let ghost mapa6 = columns@;
    let chave7 = String::from_str("status");
    let valor7 = (ColumnTypes::Text, ColumnNullable(false), ColumnDefault(None));
    let ghost chave7_g = chave7;
    let ghost valor7_g = valor7;
    columns.insert(chave7, valor7);
    let ghost mapa7 = columns@;
    let chave8 = String::from_str("data_criacao");
    let valor8 = (
        ColumnTypes::Timestamp,
        ColumnNullable(true),
        ColumnDefault(Some(String::from_str("CURRENT_TIMESTAMP"))),
    );
    let ghost chave8_g = chave8;
    let ghost valor8_g = valor8;
    columns.insert(chave8, valor8);
    let ghost mapa8 = columns@;
    let chave9 = String::from_str("data_atualizacao");
    let valor9 = (
        ColumnTypes::Timestamp,
        ColumnNullable(true),
        ColumnDefault(Some(String::from_str("CURRENT_TIMESTAMP"))),
    );
    let ghost chave9_g = chave9;
    let ghost valor9_g = valor9;
    columns.insert(chave9, valor9);
    let ghost mapa9 = columns@;
    proof {
        if obeys_key_model::<String>() {
            reveal_strlit("id");
            reveal_strlit("nome");
            reveal_strlit("email");
            reveal_strlit("cpf");
            reveal_strlit("senha");
            reveal_strlit("tipo");
            reveal_strlit("status");
            reveal_strlit("data_criacao");
            reveal_strlit("data_atualizacao");
            assert("id"@.len() == 2);
            assert("nome"@.len() == 4);
            assert("email"@.len() == 5);
            assert("cpf"@.len() == 3);
            assert("senha"@.len() == 5);
            assert("tipo"@.len() == 4);
            assert("status"@.len() == 6);
            assert("data_criacao"@.len() == 12);
            assert("data_atualizacao"@.len() == 16);
            assert("nome"@[0] == 'n');
            assert("tipo"@[0] == 't');
            assert("email"@[0] == 'e');
            assert("senha"@[0] == 's');
            assert(chave1_g@ != chave2_g@);
            assert(chave1_g@ != chave3_g@);
            assert(chave1_g@ != chave4_g@);
            assert(chave1_g@ != chave5_g@);
            assert(chave1_g@ != chave6_g@);
            assert(chave1_g@ != chave7_g@);
            assert(chave1_g@ != chave8_g@);
            assert(chave1_g@ != chave9_g@);
            assert(chave2_g@ != chave3_g@);
            assert(chave2_g@ != chave4_g@);
            assert(chave2_g@ != chave5_g@);
            assert(chave2_g@ != chave6_g@);
            assert(chave2_g@ != chave7_g@);
            assert(chave2_g@ != chave8_g@);
            assert(chave2_g@ != chave9_g@);
            assert(chave3_g@ != chave4_g@);
            assert(chave3_g@ != chave5_g@);
            assert(chave3_g@ != chave6_g@);
            assert(chave3_g@ != chave7_g@);
            assert(chave3_g@ != chave8_g@);
            assert(chave3_g@ != chave9_g@);
            assert(chave4_g@ != chave5_g@);
            assert(chave4_g@ != chave6_g@);
            assert(chave4_g@ != chave7_g@);
            assert(chave4_g@ != chave8_g@);
            assert(chave4_g@ != chave9_g@);
            assert(chave5_g@ != chave6_g@);
            assert(chave5_g@ != chave7_g@);
            assert(chave5_g@ != chave8_g@);
            assert(chave5_g@ != chave9_g@);
            assert(chave6_g@ != chave7_g@);
            assert(chave6_g@ != chave8_g@);
            assert(chave6_g@ != chave9_g@);
            assert(chave7_g@ != chave8_g@);
            assert(chave7_g@ != chave9_g@);
            assert(chave8_g@ != chave9_g@);
            assert(mapa1 == mapa0.insert(chave1_g, valor1_g));
            assert(mapa2 == mapa1.insert(chave2_g, valor2_g));
            assert(mapa3 == mapa2.insert(chave3_g, valor3_g));
            assert(mapa4 == mapa3.insert(chave4_g, valor4_g));
            assert(mapa5 == mapa4.insert(chave5_g, valor5_g));
            assert(mapa6 == mapa5.insert(chave6_g, valor6_g));
            assert(mapa7 == mapa6.insert(chave7_g, valor7_g));
            assert(mapa8 == mapa7.insert(chave8_g, valor8_g));
            assert(mapa9 == mapa8.insert(chave9_g, valor9_g));
            assert(mapa1.contains_key(chave1_g) && mapa1[chave1_g] == valor1_g);
            assert(mapa2.contains_key(chave1_g) && mapa2[chave1_g] == valor1_g);
            assert(mapa3.contains_key(chave1_g) && mapa3[chave1_g] == valor1_g);
            assert(mapa4.contains_key(chave1_g) && mapa4[chave1_g] == valor1_g);
            assert(mapa5.contains_key(chave1_g) && mapa5[chave1_g] == valor1_g);
            assert(mapa6.contains_key(chave1_g) && mapa6[chave1_g] == valor1_g);
            assert(mapa7.contains_key(chave1_g) && mapa7[chave1_g] == valor1_g);
            assert(mapa8.contains_key(chave1_g) && mapa8[chave1_g] == valor1_g);
            assert(mapa9.contains_key(chave1_g) && mapa9[chave1_g] == valor1_g);
            assert(mapa2.contains_key(chave2_g) && mapa2[chave2_g] == valor2_g);
            assert(mapa3.contains_key(chave2_g) && mapa3[chave2_g] == valor2_g);
            assert(mapa4.contains_key(chave2_g) && mapa4[chave2_g] == valor2_g);
            assert(mapa5.contains_key(chave2_g) && mapa5[chave2_g] == valor2_g);
            assert(mapa6.contains_key(chave2_g) && mapa6[chave2_g] == valor2_g);
            assert(mapa7.contains_key(chave2_g) && mapa7[chave2_g] == valor2_g);
            assert(mapa8.contains_key(chave2_g) && mapa8[chave2_g] == valor2_g);
            assert(mapa9.contains_key(chave2_g) && mapa9[chave2_g] == valor2_g);
            assert(mapa3.contains_key(chave3_g) && mapa3[chave3_g] == valor3_g);
            assert(mapa4.contains_key(chave3_g) && mapa4[chave3_g] == valor3_g);
            assert(mapa5.contains_key(chave3_g) && mapa5[chave3_g] == valor3_g);
            assert(mapa6.contains_key(chave3_g) && mapa6[chave3_g] == valor3_g);
            assert(mapa7.contains_key(chave3_g) && mapa7[chave3_g] == valor3_g);
            assert(mapa8.contains_key(chave3_g) && mapa8[chave3_g] == valor3_g);
            assert(mapa9.contains_key(chave3_g) && mapa9[chave3_g] == valor3_g);
            assert(mapa4.contains_key(chave4_g) && mapa4[chave4_g] == valor4_g);
            assert(mapa5.contains_key(chave4_g) && mapa5[chave4_g] == valor4_g);
            assert(mapa6.contains_key(chave4_g) && mapa6[chave4_g] == valor4_g);
            assert(mapa7.contains_key(chave4_g) && mapa7[chave4_g] == valor4_g);
            assert(mapa8.contains_key(chave4_g) && mapa8[chave4_g] == valor4_g);
            assert(mapa9.contains_key(chave4_g) && mapa9[chave4_g] == valor4_g);
            assert(mapa5.contains_key(chave5_g) && mapa5[chave5_g] == valor5_g);
            assert(mapa6.contains_key(chave5_g) && mapa6[chave5_g] == valor5_g);
            assert(mapa7.contains_key(chave5_g) && mapa7[chave5_g] == valor5_g);
            assert(mapa8.contains_key(chave5_g) && mapa8[chave5_g] == valor5_g);
            assert(mapa9.contains_key(chave5_g) && mapa9[chave5_g] == valor5_g);
            assert(mapa6.contains_key(chave6_g) && mapa6[chave6_g] == valor6_g);
            assert(mapa7.contains_key(chave6_g) && mapa7[chave6_g] == valor6_g);
            assert(mapa8.contains_key(chave6_g) && mapa8[chave6_g] == valor6_g);
            assert(mapa9.contains_key(chave6_g) && mapa9[chave6_g] == valor6_g);
            assert(mapa7.contains_key(chave7_g) && mapa7[chave7_g] == valor7_g);
            assert(mapa8.contains_key(chave7_g) && mapa8[chave7_g] == valor7_g);
            assert(mapa9.contains_key(chave7_g) && mapa9[chave7_g] == valor7_g);
            assert(mapa8.contains_key(chave8_g) && mapa8[chave8_g] == valor8_g);
            assert(mapa9.contains_key(chave8_g) && mapa9[chave8_g] == valor8_g);
            assert(mapa9.contains_key(chave9_g) && mapa9[chave9_g] == valor9_g);
            assert forall|k: String| #[trigger] columns@.contains_key(k) implies nome_coluna_usuario(k@) by {
                if k == chave9_g {
                } else {
                if k == chave8_g {
                } else {
                if k == chave7_g {
                } else {
                if k == chave6_g {
                } else {
                if k == chave5_g {
                } else {
                if k == chave4_g {
                } else {
                if k == chave3_g {
                } else {
                if k == chave2_g {
                } else {
                if k == chave1_g {
                } else {
                assert(mapa0.contains_key(k));
                assert(false);
                }
                }
                }
                }
                }
                }
                }
                }
                }
            }
        }
    }
    columns
}

/// Builds the user record that a database row carries, from its plain
/// column values. Every field is validated: a malformed CPF, role or status
/// text is rejected with `InvalidArgument`.
#[allow(clippy::too_many_arguments)]
pub fn usuario_de_linha(
    id: usize,
    nome: String,
    email: String,
    cpf: String,
    senha: String,
    tipo: &str,
    status: &str,
    data_criacao: String,
    data_atualizacao: String,
) -> (r: Result<Usuario, DomainError>)
    ensures
        match r {
            Ok(u) => {
                &&& cpf_valido(cpf@)
                &&& tipo_de_nome(tipo@) is Some
                &&& status_usuario_de_nome(status@) is Some
                &&& u@ == (UsuarioView {
                    id: id as int,
                    nome: nome@,
                    email: email@,
                    cpf: cpf@,
                    senha: senha@,
                    tipo: tipo_de_nome(tipo@)->Some_0,
                    status: status_usuario_de_nome(status@)->Some_0,
                    data_criacao: data_criacao@,
                    data_atualizacao: data_atualizacao@,
                })
            },
            Err(e) => {
                &&& e == DomainError::InvalidArgument
                &&& !(cpf_valido(cpf@) && tipo_de_nome(tipo@) is Some
                    && status_usuario_de_nome(status@) is Some)
            },
        },
{
    let cpf = Cpf::new(cpf)?;
    let tipo = Tipo::parse(tipo)?;
    let status = Status::parse(status)?;
    Ok(Usuario::new(id, nome, email, cpf, senha, tipo, status, data_criacao, data_atualizacao))
}

} // verus!
