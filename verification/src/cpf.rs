use vstd::prelude::*;

use crate::domain_error::DomainError;

verus! {

/// What the character at position `i` of a well-formed CPF number must be:
/// a dot after each of the first two groups of three digits, a dash before
/// the final pair, and a decimal digit everywhere else.
pub open spec fn posicao_cpf_valida(s: Seq<char>, i: int) -> bool {
    if i == 3 || i == 7 {
        s[i] == '.'
    } else if i == 11 {
        s[i] == '-'
    } else {
        48 <= s[i] as u32 <= 57
    }
}

/// Whether `s` has the canonical printed shape of a CPF document number,
/// `ddd.ddd.ddd-dd` with `d` a decimal digit.
pub open spec fn cpf_valido(s: Seq<char>) -> bool {
    s.len() == 14 && (forall|i: int| 0 <= i < 14 ==> #[trigger] posicao_cpf_valida(s, i))
}

/// A customer's CPF document number, accepted only in its canonical shape.
#[derive(Debug)]
pub struct Cpf {
    pub numero: String,
}

impl View for Cpf {
    type V = Seq<char>;

    open spec fn view(&self) -> Seq<char> {
        self.numero@
    }
}

impl Clone for Cpf {
    fn clone(&self) -> (r: Self)
        ensures
            r@ == self@,
    {
        Cpf { numero: self.numero.clone() }
    }
}

impl Cpf {
    /// Accepts `numero` exactly when it has the canonical CPF shape.
    pub fn new(numero: String) -> (r: Result<Cpf, DomainError>)
        ensures
            cpf_valido(numero@) ==> (r matches Ok(c) && c@ == numero@),
            !cpf_valido(numero@) ==> r === Err(DomainError::InvalidArgument),
    {
        let tam = numero.as_str().unicode_len();
        if tam != 14 {
            return Err(DomainError::InvalidArgument);
        }
        let mut i: usize = 0;
        while i < 14
            invariant
                numero@.len() == 14,
                i <= 14,
                forall|j: int| 0 <= j < i ==> #[trigger] posicao_cpf_valida(numero@, j),
            decreases 14 - i,
        {
            let c = numero.as_str().get_char(i);
            let ok = if i == 3 || i == 7 {
                c == '.'
            } else if i == 11 {
                c == '-'
            } else {
                48 <= c as u32 && c as u32 <= 57
            };
            if !ok {
                proof {
                    assert(!posicao_cpf_valida(numero@, i as int));
                }
                return Err(DomainError::InvalidArgument);
            }
            i += 1;
        }
        Ok(Cpf { numero })
    }

    /// The stored number, for display and persistence.
    pub fn numero(&self) -> (r: &str)
        ensures
            r@ == self@,
    {
        self.numero.as_str()
    }
}

} // verus!
