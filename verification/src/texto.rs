use vstd::prelude::*;

verus! {

/// The decimal digit character for `d` (meaningful for `0 <= d <= 9`).
pub open spec fn caractere_digito(d: int) -> char {
    if d == 0 {
        '0'
    } else if d == 1 {
        '1'
    } else if d == 2 {
        '2'
    } else if d == 3 {
        '3'
    } else if d == 4 {
        '4'
    } else if d == 5 {
        '5'
    } else if d == 6 {
        '6'
    } else if d == 7 {
        '7'
    } else if d == 8 {
        '8'
    } else {
        '9'
    }
}

/// The decimal rendering of `n` without sign or padding (meaningful for
/// `n >= 0`).
pub open spec fn digitos(n: int) -> Seq<char>
    decreases n,
{
    if n < 10 {
        seq![caractere_digito(n)]
    } else {
        digitos(n / 10).push(caractere_digito(n % 10))
    }
}

/// The one-character string for the decimal digit `d`.
fn caractere_de(d: usize) -> (r: &'static str)
    requires
        d < 10,
    ensures
        r@ == seq![caractere_digito(d as int)],
{
    proof {
        reveal_strlit("0");
        reveal_strlit("1");
        reveal_strlit("2");
        reveal_strlit("3");
        reveal_strlit("4");
        reveal_strlit("5");
        reveal_strlit("6");
        reveal_strlit("7");
        reveal_strlit("8");
        reveal_strlit("9");
    }
    let r = match d {
        0 => "0",
        1 => "1",
        2 => "2",
        3 => "3",
        4 => "4",
        5 => "5",
        6 => "6",
        7 => "7",
        8 => "8",
        _ => "9",
    };
    proof {
        assert(r@ =~= seq![caractere_digito(d as int)]);
    }
    r
}

/// Renders `n` in decimal, exactly as `digitos` describes it.
pub fn usize_texto(n: usize) -> (r: String)
    ensures
        r@ == digitos(n as int),
    decreases n,
{
    if n < 10 {
        String::from_str(caractere_de(n))
    } else {
        let mut s = usize_texto(n / 10);
        s.append(caractere_de(n % 10));
        proof {
            assert(s@ =~= digitos(n as int));
        }
        s
    }
}

} // verus!
