use vstd::prelude::*;

verus! {

/// The index of the first element of `s` that satisfies `p`, or -1 when no
/// element does. The in-memory stores resolve lookups by identity to the
/// first matching record, and their contracts are stated with this function.
pub open spec fn indice_primeiro<T>(s: Seq<T>, p: spec_fn(T) -> bool) -> int
    decreases s.len(),
{
    if s.len() == 0 {
        -1
    } else if p(s[0]) {
        0
    } else if indice_primeiro(s.skip(1), p) == -1 {
        -1
    } else {
        indice_primeiro(s.skip(1), p) + 1
    }
}

/// While none of the first `i` elements satisfies `p`, the first match in
/// `s` is the first match in what remains after them, shifted by `i`.
pub proof fn lema_indice_salto<T>(s: Seq<T>, p: spec_fn(T) -> bool, i: int)
    requires
        0 <= i <= s.len(),
        forall|j: int| 0 <= j < i ==> !p(s[j]),
    ensures
        indice_primeiro(s, p) == if indice_primeiro(s.skip(i), p) == -1 {
            -1
        } else {
            indice_primeiro(s.skip(i), p) + i
        },
    decreases i,
{
    if i > 0 {
        lema_indice_salto(s, p, i - 1);
        assert(s.skip(i - 1).len() > 0);
        assert(s.skip(i - 1)[0] == s[i - 1]);
        assert(!p(s.skip(i - 1)[0]));
        assert(s.skip(i - 1).skip(1) =~= s.skip(i));
        let r1 = indice_primeiro(s.skip(i - 1), p);
        let r = indice_primeiro(s.skip(i), p);
        lema_indice_caracteriza(s.skip(i), p);
        assert(r1 == if r == -1 { -1int } else { r + 1 });
    } else {
        assert(s.skip(0) =~= s);
    }
}

/// A first match found at index `i`, with nothing earlier matching, is the
/// first match of the whole sequence.
pub proof fn lema_indice_aqui<T>(s: Seq<T>, p: spec_fn(T) -> bool, i: int)
    requires
        0 <= i < s.len(),
        forall|j: int| 0 <= j < i ==> !p(s[j]),
        p(s[i]),
    ensures
        indice_primeiro(s, p) == i,
{
    lema_indice_salto(s, p, i);
    assert(s.skip(i).len() > 0);
    assert(s.skip(i)[0] == s[i]);
}

/// When no element matches, there is no first match.
pub proof fn lema_indice_nenhum<T>(s: Seq<T>, p: spec_fn(T) -> bool)
    requires
        forall|j: int| 0 <= j < s.len() ==> !p(s[j]),
    ensures
        indice_primeiro(s, p) == -1,
{
    lema_indice_salto(s, p, s.len() as int);
    assert(s.skip(s.len() as int) =~= Seq::<T>::empty());
}

/// What the first-match index always satisfies: it is -1 exactly when no
/// element matches, and otherwise it is a matching position preceded only by
/// non-matching ones.
pub proof fn lema_indice_caracteriza<T>(s: Seq<T>, p: spec_fn(T) -> bool)
    ensures
        -1 <= indice_primeiro(s, p) < s.len(),
        indice_primeiro(s, p) == -1 ==> forall|j: int| 0 <= j < s.len() ==> !p(s[j]),
        indice_primeiro(s, p) >= 0 ==> p(s[indice_primeiro(s, p)]),
        forall|j: int| 0 <= j < indice_primeiro(s, p) ==> !p(s[j]),
    decreases s.len(),
{
    if s.len() > 0 && !p(s[0]) {
        lema_indice_caracteriza(s.skip(1), p);
        assert forall|j: int| 0 <= j < s.len() implies s.skip(1).len() == s.len() - 1 && (1 <= j
            < s.len() ==> s.skip(1)[j - 1] == s[j]) by {}
    }
}

} // verus!
