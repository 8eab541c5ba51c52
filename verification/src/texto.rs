//! Verified helpers over character sequences: equality, prefixes, and the
//! numeric grammars that path parameters and form fields must satisfy.
use vstd::prelude::*;

verus! {

use vstd::string::StrSliceExecFns;

// ---------------------------------------------------------------------------
// Equality and prefixes
// ---------------------------------------------------------------------------

/// Character-by-character equality of two text slices.
pub fn textos_iguales(a: &str, b: &str) -> (r: bool)
    ensures
        r == (a@ == b@),
{
    let largo_a = a.unicode_len();
    let largo_b = b.unicode_len();
    if largo_a != largo_b {
        return false;
    }
    let mut i: usize = 0;
    while i < largo_a
        invariant
            largo_a == a@.len(),
            largo_b == b@.len(),
            largo_a == largo_b,
            i <= largo_a,
            forall|j: int| 0 <= j < i ==> a@[j] == b@[j],
        decreases largo_a - i,
    {
        if a.get_char(i) != b.get_char(i) {
            return false;
        }
        i = i + 1;
    }
    proof {
        assert(a@ =~= b@);
    }
    true
}

/// Does `s` start with `prefijo`?
pub fn comienza_con(s: &str, prefijo: &str) -> (r: bool)
    ensures
        r == (prefijo@.len() <= s@.len() && s@.take(prefijo@.len() as int) == prefijo@),
{
    let largo_s = s.unicode_len();
    let largo_p = prefijo.unicode_len();
    if largo_p > largo_s {
        return false;
    }
    let mut i: usize = 0;
    while i < largo_p
        invariant
            largo_s == s@.len(),
            largo_p == prefijo@.len(),
            largo_p <= largo_s,
            i <= largo_p,
            forall|j: int| 0 <= j < i ==> s@[j] == prefijo@[j],
        decreases largo_p - i,
    {
        if s.get_char(i) != prefijo.get_char(i) {
            proof {
                assert(s@.take(prefijo@.len() as int)[i as int] == s@[i as int]);
            }
            return false;
        }
        i = i + 1;
    }
    proof {
        assert(s@.take(prefijo@.len() as int) =~= prefijo@);
    }
    true
}

/// Does `s` contain the character `c`?
pub fn contiene_caracter(s: &str, c: char) -> (r: bool)
    ensures
        r == (exists|i: int| 0 <= i < s@.len() && s@[i] == c),
{
    let largo = s.unicode_len();
    let mut i: usize = 0;
    while i < largo
        invariant
            largo == s@.len(),
            i <= largo,
            forall|j: int| 0 <= j < i ==> s@[j] != c,
        decreases largo - i,
    {
        if s.get_char(i) == c {
            return true;
        }
        i = i + 1;
    }
    false
}

// ---------------------------------------------------------------------------
// Integer grammar: an optional sign followed by one or more decimal digits
// ---------------------------------------------------------------------------

pub open spec fn es_digito(c: char) -> bool {
    '0' <= c && c <= '9'
}

pub open spec fn valor_digito(c: char) -> int {
    c as int - '0' as int
}

pub open spec fn solo_digitos(s: Seq<char>) -> bool {
    forall|i: int| 0 <= i < s.len() ==> es_digito(#[trigger] s[i])
}

/// The number denoted by a sequence of decimal digits, most significant first.
pub open spec fn valor_digitos(s: Seq<char>) -> int
    decreases s.len(),
{
    if s.len() == 0 {
        0
    } else {
        valor_digitos(s.drop_last()) * 10 + valor_digito(s.last())
    }
}

pub open spec fn tiene_signo(s: Seq<char>) -> bool {
    s.len() > 0 && (s[0] == '-' || s[0] == '+')
}

/// The digits of a signed literal, with any leading sign removed.
pub open spec fn cuerpo_numerico(s: Seq<char>) -> Seq<char> {
    if tiene_signo(s) {
        s.skip(1)
    } else {
        s
    }
}

pub open spec fn es_entero(s: Seq<char>) -> bool {
    cuerpo_numerico(s).len() > 0 && solo_digitos(cuerpo_numerico(s))
}

pub open spec fn valor_entero(s: Seq<char>) -> int {
    if s.len() > 0 && s[0] == '-' {
        -valor_digitos(cuerpo_numerico(s))
    } else {
        valor_digitos(cuerpo_numerico(s))
    }
}

/// Reads a signed decimal literal as a machine integer. `None` exactly when
/// the text is not an integer or its value does not fit in an `i32`.
pub fn parsear_entero(s: &str) -> (r: Option<i32>)
    ensures
        r is Some <==> es_entero(s@) && i32::MIN <= valor_entero(s@) <= i32::MAX,
        r is Some ==> r->0 as int == valor_entero(s@),
{
    let largo = s.unicode_len();
    if largo == 0 {
        return None;
    }
    let primero = s.get_char(0);
    let negativo = primero == '-';
    let inicio: usize = if primero == '-' || primero == '+' {
        1
    } else {
        0
    };
    proof {
        assert(cuerpo_numerico(s@) =~= s@.skip(inicio as int));
    }
    if inicio >= largo {
        // a bare sign has an empty digit body
        return None;
    }
    let mut i: usize = inicio;
    let mut acumulado: u64 = 0;
    let mut desbordado = false;
    while i < largo
        invariant
            largo == s@.len(),
            inicio <= i <= largo,
            inicio <= 1,
            cuerpo_numerico(s@) =~= s@.skip(inicio as int),
            solo_digitos(s@.subrange(inicio as int, i as int)),
            !desbordado ==> acumulado <= u32::MAX && acumulado as int == valor_digitos(
                s@.subrange(inicio as int, i as int),
            ),
            desbordado ==> valor_digitos(s@.subrange(inicio as int, i as int)) > u32::MAX,
        decreases largo - i,
    {
        let c = s.get_char(i);
        if c < '0' || c > '9' {
            proof {
                assert(cuerpo_numerico(s@)[i - inicio] == c);
                assert(!es_entero(s@));
            }
            return None;
        }
        let d: u64 = (c as u32 - '0' as u32) as u64;
        proof {
            let previo = s@.subrange(inicio as int, i as int);
            let actual = s@.subrange(inicio as int, i + 1 as int);
            assert(actual.drop_last() =~= previo);
            assert(actual.last() == c);
            assert(valor_digitos(actual) == valor_digitos(previo) * 10 + valor_digito(c));
            assert(solo_digitos(actual)) by {
                assert(forall|j: int| 0 <= j < previo.len() ==> actual[j] == previo[j]);
            }
        }
        if desbordado {
            proof {
                let previo = s@.subrange(inicio as int, i as int);
                assert(valor_digitos(previo) * 10 + valor_digito(c) > u32::MAX);
            }
        } else {
            let ampliado = acumulado * 10 + d;
            if ampliado > u32::MAX as u64 {
                desbordado = true;
            } else {
                acumulado = ampliado;
            }
        }
        i = i + 1;
    }
    proof {
        assert(s@.subrange(inicio as int, largo as int) =~= cuerpo_numerico(s@));
        assert(es_entero(s@));
    }
    if desbordado {
        proof {
            if s@[0] == '-' {
                assert(valor_entero(s@) < i32::MIN);
            } else {
                assert(valor_entero(s@) > i32::MAX);
            }
        }
        return None;
    }
    if negativo {
        if acumulado > 2147483648u64 {
            return None;
        }
        let magnitud: i64 = acumulado as i64;
        Some((-magnitud) as i32)
    } else {
        if acumulado > 2147483647u64 {
            return None;
        }
        Some(acumulado as i32)
    }
}

// ---------------------------------------------------------------------------
// Decimal grammar: an optional sign, one or more digits, and an optional
// fractional part introduced by a single point
// ---------------------------------------------------------------------------

/// `punto` is the position of the decimal point in `c`, or `c.len()` when the
/// literal has no fractional part.
pub open spec fn decimal_con_punto(c: Seq<char>, punto: int) -> bool {
    &&& 0 < punto <= c.len()
    &&& solo_digitos(c.take(punto))
    &&& (punto < c.len() ==> c[punto] == '.' && punto + 1 < c.len() && solo_digitos(
        c.skip(punto + 1),
    ))
}

pub open spec fn es_decimal(s: Seq<char>) -> bool {
    exists|punto: int| decimal_con_punto(cuerpo_numerico(s), punto)
}

/// Only the first decimal point of the body can satisfy `decimal_con_punto`.
proof fn lema_decimal_primer_punto(c: Seq<char>, k: int)
    requires
        0 <= k <= c.len(),
        k < c.len() ==> c[k] == '.',
        forall|j: int| 0 <= j < k ==> c[j] != '.',
        k == c.len() ==> forall|j: int| 0 <= j < c.len() ==> c[j] != '.',
    ensures
        (exists|punto: int| decimal_con_punto(c, punto)) <==> decimal_con_punto(c, k),
{
    if exists|punto: int| decimal_con_punto(c, punto) {
        let p = choose|p: int| decimal_con_punto(c, p);
        if p < c.len() {
            assert(c[p] == '.');
            assert(!es_digito('.')) by {
                assert('.' as int == 46);
                assert('0' as int == 48);
            }
            if k < p {
                assert(c.take(p)[k] == c[k]);
                assert(false);
            }
            assert(p == k);
        } else {
            // the body is all digits, so it holds no point at all
            assert(forall|j: int| 0 <= j < c.len() ==> es_digito(#[trigger] c.take(p)[j]));
            assert(!es_digito('.')) by {
                assert('.' as int == 46);
                assert('0' as int == 48);
            }
            assert(forall|j: int| 0 <= j < c.len() ==> c[j] != '.') by {
                assert(forall|j: int| 0 <= j < c.len() ==> c.take(p)[j] == c[j]);
            }
            assert(k == c.len());
        }
    }
}

/// Checks a digit run `s[desde..hasta]`.
fn tramo_de_digitos(s: &str, desde: usize, hasta: usize) -> (r: bool)
    requires
        desde <= hasta <= s@.len(),
    ensures
        r == solo_digitos(s@.subrange(desde as int, hasta as int)),
{
    let mut i: usize = desde;
    while i < hasta
        invariant
            desde <= i <= hasta <= s@.len(),
            forall|j: int| desde <= j < i ==> es_digito(#[trigger] s@[j]),
        decreases hasta - i,
    {
        let c = s.get_char(i);
        if c < '0' || c > '9' {
            proof {
                assert(s@.subrange(desde as int, hasta as int)[i - desde] == c);
            }
            return false;
        }
        i = i + 1;
    }
    proof {
        assert(forall|j: int| 0 <= j < hasta - desde ==> es_digito(
            #[trigger] s@.subrange(desde as int, hasta as int)[j],
        ));
    }
    true
}

/// Does the text denote a plain decimal number — an optional sign, digits,
/// and an optional nonempty fraction after a single point?
pub fn es_decimal_valido(s: &str) -> (r: bool)
    ensures
        r == es_decimal(s@),
{
    let largo = s.unicode_len();
    if largo == 0 {
        return false;
    }
    let primero = s.get_char(0);
    let inicio: usize = if primero == '-' || primero == '+' {
        1
    } else {
        0
    };
    proof {
        assert(cuerpo_numerico(s@) =~= s@.skip(inicio as int));
    }
    // find the first decimal point of the body
    let mut k: usize = inicio;
    while k < largo && s.get_char(k) != '.'
        invariant
            largo == s@.len(),
            inicio <= k <= largo,
            forall|j: int| inicio <= j < k ==> s@[j] != '.',
        decreases largo - k,
    {
        k = k + 1;
    }
    proof {
        let cuerpo = s@.skip(inicio as int);
        lema_decimal_primer_punto(cuerpo, k - inicio);
    }
    let valido: bool = if k == inicio {
        // an empty run of whole digits, or a leading point
        false
    } else if k == largo {
        tramo_de_digitos(s, inicio, largo)
    } else if k + 1 >= largo {
        // a trailing point with no fraction
        false
    } else {
        let enteros = tramo_de_digitos(s, inicio, k);
        let fraccion = tramo_de_digitos(s, k + 1, largo);
        enteros && fraccion
    };
    proof {
        let cuerpo = s@.skip(inicio as int);
        assert(cuerpo.take(k - inicio) =~= s@.subrange(inicio as int, k as int));
        if k < largo {
            assert(cuerpo.skip(k - inicio + 1) =~= s@.subrange(k + 1 as int, largo as int));
        }
        assert(valido == decimal_con_punto(cuerpo, k - inicio));
    }
    valido
}

} // verus!
