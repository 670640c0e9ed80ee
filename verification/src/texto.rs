//! Text: keys written as decimal numbers, and lists of account names.

use vstd::prelude::*;
use vstd::string::StringExecFns;

verus! {

/// The character that writes a single decimal digit.
pub open spec fn cifra(d: int) -> char {
    if d == 0 {
        '0'
    } else if d == 1 {
        '1'
    } else if d == 2 {
        '2'
    } else if d == 3 {
        '3'
    } else if d == 4 {
        '4'
    } else if d == 5 {
        '5'
    } else if d == 6 {
        '6'
    } else if d == 7 {
        '7'
    } else if d == 8 {
        '8'
    } else {
        '9'
    }
}

/// A number written in base ten, without leading zeros.
pub open spec fn decimal(n: nat) -> Seq<char>
    decreases n,
{
    if n < 10 {
        seq![cifra(n as int)]
    } else {
        decimal(n / 10).push(cifra((n % 10) as int))
    }
}

/// Different digits are written with different characters.
pub proof fn lema_cifra_inyectiva(x: int, y: int)
    requires
        0 <= x < 10,
        0 <= y < 10,
        cifra(x) == cifra(y),
    ensures
        x == y,
{
    assert(cifra(x) as int == 48 + x);
    assert(cifra(y) as int == 48 + y);
}

/// A number in base ten is never empty.
pub proof fn lema_decimal_no_vacio(n: nat)
    ensures
        decimal(n).len() >= 1,
        n >= 10 ==> decimal(n).len() >= 2,
    decreases n,
{
    if n >= 10 {
        lema_decimal_no_vacio(n / 10);
    }
}

/// Two numbers that are written alike are the same number.
pub proof fn lema_decimal_inyectiva(a: nat, b: nat)
    requires
        decimal(a) == decimal(b),
    ensures
        a == b,
    decreases a,
{
    lema_decimal_no_vacio(a);
    lema_decimal_no_vacio(b);
    if a < 10 || b < 10 {
        assert(a < 10 && b < 10);
        assert(decimal(a) == seq![cifra(a as int)]);
        assert(decimal(b) == seq![cifra(b as int)]);
        assert(seq![cifra(a as int)][0] == cifra(a as int));
        assert(seq![cifra(b as int)][0] == cifra(b as int));
        lema_cifra_inyectiva(a as int, b as int);
    } else {
        let da = decimal(a / 10);
        let db = decimal(b / 10);
        let ca = cifra((a % 10) as int);
        let cb = cifra((b % 10) as int);
        assert(da.push(ca) == db.push(cb));
        assert(da.push(ca).last() == ca);
        assert(db.push(cb).last() == cb);
        assert(da.push(ca).drop_last() =~= da);
        assert(db.push(cb).drop_last() =~= db);
        assert(da == db);
        lema_decimal_inyectiva(a / 10, b / 10);
        lema_cifra_inyectiva((a % 10) as int, (b % 10) as int);
    }
}

/// The text of one decimal digit.
fn texto_de_cifra(d: u64) -> (t: &'static str)
    requires
        d < 10,
    ensures
        t@ == seq![cifra(d as int)],
{
    proof {
        reveal_strlit("0");
        reveal_strlit("1");
        reveal_strlit("2");
        reveal_strlit("3");
        reveal_strlit("4");
        reveal_strlit("5");
        reveal_strlit("6");
        reveal_strlit("7");
        reveal_strlit("8");
        reveal_strlit("9");
    }
    let t = if d == 0 {
        "0"
    } else if d == 1 {
        "1"
    } else if d == 2 {
        "2"
    } else if d == 3 {
        "3"
    } else if d == 4 {
        "4"
    } else if d == 5 {
        "5"
    } else if d == 6 {
        "6"
    } else if d == 7 {
        "7"
    } else if d == 8 {
        "8"
    } else {
        "9"
    };
    assert(t@ =~= seq![cifra(d as int)]);
    t
}

/// Writes a number in base ten.
pub fn escribir_decimal(n: u64) -> (texto: String)
    ensures
        texto@ == decimal(n as nat),
    decreases n,
{
    if n < 10 {
        String::from_str(texto_de_cifra(n))
    } else {
        let mut texto = escribir_decimal(n / 10);
        texto.append(texto_de_cifra(n % 10));
        assert(texto@ =~= decimal(n as nat));
        texto
    }
}

/// The texts of a list of strings, in order.
pub open spec fn vistas(v: Seq<String>) -> Seq<Seq<char>> {
    v.map_values(|s: String| s@)
}

/// Whether `buscada` is one of the strings of `lista`.
pub fn contiene(lista: &Vec<String>, buscada: &String) -> (esta: bool)
    ensures
        esta == vistas(lista@).contains(buscada@),
{
    let mut i: usize = 0;
    while i < lista.len()
        invariant
            i <= lista.len(),
            forall|j: int| 0 <= j < i ==> vistas(lista@)[j] != buscada@,
        decreases lista.len() - i,
    {
        if lista[i] == *buscada {
            assert(vistas(lista@)[i as int] == buscada@);
            return true;
        }
        i += 1;
    }
    false
}

/// A copy of a list of strings.
pub fn copiar_cadenas(lista: &Vec<String>) -> (copia: Vec<String>)
    ensures
        vistas(copia@) == vistas(lista@),
{
    let mut copia: Vec<String> = Vec::new();
    let mut i: usize = 0;
    while i < lista.len()
        invariant
            i <= lista.len(),
            copia.len() == i,
            forall|j: int| 0 <= j < i ==> copia@[j]@ == lista@[j]@,
        decreases lista.len() - i,
    {
        copia.push(lista[i].clone());
        i += 1;
    }
    assert(vistas(copia@) =~= vistas(lista@));
    copia
}

/// Whether no string occurs twice in `lista`.
pub fn sin_repetidos(lista: &Vec<String>) -> (si: bool)
    ensures
        si == vistas(lista@).no_duplicates(),
{
    let ghost s = vistas(lista@);
    let mut i: usize = 0;
    while i < lista.len()
        invariant
            i <= lista.len(),
            s == vistas(lista@),
            forall|a: int, b: int| 0 <= a < b < i ==> s[a] != s[b],
        decreases lista.len() - i,
    {
        let mut j: usize = 0;
        while j < i
            invariant
                j <= i,
                i < lista.len(),
                s == vistas(lista@),
                forall|a: int| 0 <= a < j ==> s[a] != s[i as int],
            decreases i - j,
        {
            if lista[j] == lista[i] {
                assert(s[j as int] == s[i as int]);
                return false;
            }
            j += 1;
        }
        i += 1;
    }
    true
}

/// Whether every string of `lista` is one of the strings of `otra`.
pub fn todos_en(lista: &Vec<String>, otra: &Vec<String>) -> (si: bool)
    ensures
        si == (forall|c: Seq<char>| #[trigger]
            vistas(lista@).contains(c) ==> vistas(otra@).contains(c)),
{
    let ghost s = vistas(lista@);
    let mut i: usize = 0;
    while i < lista.len()
        invariant
            i <= lista.len(),
            s == vistas(lista@),
            forall|a: int| 0 <= a < i ==> vistas(otra@).contains(#[trigger] s[a]),
        decreases lista.len() - i,
    {
        if !contiene(otra, &lista[i]) {
            assert(s.contains(s[i as int]));
            return false;
        }
        i += 1;
    }
    true
}

} // verus!
