//! Operações sobre texto usadas pelos padronizadores: classificação de caracteres,
//! conversão para maiúsculas, remoção de espaços nas pontas e transliteração.
use vstd::prelude::*;

verus! {

/// Se `c` tem a propriedade Unicode `White_Space`.
pub uninterp spec fn espaco_of(c: char) -> bool;

/// Se `c` tem a propriedade Unicode `Alphabetic`.
pub uninterp spec fn letra_of(c: char) -> bool;

/// Espaço segundo a propriedade Unicode `White_Space`: entre os caracteres ASCII, o espaço e
/// os controles de tabulação a retorno de carro.
pub open spec fn espaco(c: char) -> bool {
    if (c as u32) < 128 {
        c == ' ' || ('\t' <= c && c <= '\r')
    } else {
        espaco_of(c)
    }
}

/// Letra segundo a propriedade Unicode `Alphabetic`: entre os caracteres ASCII, só `A` a `Z` e
/// `a` a `z`.
pub open spec fn letra(c: char) -> bool {
    if (c as u32) < 128 {
        ('A' <= c && c <= 'Z') || ('a' <= c && c <= 'z')
    } else {
        letra_of(c)
    }
}

/// Dígito decimal ASCII.
pub open spec fn eh_digito(c: char) -> bool {
    '0' <= c && c <= '9'
}

/// Relies on `char::is_whitespace`: the Unicode `White_Space` property, which in ASCII holds of
/// the space and of U+0009 to U+000D only.
#[verifier::external_body]
pub(crate) fn eh_espaco(c: char) -> (r: bool)
    ensures
        (c as u32) < 128 ==> (r <==> (c == ' ' || ('\t' <= c && c <= '\r'))),
        (c as u32) >= 128 ==> r == espaco_of(c),
{
    c.is_whitespace()
}

/// Relies on `char::is_alphabetic`: the Unicode `Alphabetic` property, which in ASCII holds of
/// the letters `A` to `Z` and `a` to `z` only.
#[verifier::external_body]
pub(crate) fn eh_letra(c: char) -> (r: bool)
    ensures
        (c as u32) < 128 ==> (r <==> (('A' <= c && c <= 'Z') || ('a' <= c && c <= 'z'))),
        (c as u32) >= 128 ==> r == letra_of(c),
{
    c.is_alphabetic()
}

/// Maiúsculas segundo `str::to_uppercase`.
pub uninterp spec fn maiusculas_of(s: Seq<char>) -> Seq<char>;

/// Transliteração para ASCII segundo `unidecode::unidecode`.
pub uninterp spec fn translit_of(s: Seq<char>) -> Seq<char>;

pub open spec fn eh_ascii(s: Seq<char>) -> bool {
    forall|i: int| 0 <= i < s.len() ==> (#[trigger] s[i] as u32) < 128
}

/// Maiúscula ASCII de `c`; os demais caracteres ficam como estão.
pub open spec fn maiuscula_ascii(c: char) -> char {
    if 'a' <= c && c <= 'z' {
        ((c as u32) - 32) as char
    } else {
        c
    }
}

/// Maiúsculas de `s`: em texto ASCII, `a` a `z` viram `A` a `Z` e o resto fica.
pub open spec fn maiusculas_spec(s: Seq<char>) -> Seq<char> {
    if eh_ascii(s) {
        s.map_values(|c: char| maiuscula_ascii(c))
    } else {
        maiusculas_of(s)
    }
}

/// Transliteração de `s`: texto ASCII fica como está.
pub open spec fn translit_spec(s: Seq<char>) -> Seq<char> {
    if eh_ascii(s) {
        s
    } else {
        translit_of(s)
    }
}

/// `s` sem os espaços do início.
pub open spec fn sem_espacos_no_inicio(s: Seq<char>) -> Seq<char>
    decreases s.len(),
{
    if s.len() > 0 && espaco(s[0]) {
        sem_espacos_no_inicio(s.drop_first())
    } else {
        s
    }
}

/// `s` sem os espaços do fim.
pub open spec fn sem_espacos_no_fim(s: Seq<char>) -> Seq<char>
    decreases s.len(),
{
    if s.len() > 0 && espaco(s.last()) {
        sem_espacos_no_fim(s.drop_last())
    } else {
        s
    }
}

/// `s` sem os espaços das duas pontas.
pub open spec fn aparado(s: Seq<char>) -> Seq<char> {
    sem_espacos_no_fim(sem_espacos_no_inicio(s))
}

/// Relies on `str::to_uppercase`: the result depends on the characters alone, and on ASCII
/// text it turns `a` to `z` into `A` to `Z`, one for one, and keeps the other characters.
#[verifier::external_body]
pub(crate) fn maiusculas(s: &str) -> (r: String)
    ensures
        eh_ascii(s@) ==> r@ == s@.map_values(|c: char| maiuscula_ascii(c)),
        !eh_ascii(s@) ==> r@ == maiusculas_of(s@),
{
    s.to_uppercase()
}

/// Relies on `str::trim`: removes the leading and trailing characters with the Unicode
/// `White_Space` property.
#[verifier::external_body]
pub(crate) fn aparar(s: &str) -> (r: &str)
    ensures
        r@ == aparado(s@),
{
    s.trim()
}

/// Relies on `unidecode::unidecode`: an ASCII transliteration that depends on the characters
/// alone, maps every ASCII character to itself and returns ASCII text.
#[verifier::external_body]
pub(crate) fn transliterar(s: &str) -> (r: String)
    ensures
        eh_ascii(s@) ==> r@ == s@,
        !eh_ascii(s@) ==> r@ == translit_of(s@),
        eh_ascii(r@),
{
    unidecode::unidecode(s)
}

/// Tirar espaços do início mantém o texto ASCII, e o resultado não começa com espaço.
pub proof fn lemma_inicio(s: Seq<char>)
    ensures
        eh_ascii(s) ==> eh_ascii(sem_espacos_no_inicio(s)),
        sem_espacos_no_inicio(s).len() > 0 ==> !espaco(sem_espacos_no_inicio(s)[0]),
        exists|i: int| 0 <= i <= s.len() && sem_espacos_no_inicio(s) == s.subrange(i, s.len() as int),
    decreases s.len(),
{
    if s.len() > 0 && espaco(s[0]) {
        lemma_inicio(s.drop_first());
        let i = choose|i: int|
            0 <= i <= s.drop_first().len() && sem_espacos_no_inicio(s.drop_first())
                == s.drop_first().subrange(i, s.drop_first().len() as int);
        assert(s.drop_first().subrange(i, s.drop_first().len() as int) =~= s.subrange(
            i + 1,
            s.len() as int,
        ));
    } else {
        assert(s.subrange(0, s.len() as int) =~= s);
    }
}

/// Tirar espaços do fim dá um prefixo, que não termina com espaço.
pub proof fn lemma_fim(s: Seq<char>)
    ensures
        sem_espacos_no_fim(s).len() > 0 ==> !espaco(sem_espacos_no_fim(s).last()),
        exists|j: int| 0 <= j <= s.len() && sem_espacos_no_fim(s) == s.subrange(0, j),
    decreases s.len(),
{
    if s.len() > 0 && espaco(s.last()) {
        lemma_fim(s.drop_last());
        let j = choose|j: int|
            0 <= j <= s.drop_last().len() && sem_espacos_no_fim(s.drop_last())
                == s.drop_last().subrange(0, j);
        assert(s.drop_last().subrange(0, j) =~= s.subrange(0, j));
    } else {
        assert(s.subrange(0, s.len() as int) =~= s);
    }
}

/// O texto aparado é um trecho contíguo de `s` (logo ASCII se `s` é), e aparar de novo não
/// muda nada.
pub proof fn lemma_aparado(s: Seq<char>)
    ensures
        exists|i: int, j: int| 0 <= i <= j <= s.len() && aparado(s) == s.subrange(i, j),
        aparado(aparado(s)) == aparado(s),
{
    let a = sem_espacos_no_inicio(s);
    lemma_inicio(s);
    lemma_fim(a);
    let i = choose|i: int| 0 <= i <= s.len() && a == s.subrange(i, s.len() as int);
    let j = choose|j: int| 0 <= j <= a.len() && sem_espacos_no_fim(a) == a.subrange(0, j);
    assert(aparado(s) =~= s.subrange(i, i + j));
    let b = aparado(s);
    // b não começa nem termina com espaço
    if b.len() > 0 {
        assert(b[0] == a[0]);
        assert(sem_espacos_no_inicio(b) == b);
        assert(sem_espacos_no_fim(b) == b);
    } else {
        assert(sem_espacos_no_inicio(b) == b);
        assert(sem_espacos_no_fim(b) == b);
    }
}

/// Relies on `String`'s `FromIterator<char>`: the characters, in order.
#[verifier::external_body]
pub(crate) fn string_de_chars(v: &Vec<char>) -> (r: String)
    ensures
        r@ == v@,
{
    v.iter().collect()
}

/// Os caracteres de `s`, em ordem.
pub fn chars_de(s: &str) -> (r: Vec<char>)
    ensures
        r@ == s@,
{
    let mut v: Vec<char> = Vec::new();
    for c in it: s.chars()
        invariant
            it.seq() == s@,
            v@ == it.seq().subrange(0, it.index()),
    {
        v.push(c);
    }
    v
}

} // verus!
