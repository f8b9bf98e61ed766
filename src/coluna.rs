//! Escolha da coluna de CEPs de uma tabela, pelos nomes e tipos das colunas.
use vstd::prelude::*;

verus! {

/// Minúsculas segundo `str::to_lowercase`.
pub uninterp spec fn minusculas_of(s: Seq<char>) -> Seq<char>;

/// Relies on `str::to_lowercase`: the result depends on the characters alone.
#[verifier::external_body]
fn minusculas(s: &str) -> (r: String)
    ensures
        r@ == minusculas_of(s@),
{
    s.to_lowercase()
}

/// `p` ocorre em `t` a partir da posição `k`.
pub open spec fn ocorre_em(t: Seq<char>, p: Seq<char>, k: int) -> bool {
    0 <= k && k + p.len() <= t.len() && t.subrange(k, k + p.len()) == p
}

/// `p` ocorre em algum ponto de `t`.
pub open spec fn contem(t: Seq<char>, p: Seq<char>) -> bool {
    exists|k: int| ocorre_em(t, p, k)
}

/// Os nomes que indicam uma coluna de CEPs.
pub open spec fn nomes_de_cep() -> Seq<Seq<char>> {
    seq!["cep"@, "CEP"@, "cep_dom"@, "postal_code"@, "zip_code"@]
}

/// O nome, em minúsculas, contém algum dos nomes de CEP em minúsculas.
pub open spec fn parece_cep(nome: Seq<char>) -> bool {
    exists|j: int|
        0 <= j < nomes_de_cep().len() && contem(
            minusculas_of(nome),
            minusculas_of(#[trigger] nomes_de_cep()[j]),
        )
}

fn vetor_nomes_de_cep() -> (r: Vec<&'static str>)
    ensures
        r@.map_values(|s: &str| s@) == nomes_de_cep(),
{
    let v: Vec<&'static str> = vec!["cep", "CEP", "cep_dom", "postal_code", "zip_code"];
    assert(v@.map_values(|s: &str| s@) =~= nomes_de_cep());
    v
}

fn ocorre_exec(t: &Vec<char>, p: &Vec<char>, k: usize) -> (r: bool)
    requires
        k + p.len() <= t.len(),
    ensures
        r == ocorre_em(t@, p@, k as int),
{
    let mut i: usize = 0;
    while i < p.len()
        invariant
            k + p.len() <= t.len(),
            i <= p.len(),
            forall|j: int| 0 <= j < i ==> t@[k + j] == p@[j],
        decreases p.len() - i,
    {
        if t[k + i] != p[i] {
            assert(t@.subrange(k as int, k + p.len())[i as int] != p@[i as int]);
            return false;
        }
        i += 1;
    }
    assert(t@.subrange(k as int, k + p.len()) =~= p@);
    true
}

fn contem_exec(t: &Vec<char>, p: &Vec<char>) -> (r: bool)
    ensures
        r == contem(t@, p@),
{
    if p.len() > t.len() {
        return false;
    }
    if p.len() == 0 {
        assert(t@.subrange(0, 0) =~= p@);
        assert(ocorre_em(t@, p@, 0));
        return true;
    }
    let mut k: usize = 0;
    while k <= t.len() - p.len()
        invariant
            0 < p.len() <= t.len(),
            k <= t.len() - p.len() + 1,
            forall|m: int| 0 <= m < k ==> !ocorre_em(t@, p@, m),
        decreases t.len() - p.len() + 1 - k,
    {
        if ocorre_exec(t, p, k) {
            return true;
        }
        k += 1;
    }
    assert forall|m: int| !ocorre_em(t@, p@, m) by {
        if 0 <= m && m < k {
        }
    }
    false
}

fn parece_cep_exec(nome: &str, padroes: &Vec<Vec<char>>) -> (r: bool)
    requires
        padroes.len() == nomes_de_cep().len(),
        forall|j: int| 0 <= j < padroes.len() ==> (#[trigger] padroes[j])@ == minusculas_of(nomes_de_cep()[j]),
    ensures
        r == parece_cep(nome@),
{
    let nome_min = crate::texto::chars_de(minusculas(nome).as_str());
    let mut j: usize = 0;
    while j < padroes.len()
        invariant
            padroes.len() == nomes_de_cep().len(),
            forall|i: int| 0 <= i < padroes.len() ==> (#[trigger] padroes[i])@ == minusculas_of(nomes_de_cep()[i]),
            nome_min@ == minusculas_of(nome@),
            j <= padroes.len(),
            forall|i: int| 0 <= i < j ==> !contem(minusculas_of(nome@), minusculas_of(#[trigger] nomes_de_cep()[i])),
        decreases padroes.len() - j,
    {
        if contem_exec(&nome_min, &padroes[j]) {
            return true;
        }
        j += 1;
    }
    false
}

/// Escolhe a coluna de CEPs: a primeira cujo nome, em minúsculas, contém `cep`, `cep_dom`,
/// `postal_code` ou `zip_code`; na falta, a primeira coluna textual ou numérica; `None` se não
/// há nenhuma.
pub fn escolher_coluna(nomes: &Vec<String>, textual_ou_numerica: &Vec<bool>) -> (r: Option<usize>)
    requires
        nomes.len() == textual_ou_numerica.len(),
    ensures
        match r {
            Some(i) => i < nomes.len() && (if exists|j: int| 0 <= j < nomes.len() && parece_cep(
                (#[trigger] nomes[j])@,
            ) {
                parece_cep(nomes[i as int]@) && forall|j: int|
                    0 <= j < i ==> !parece_cep((#[trigger] nomes[j])@)
            } else {
                textual_ou_numerica[i as int] && forall|j: int|
                    0 <= j < i ==> !(#[trigger] textual_ou_numerica[j])
            }),
            None => forall|j: int|
                0 <= j < nomes.len() ==> !parece_cep((#[trigger] nomes[j])@)
                    && !textual_ou_numerica[j],
        },
{
    let candidatos = vetor_nomes_de_cep();
    let mut padroes: Vec<Vec<char>> = Vec::new();
    let mut j: usize = 0;
    while j < candidatos.len()
        invariant
            candidatos@.map_values(|s: &str| s@) == nomes_de_cep(),
            j <= candidatos.len(),
            padroes.len() == j,
            forall|i: int| 0 <= i < j ==> (#[trigger] padroes[i])@ == minusculas_of(nomes_de_cep()[i]),
        decreases candidatos.len() - j,
    {
        assert(candidatos@.map_values(|s: &str| s@)[j as int] == candidatos@[j as int]@);
        padroes.push(crate::texto::chars_de(minusculas(candidatos[j]).as_str()));
        j += 1;
    }
    let n = nomes.len();
    let mut i: usize = 0;
    while i < n
        invariant
            n == nomes.len(),
            padroes.len() == nomes_de_cep().len(),
            forall|k: int| 0 <= k < padroes.len() ==> (#[trigger] padroes[k])@ == minusculas_of(nomes_de_cep()[k]),
            i <= n,
            forall|k: int| 0 <= k < i ==> !parece_cep((#[trigger] nomes[k])@),
        decreases n - i,
    {
        if parece_cep_exec(nomes[i].as_str(), &padroes) {
            return Some(i);
        }
        i += 1;
    }
    let mut i: usize = 0;
    while i < n
        invariant
            n == nomes.len(),
            n == textual_ou_numerica.len(),
            i <= n,
            forall|k: int| 0 <= k < n ==> !parece_cep((#[trigger] nomes[k])@),
            forall|k: int| 0 <= k < i ==> !(#[trigger] textual_ou_numerica[k]),
        decreases n - i,
    {
        if textual_ou_numerica[i] {
            return Some(i);
        }
        i += 1;
    }
    None
}

} // verus!
