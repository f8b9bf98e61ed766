//! Aplicação de um padronizador a um lote de valores opcionais, com cache por valor distinto.
use vstd::prelude::*;
use std::collections::HashMap;
use std::hash::{DefaultHasher, Hasher};

verus! {

/// A vista de um valor opcional.
pub open spec fn vista_opcional(o: Option<String>) -> Option<Seq<char>> {
    match o {
        Some(s) => Some(s@),
        None => None,
    }
}

/// Um resultado vazio vira ausente.
pub open spec fn ausente_se_vazio(v: Seq<char>) -> Option<Seq<char>> {
    if v.len() == 0 {
        None
    } else {
        Some(v)
    }
}

/// A saída de um lote na posição de entrada `x`, padronizada por `g`.
pub open spec fn saida_lote(x: Option<String>, g: spec_fn(Seq<char>) -> Seq<char>) -> Option<
    Seq<char>,
> {
    match x {
        None => None,
        Some(s) => ausente_se_vazio(g(s@)),
    }
}

/// Hash dos bytes de `s`, usado só para localizar candidatos no cache.
pub(crate) fn hash_texto(s: &str) -> u64 {
    let mut h = DefaultHasher::new();
    h.write(s.as_bytes());
    h.finish()
}

pub(crate) fn copiar_opcional(o: &Option<String>) -> (r: Option<String>)
    ensures
        vista_opcional(r) == vista_opcional(*o),
{
    match o {
        Some(s) => Some(s.clone()),
        None => None,
    }
}

/// Aplica `fun` a cada valor presente de `x`, guardando o resultado de cada valor distinto:
/// um valor repetido recebe o resultado guardado. Ausentes continuam ausentes e resultados
/// vazios viram ausentes.
pub fn mapear_com_cache<F: Fn(&str) -> String>(
    x: &Vec<Option<String>>,
    fun: F,
    Ghost(g): Ghost<spec_fn(Seq<char>) -> Seq<char>>,
) -> (r: Vec<Option<String>>)
    requires
        forall|s: &str| #[trigger] fun.requires((s,)),
        forall|s: &str, v: String| #[trigger] fun.ensures((s,), v) ==> v@ == g(s@),
    ensures
        r.len() == x.len(),
        forall|i: int| 0 <= i < x.len() ==> vista_opcional(#[trigger] r[i]) == saida_lote(x[i], g),
{
    let mut cache: HashMap<u64, usize> = HashMap::new();
    let mut chaves: Vec<String> = Vec::new();
    let mut valores: Vec<Option<String>> = Vec::new();
    let mut r: Vec<Option<String>> = Vec::new();
    let n = x.len();
    let mut i: usize = 0;
    while i < n
        invariant
            n == x.len(),
            i <= n,
            r.len() == i,
            chaves.len() == valores.len(),
            forall|j: int| 0 <= j < i ==> vista_opcional(#[trigger] r[j]) == saida_lote(x[j], g),
            forall|k: int|
                0 <= k < chaves.len() ==> vista_opcional(#[trigger] valores[k])
                    == ausente_se_vazio(g(chaves[k]@)),
            forall|s: &str| #[trigger] fun.requires((s,)),
            forall|s: &str, v: String| #[trigger] fun.ensures((s,), v) ==> v@ == g(s@),
        decreases n - i,
    {
        match &x[i] {
            None => {
                r.push(None);
            },
            Some(s) => {
                let h = hash_texto(s.as_str());
                let mut achado: Option<usize> = None;
                match cache.get(&h) {
                    Some(k) => {
                        let k = *k;
                        if k < chaves.len() && chaves[k] == *s {
                            achado = Some(k);
                        }
                    },
                    None => {},
                }
                match achado {
                    Some(k) => {
                        r.push(copiar_opcional(&valores[k]));
                    },
                    None => {
                        let v = fun(s.as_str());
                        let o = if v.as_str().is_empty() {
                            None
                        } else {
                            Some(v)
                        };
                        if chaves.len() < usize::MAX {
                            cache.insert(h, chaves.len());
                            chaves.push(s.clone());
                            valores.push(copiar_opcional(&o));
                        }
                        r.push(o);
                    },
                }
            },
        }
        i += 1;
    }
    r
}

} // verus!
