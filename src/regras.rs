//! Padrões de expressão regular compilados e as regras de substituição que os usam.
use vstd::prelude::*;
use regex::{Regex, RegexSet};

verus! {

#[verifier::external_type_specification]
#[verifier::external_body]
pub struct ExRegex(Regex);

#[verifier::external_type_specification]
#[verifier::external_body]
pub struct ExRegexSet(RegexSet);

#[verifier::external_type_specification]
#[verifier::external_body]
pub struct ExRegexError(regex::Error);

/// Se o padrão `p` compila como expressão regular.
pub uninterp spec fn regex_valida(p: Seq<char>) -> bool;

/// Se a expressão regular de padrão `p` casa em algum ponto de `t`.
pub uninterp spec fn casa_em(p: Seq<char>, t: Seq<char>) -> bool;

/// `t` com toda ocorrência do padrão `p` trocada pelo modelo `sub`, em que `$n` é o grupo `n`.
pub uninterp spec fn substituicao(p: Seq<char>, sub: Seq<char>, t: Seq<char>) -> Seq<char>;

/// Os padrões de um conjunto de expressões regulares, na ordem em que foram dados.
pub uninterp spec fn padroes_do_conjunto(s: RegexSet) -> Seq<Seq<char>>;

/// Se um conjunto com os padrões `ps`, nessa ordem, compila.
pub uninterp spec fn conjunto_compila(ps: Seq<Seq<char>>) -> bool;

/// Relies on `Regex::new`: it succeeds exactly on the patterns that compile.
#[verifier::external_body]
fn compilar_regex(p: &str) -> (r: Result<Regex, regex::Error>)
    ensures
        r is Ok <==> regex_valida(p@),
{
    Regex::new(p)
}

/// Relies on `Regex::is_match`: whether the regex matches somewhere in `t`.
#[verifier::external_body]
pub(crate) fn casa(p: &Padrao, t: &str) -> (r: bool)
    ensures
        r == casa_em(p@, t@),
{
    p.re.is_match(t)
}

/// Relies on `Regex::replace_all`: every non-overlapping match replaced by the template.
#[verifier::external_body]
pub(crate) fn substituir(p: &Padrao, t: &str, sub: &str) -> (r: String)
    ensures
        r@ == substituicao(p@, sub@, t@),
{
    p.re.replace_all(t, sub).into_owned()
}

/// Relies on `RegexSet::new`: whether it succeeds depends on the patterns alone, and on
/// success the set holds the given patterns in order.
#[verifier::external_body]
pub(crate) fn conjunto_de(fontes: &Vec<String>) -> (r: Result<RegexSet, regex::Error>)
    ensures
        r is Ok <==> conjunto_compila(fontes@.map_values(|f: String| f@)),
        r matches Ok(s) ==> padroes_do_conjunto(s) == fontes@.map_values(|f: String| f@),
{
    RegexSet::new(fontes)
}

/// Relies on `RegexSet::matches`: the indices of the patterns of the set that match in `t`.
#[verifier::external_body]
pub(crate) fn casamentos(s: &RegexSet, t: &str) -> (r: Vec<usize>)
    ensures
        forall|j: int| 0 <= j < r.len() ==> #[trigger] r[j] < padroes_do_conjunto(*s).len(),
        forall|i: int|
            0 <= i < padroes_do_conjunto(*s).len() ==> (r@.contains(i as usize) <==> casa_em(
                #[trigger] padroes_do_conjunto(*s)[i],
                t@,
            )),
{
    s.matches(t).into_iter().collect()
}

/// Erro de construção: um padrão que não compila.
pub struct ErroPadrao {
    pub padrao: String,
}

/// Uma expressão regular compilada junto com o texto do seu padrão. Só `compilar` a cria, a
/// partir desse mesmo texto.
pub struct Padrao {
    re: Regex,
    fonte: String,
}

impl View for Padrao {
    type V = Seq<char>;

    closed spec fn view(&self) -> Seq<char> {
        self.fonte@
    }
}

impl Padrao {
    /// Compila o padrão `fonte`; falha exatamente quando ele não compila.
    pub fn compilar(fonte: &str) -> (r: Result<Padrao, ErroPadrao>)
        ensures
            r is Ok <==> regex_valida(fonte@),
            r matches Ok(p) ==> p@ == fonte@,
            r matches Err(e) ==> e.padrao@ == fonte@,
    {
        match compilar_regex(fonte) {
            Ok(re) => Ok(Padrao { re, fonte: fonte.to_string() }),
            Err(_) => Err(ErroPadrao { padrao: fonte.to_string() }),
        }
    }

    /// O texto do padrão.
    pub fn fonte(&self) -> (r: &str)
        ensures
            r@ == self@,
    {
        self.fonte.as_str()
    }
}

/// Vista de uma regra: padrão, modelo de substituição e padrão opcional que a faz ser pulada.
pub type RegraV = (Seq<char>, Seq<char>, Option<Seq<char>>);

/// Uma regra de substituição: onde `padrao` casa, ele é trocado por `sub`, a menos que
/// `ignorar` case no texto corrente.
pub struct Regra {
    pub padrao: Padrao,
    pub sub: String,
    pub ignorar: Option<Padrao>,
}

impl View for Regra {
    type V = RegraV;

    open spec fn view(&self) -> RegraV {
        (
            self.padrao@,
            self.sub@,
            match self.ignorar {
                Some(p) => Some(p@),
                None => None,
            },
        )
    }
}

/// Se os padrões de uma regra compilam.
pub open spec fn regra_valida(padrao: Seq<char>, ignorar: Option<Seq<char>>) -> bool {
    regex_valida(padrao) && (ignorar matches Some(i) ==> regex_valida(i))
}

impl Regra {
    /// Compila uma regra; falha exatamente quando algum dos seus padrões não compila.
    pub fn nova(padrao: &str, sub: &str, ignorar: Option<&str>) -> (r: Result<Regra, ErroPadrao>)
        ensures
            r is Ok <==> regra_valida(
                padrao@,
                match ignorar {
                    Some(i) => Some(i@),
                    None => None,
                },
            ),
            r matches Ok(g) ==> g@ == (
                padrao@,
                sub@,
                match ignorar {
                    Some(i) => Some(i@),
                    None => None::<Seq<char>>,
                },
            ),
    {
        let p = match Padrao::compilar(padrao) {
            Ok(p) => p,
            Err(e) => return Err(e),
        };
        let ig = match ignorar {
            Some(i) => match Padrao::compilar(i) {
                Ok(q) => Some(q),
                Err(e) => return Err(e),
            },
            None => None,
        };
        Ok(Regra { padrao: p, sub: sub.to_string(), ignorar: ig })
    }
}

} // verus!
