//! O motor de padronização por regras e o catálogo de regras de bairros.
use vstd::prelude::*;
use regex::RegexSet;
use crate::regras::{
    Regra, RegraV, ErroPadrao, casa, casa_em, casamentos, conjunto_compila, conjunto_de,
    padroes_do_conjunto,
    regra_valida, substituicao, substituir,
};
use crate::lote::vista_opcional;
use crate::texto::{
    aparado, aparar, eh_ascii, lemma_aparado, maiuscula_ascii, maiusculas, maiusculas_spec,
    translit_spec, transliterar,
};

verus! {

/// O texto antes de qualquer regra: em maiúsculas, sem espaços nas pontas e transliterado.
pub open spec fn preprocessado(t: Seq<char>) -> Seq<char> {
    translit_spec(aparado(maiusculas_spec(t)))
}

/// O texto depois das `k` primeiras regras. Uma regra só age se o seu padrão casa no texto
/// preprocessado `orig` e o seu padrão de exclusão, se houver, não casa no texto corrente.
pub open spec fn aplicar_regras(regras: Seq<RegraV>, orig: Seq<char>, k: nat) -> Seq<char>
    decreases k,
{
    if k == 0 || k > regras.len() {
        orig
    } else {
        let atual = aplicar_regras(regras, orig, (k - 1) as nat);
        let r = regras[k - 1];
        if casa_em(r.0, orig) && !(r.2 matches Some(i) && casa_em(i, atual)) {
            substituicao(r.0, r.1, atual)
        } else {
            atual
        }
    }
}

/// O resultado de padronizar `t` com as regras `regras`.
pub open spec fn padronizado(regras: Seq<RegraV>, t: Seq<char>) -> Seq<char> {
    aplicar_regras(regras, preprocessado(t), regras.len())
}

/// A padronização só depende do texto preprocessado: dois textos que coincidem depois da
/// conversão para maiúsculas, da remoção de espaços nas pontas e da transliteração têm o
/// mesmo resultado, com quaisquer regras.
pub proof fn lemma_depende_so_do_preprocessado(regras: Seq<RegraV>, x: Seq<char>, y: Seq<char>)
    requires
        preprocessado(x) == preprocessado(y),
    ensures
        padronizado(regras, x) == padronizado(regras, y),
{
}

/// Nenhuma das `k` primeiras regras age sobre um texto em que nenhum padrão casa.
proof fn lemma_sem_casamento(regras: Seq<RegraV>, orig: Seq<char>, k: nat)
    requires
        forall|i: int| 0 <= i < regras.len() ==> !casa_em(#[trigger] regras[i].0, orig),
    ensures
        aplicar_regras(regras, orig, k) == orig,
    decreases k,
{
    if k > 0 && k <= regras.len() {
        lemma_sem_casamento(regras, orig, (k - 1) as nat);
    }
}

/// Um texto já preprocessado em que nenhum padrão das regras casa é a sua própria forma
/// padronizada.
pub proof fn lemma_forma_canonica_fixa(regras: Seq<RegraV>, t: Seq<char>)
    requires
        preprocessado(t) == t,
        forall|i: int| 0 <= i < regras.len() ==> !casa_em(#[trigger] regras[i].0, t),
    ensures
        padronizado(regras, t) == t,
{
    lemma_sem_casamento(regras, t, regras.len());
}

proof fn lemma_maiusculas_ascii(s: Seq<char>)
    requires
        eh_ascii(s),
    ensures
        eh_ascii(maiusculas_spec(s)),
        maiusculas_spec(maiusculas_spec(s)) == maiusculas_spec(s),
        forall|k: int|
            0 <= k < s.len() ==> maiuscula_ascii(#[trigger] maiusculas_spec(s)[k])
                == maiusculas_spec(s)[k],
{
    let m = maiusculas_spec(s);
    assert(eh_ascii(m));
    assert(maiusculas_spec(m) =~= m);
}

/// Preprocessar um texto ASCII dá um texto ASCII em maiúsculas e aparado, que preprocessar
/// de novo não muda.
proof fn lemma_preprocessado_ascii(x: Seq<char>)
    requires
        eh_ascii(x),
    ensures
        preprocessado(x) == aparado(maiusculas_spec(x)),
        preprocessado(preprocessado(x)) == preprocessado(x),
        preprocessado(maiusculas_spec(x)) == preprocessado(x),
{
    let m = maiusculas_spec(x);
    lemma_maiusculas_ascii(x);
    lemma_aparado(m);
    let a = aparado(m);
    let (i, j) = choose|i: int, j: int| 0 <= i <= j <= m.len() && a == m.subrange(i, j);
    assert(eh_ascii(a));
    assert(maiusculas_spec(a) =~= a);
    assert(preprocessado(x) == a);
    assert(preprocessado(a) == aparado(a));
}

/// Em texto ASCII, a padronização não distingue maiúsculas de minúsculas nem é afetada pela
/// transliteração: `x`, as maiúsculas de `x` e a transliteração de `x` têm o mesmo resultado.
pub proof fn lemma_insensivel_a_caixa_ascii(regras: Seq<RegraV>, x: Seq<char>)
    requires
        eh_ascii(x),
    ensures
        padronizado(regras, maiusculas_spec(x)) == padronizado(regras, x),
        padronizado(regras, translit_spec(x)) == padronizado(regras, x),
{
    lemma_preprocessado_ascii(x);
}

/// Em texto ASCII cujo texto preprocessado não é casado por nenhum padrão das regras,
/// padronizar duas vezes dá o mesmo que padronizar uma vez.
pub proof fn lemma_idempotente_ascii(regras: Seq<RegraV>, x: Seq<char>)
    requires
        eh_ascii(x),
        forall|i: int| 0 <= i < regras.len() ==> !casa_em(#[trigger] regras[i].0, preprocessado(x)),
    ensures
        padronizado(regras, padronizado(regras, x)) == padronizado(regras, x),
{
    lemma_preprocessado_ascii(x);
    let p = preprocessado(x);
    lemma_sem_casamento(regras, p, regras.len());
    assert(padronizado(regras, x) == p);
    lemma_sem_casamento(regras, preprocessado(p), regras.len());
}

/// Motor de padronização: uma lista ordenada de regras e, quando preparado, um conjunto com
/// todos os seus padrões que indica de uma vez quais regras podem agir.
pub struct PadronizadorDani {
    substituicoes: Vec<Regra>,
    grupo_padroes: Option<RegexSet>,
}

impl PadronizadorDani {
    /// As regras, em ordem.
    pub closed spec fn regras(&self) -> Seq<RegraV> {
        self.substituicoes@.map_values(|r: Regra| r@)
    }

    /// Se o conjunto de padrões foi construído para as regras atuais.
    pub closed spec fn preparado(&self) -> bool {
        self.grupo_padroes is Some
    }

    /// O conjunto de padrões, quando existe, corresponde exatamente às regras atuais.
    pub closed spec fn wf(&self) -> bool {
        self.grupo_padroes matches Some(g) ==> padroes_do_conjunto(g) == self.regras().map_values(
            |r: RegraV| r.0,
        )
    }

    /// Um padronizador sem regras.
    pub fn new() -> (r: PadronizadorDani)
        ensures
            r.wf(),
            r.regras() == Seq::<RegraV>::empty(),
    {
        let r = PadronizadorDani { substituicoes: Vec::new(), grupo_padroes: None };
        assert(r.regras() =~= Seq::<RegraV>::empty());
        r
    }

    /// Acrescenta uma regra ao fim da lista; falha, sem mudar nada, se algum padrão não
    /// compila. O conjunto de padrões precisa ser refeito depois.
    pub fn adicionar_regra(&mut self, padrao: &str, sub: &str, ignorar: Option<&str>) -> (r:
        Result<(), ErroPadrao>)
        requires
            old(self).wf(),
        ensures
            final(self).wf(),
            r is Ok <==> regra_valida(
                padrao@,
                match ignorar {
                    Some(i) => Some(i@),
                    None => None,
                },
            ),
            r is Ok ==> final(self).regras() == old(self).regras().push(
                (
                    padrao@,
                    sub@,
                    match ignorar {
                        Some(i) => Some(i@),
                        None => None::<Seq<char>>,
                    },
                ),
            ) && !final(self).preparado(),
            r is Err ==> *final(self) == *old(self),
    {
        match Regra::nova(padrao, sub, ignorar) {
            Ok(g) => {
                let ghost antes = self.regras();
                self.substituicoes.push(g);
                self.grupo_padroes = None;
                assert(self.regras() =~= antes.push(g@));
                Ok(())
            },
            Err(e) => Err(e),
        }
    }

    /// Acrescenta a regra que troca `padrao` por `sub`.
    pub fn adicionar_sub(&mut self, padrao: &str, sub: &str) -> (r: Result<(), ErroPadrao>)
        requires
            old(self).wf(),
        ensures
            final(self).wf(),
            r is Ok <==> regex_valida_sem_ignorar(padrao@),
            r is Ok ==> final(self).regras() == old(self).regras().push(
                (padrao@, sub@, None::<Seq<char>>),
            ) && !final(self).preparado(),
            r is Err ==> *final(self) == *old(self),
    {
        self.adicionar_regra(padrao, sub, None)
    }

    /// Constrói o conjunto de padrões das regras atuais. Se o conjunto não puder ser
    /// construído, as regras continuam a ser testadas uma a uma, com o mesmo resultado.
    pub fn criar_grupo_padroes(&mut self)
        requires
            old(self).wf(),
        ensures
            final(self).wf(),
            final(self).regras() == old(self).regras(),
            final(self).preparado() <==> conjunto_compila(padroes_de(old(self).regras())),
    {
        let mut fontes: Vec<String> = Vec::new();
        let n = self.substituicoes.len();
        let mut i: usize = 0;
        while i < n
            invariant
                n == self.substituicoes.len(),
                i <= n,
                fontes.len() == i,
                forall|j: int|
                    0 <= j < i ==> (#[trigger] fontes[j])@ == self.substituicoes[j].padrao@,
            decreases n - i,
        {
            fontes.push(self.substituicoes[i].padrao.fonte().to_string());
            i += 1;
        }
        assert(fontes@.map_values(|f: String| f@) =~= padroes_de(self.regras()));
        match conjunto_de(&fontes) {
            Ok(g) => {
                self.grupo_padroes = Some(g);
            },
            Err(_) => {
                self.grupo_padroes = None;
            },
        }
    }

    /// Padroniza `texto`: passa para maiúsculas, retira os espaços das pontas e translitera;
    /// então aplica, em ordem, cada regra cujo padrão casa nesse texto inicial, a menos que o
    /// seu padrão de exclusão case no texto corrente.
    pub fn padronizar(&self, texto: &str) -> (r: String)
        requires
            self.wf(),
        ensures
            r@ == padronizado(self.regras(), texto@),
    {
        let maior = maiusculas(texto);
        let aparada = aparar(maior.as_str());
        let orig = transliterar(aparada);
        let n = self.substituicoes.len();

        let mut marcas: Vec<bool> = Vec::new();
        match &self.grupo_padroes {
            Some(g) => {
                let idx = casamentos(g, orig.as_str());
                let mut i: usize = 0;
                while i < n
                    invariant
                        n == self.substituicoes.len(),
                        i <= n,
                        marcas.len() == i,
                        forall|j: int| 0 <= j < i ==> !#[trigger] marcas[j],
                    decreases n - i,
                {
                    marcas.push(false);
                    i += 1;
                }
                let mut j: usize = 0;
                while j < idx.len()
                    invariant
                        n == self.substituicoes.len(),
                        padroes_do_conjunto(*g).len() == n,
                        marcas.len() == n,
                        j <= idx.len(),
                        forall|k: int| 0 <= k < idx.len() ==> #[trigger] idx[k] < n,
                        forall|i: int|
                            0 <= i < n ==> (#[trigger] marcas[i] <==> exists|k: int|
                                0 <= k < j && idx[k] == i),
                    decreases idx.len() - j,
                {
                    let p = idx[j];
                    marcas.set(p, true);
                    j += 1;
                }
                proof {
                    assert forall|i: int| 0 <= i < n implies #[trigger] marcas[i] == casa_em(
                        self.regras()[i].0,
                        orig@,
                    ) by {
                        assert(padroes_do_conjunto(*g)[i] == self.regras()[i].0);
                        if idx@.contains(i as usize) {
                            let k = choose|k: int| 0 <= k < idx.len() && idx[k] == i as usize;
                            assert(idx[k] == i);
                        }
                    }
                }
            },
            None => {
                let mut i: usize = 0;
                while i < n
                    invariant
                        n == self.substituicoes.len(),
                        i <= n,
                        marcas.len() == i,
                        forall|j: int|
                            0 <= j < i ==> #[trigger] marcas[j] == casa_em(self.regras()[j].0, orig@),
                    decreases n - i,
                {
                    marcas.push(casa(&self.substituicoes[i].padrao, orig.as_str()));
                    i += 1;
                }
            },
        }

        let mut atual = orig.clone();
        let mut k: usize = 0;
        while k < n
            invariant
                n == self.substituicoes.len(),
                n == self.regras().len(),
                marcas.len() == n,
                k <= n,
                forall|i: int| 0 <= i < n ==> #[trigger] marcas[i] == casa_em(self.regras()[i].0, orig@),
                orig@ == preprocessado(texto@),
                atual@ == aplicar_regras(self.regras(), orig@, k as nat),
            decreases n - k,
        {
            let regra = &self.substituicoes[k];
            assert(regra@ == self.regras()[k as int]);
            if marcas[k] {
                let pula = match &regra.ignorar {
                    Some(ig) => casa(ig, atual.as_str()),
                    None => false,
                };
                if !pula {
                    atual = substituir(&regra.padrao, atual.as_str(), regra.sub.as_str());
                }
            }
            k += 1;
        }
        atual
    }
}

impl Default for PadronizadorDani {
    /// Um padronizador sem regras.
    fn default() -> (r: PadronizadorDani)
        ensures
            r.wf(),
            r.regras() == Seq::<RegraV>::empty(),
    {
        PadronizadorDani::new()
    }
}

/// As regras dadas por três vetores paralelos: padrões, substituições e padrões de exclusão.
pub open spec fn triplas(
    regex: Seq<String>,
    subst: Seq<String>,
    ignorar: Seq<Option<String>>,
) -> Seq<RegraV> {
    Seq::new(regex.len(), |i: int| (regex[i]@, subst[i]@, vista_opcional(ignorar[i])))
}

/// Se todas as regras dadas pelos vetores compilam.
pub open spec fn triplas_validas(regex: Seq<String>, ignorar: Seq<Option<String>>) -> bool {
    forall|i: int|
        0 <= i < regex.len() ==> regra_valida(#[trigger] regex[i]@, vista_opcional(ignorar[i]))
}

impl PadronizadorDani {
    /// Acrescenta, em ordem, as regras dadas por três vetores paralelos e refaz o conjunto de
    /// padrões. Falha se algum padrão não compila; as regras anteriores a ele ficam.
    pub fn adicionar_vetores(
        &mut self,
        regex: &Vec<String>,
        subst: &Vec<String>,
        ignorar: &Vec<Option<String>>,
    ) -> (r: Result<(), ErroPadrao>)
        requires
            old(self).wf(),
            regex.len() == subst.len(),
            regex.len() == ignorar.len(),
        ensures
            final(self).wf(),
            r is Ok <==> triplas_validas(regex@, ignorar@),
            r is Ok ==> final(self).regras() == old(self).regras() + triplas(
                regex@,
                subst@,
                ignorar@,
            ) && (final(self).preparado() <==> conjunto_compila(padroes_de(final(self).regras()))),
    {
        let ghost inicio = self.regras();
        let n = regex.len();
        let mut i: usize = 0;
        while i < n
            invariant
                n == regex.len(),
                n == subst.len(),
                n == ignorar.len(),
                i <= n,
                self.wf(),
                triplas_validas(regex@.subrange(0, i as int), ignorar@.subrange(0, i as int)),
                self.regras() == inicio + triplas(
                    regex@.subrange(0, i as int),
                    subst@.subrange(0, i as int),
                    ignorar@.subrange(0, i as int),
                ),
            decreases n - i,
        {
            let ig: Option<&str> = match &ignorar[i] {
                Some(s) => Some(s.as_str()),
                None => None,
            };
            let res = self.adicionar_regra(regex[i].as_str(), subst[i].as_str(), ig);
            if res.is_err() {
                assert(!triplas_validas(regex@, ignorar@)) by {
                    assert(!regra_valida(regex@[i as int]@, vista_opcional(ignorar@[i as int])));
                }
                return res;
            }
            assert(triplas(
                regex@.subrange(0, i + 1),
                subst@.subrange(0, i + 1),
                ignorar@.subrange(0, i + 1),
            ) =~= triplas(
                regex@.subrange(0, i as int),
                subst@.subrange(0, i as int),
                ignorar@.subrange(0, i as int),
            ).push((regex@[i as int]@, subst@[i as int]@, vista_opcional(ignorar@[i as int]))));
            assert forall|k: int| 0 <= k < i + 1 implies regra_valida(
                #[trigger] regex@.subrange(0, i + 1)[k]@,
                vista_opcional(ignorar@.subrange(0, i + 1)[k]),
            ) by {
                if k < i {
                    assert(regex@.subrange(0, i as int)[k] == regex@.subrange(0, i + 1)[k]);
                    assert(ignorar@.subrange(0, i as int)[k] == ignorar@.subrange(0, i + 1)[k]);
                }
            }
            i += 1;
        }
        assert(regex@.subrange(0, n as int) =~= regex@);
        assert(subst@.subrange(0, n as int) =~= subst@);
        assert(ignorar@.subrange(0, n as int) =~= ignorar@);
        self.criar_grupo_padroes();
        Ok(())
    }

    /// Constrói um padronizador com as regras dadas, em ordem, e o seu conjunto de padrões.
    /// Falha se algum padrão não compila.
    pub fn construir(
        regex: &Vec<String>,
        subst: &Vec<String>,
        ignorar: &Vec<Option<String>>,
    ) -> (r: Result<PadronizadorDani, ErroPadrao>)
        requires
            regex.len() == subst.len(),
            regex.len() == ignorar.len(),
        ensures
            r is Ok <==> triplas_validas(regex@, ignorar@),
            r matches Ok(p) ==> p.wf() && p.regras() == triplas(regex@, subst@, ignorar@) && (
            p.preparado() <==> conjunto_compila(padroes_de(p.regras()))),
    {
        let mut p = PadronizadorDani::new();
        match p.adicionar_vetores(regex, subst, ignorar) {
            Ok(()) => {
                assert(Seq::<RegraV>::empty() + triplas(regex@, subst@, ignorar@) =~= triplas(
                    regex@,
                    subst@,
                    ignorar@,
                ));
                Ok(p)
            },
            Err(e) => Err(e),
        }
    }

    /// As regras como três vetores paralelos: padrões, substituições e padrões de exclusão.
    pub fn obter_vetores(&self) -> (r: (Vec<String>, Vec<String>, Vec<Option<String>>))
        ensures
            r.0.len() == self.regras().len(),
            r.1.len() == self.regras().len(),
            r.2.len() == self.regras().len(),
            triplas(r.0@, r.1@, r.2@) == self.regras(),
    {
        let mut regex: Vec<String> = Vec::new();
        let mut subst: Vec<String> = Vec::new();
        let mut ignorar: Vec<Option<String>> = Vec::new();
        let n = self.substituicoes.len();
        let mut i: usize = 0;
        while i < n
            invariant
                n == self.substituicoes.len(),
                i <= n,
                regex.len() == i,
                subst.len() == i,
                ignorar.len() == i,
                forall|j: int|
                    0 <= j < i ==> (#[trigger] regex[j]@, subst[j]@, vista_opcional(ignorar[j]))
                        == self.regras()[j],
            decreases n - i,
        {
            let g = &self.substituicoes[i];
            regex.push(g.padrao.fonte().to_string());
            subst.push(g.sub.clone());
            ignorar.push(
                match &g.ignorar {
                    Some(p) => Some(p.fonte().to_string()),
                    None => None,
                },
            );
            i += 1;
        }
        assert(triplas(regex@, subst@, ignorar@) =~= self.regras());
        (regex, subst, ignorar)
    }
}

/// O catálogo de bairros como pares de padrão e modelo de substituição, em ordem: limpeza de
/// pontuação, valores sem sentido, abreviações de localidades e títulos, e datas por extenso.
pub open spec fn pares_bairro() -> Seq<(&'static str, &'static str)> {
    seq![
        (r#"\s{2,}"#, r#" "#),
        (r#"\.\.+"#, r#"."#),
        (r#"\.([^ ])"#, r#". $1"#),
        (r#"""#, r#"'"#),
        (r#"^(0|-)+$"#, r#""#),
        (r#"^(AA+|BB+|CC+|DD+|EE+|FF+|GG+|HH+|JJ+|KK+|LL+|MM+|NN+|OO+|PP+|QQ+|RR+|SS+|TT+|UU+|VV+|WW+|YY+|ZZ+)$"#, r#""#),
        (r#"^(1111+|2222+|3333+|4444+|5555+|6666+|7777+|8888+|9999+|0000+)$"#, r#""#),
        (r#"^I{4,}$"#, r#""#),
        (r#"^X{3,}$"#, r#""#),
        (r#"\bRES(I?D)?\b\.?"#, r#"RESIDENCIAL"#),
        (r#"\bJAR DIM\b"#, r#"JARDIM"#),
        (r#"\bJ(D(I?M)?|A?RD|AR(DIN)?)\b\.?"#, r#"JARDIM"#),
        (r#"^JR\b\.?"#, r#"JARDIM"#),
        (r#"\b(PCA|PRC)\b\.?"#, r#"PRACA"#),
        (r#"\bP((A?R)?Q|QU?E)\b\.?"#, r#"PARQUE"#),
        (r#"\bP\.? RESIDENCIAL\b"#, r#"PARQUE RESIDENCIAL"#),
        (r#"^VL?\b\.?"#, r#"VILA"#),
        (r#"\bCID\b\.?"#, r#"CIDADE"#),
        (r#"\bCIDADE UNI(V(ERS)?)?\b\.?"#, r#"CIDADE UNIVERSITARIA"#),
        (r#"\bC\.? UNIVERSITARIA\b"#, r#"CIDADE UNIVERSITARIA"#),
        (r#"\bCTO\b\.?"#, r#"CENTRO"#),
        (r#"\bDISTR?\b\.?"#, r#"DISTRITO"#),
        (r#"^DIS\b\.?"#, r#"DISTRITO"#),
        (r#"\bCHA?C\b\.?"#, r#"CHACARA"#),
        (r#"^CH\b\.?"#, r#"CHACARA"#),
        (r#"\bC(ON?)?J\b\.?"#, r#"CONJUNTO"#),
        (r#"^C\.? J\b\.?"#, r#"CONJUNTO"#),
        (r#"\bC(ONJUNTO)? (H(B|AB(IT)?)?)\b\.?"#, r#"CONJUNTO HABITACIONAL"#),
        (r#"\bSTR\b\.?"#, r#"SETOR"#),
        (r#"^SET\b\.?"#, r#"SETOR"#),
        (r#"\b(DAS|DE) IND(L|TRL|US(TR?)?)?\b\.?"#, r#"$1 INDUSTRIAS"#),
        (r#"\bIND(L|TRL|US(TR?)?)?\b\.?"#, r#"INDUSTRIAL"#),
        (r#"\bD\.? INDUSTRIAL\b"#, r#"DISTRITO INDUSTRIAL"#),
        (r#"\bS\.? INDUSTRIAL\b"#, r#"SETOR INDUSTRIAL"#),
        (r#"\b(P\.? INDUSTRIAL|PARQUE IN)\b\.?"#, r#"PARQUE INDUSTRIAL"#),
        (r#"\bLOT(EAME?)?\b\.?(.)"#, r#"LOTEAMENTO$2"#),
        (r#"^LT\b\.?"#, r#"LOTEAMENTO"#),
        (r#"\bZN\b\.?"#, r#"ZONA"#),
        (r#"^Z\b\.?"#, r#"ZONA"#),
        (r#"\bZONA R(UR?)?\b\.?"#, r#"ZONAL RURAL"#),
        (r#"^POV\b\.?"#, r#"POVOADO"#),
        (r#"\bNUCL?\b\.?"#, r#"NUCLEO"#),
        (r#"\b(NUCLEO|N\.?) H(AB)?\b\.?"#, r#"NUCLEO HABITACIONAL"#),
        (r#"\b(NUCLEO|N\.?) C(OL)?\b\.?"#, r#"NUCLEO COLONIAL"#),
        (r#"\bN\.? INDUSTRIAL\b"#, r#"NUCLEO INDUSTRIAL"#),
        (r#"\bN\.? RESIDENCIAL\b"#, r#"NUCLEO RESIDENCIAL"#),
        (r#"\bBALN?\b\.?"#, r#"BALNEARIO"#),
        (r#"\bFAZ(EN?)?\b\.?"#, r#"FAZENDA"#),
        (r#"\bBS?Q\b\.?"#, r#"BOSQUE"#),
        (r#"\bCACH\b\.?"#, r#"CACHOEIRA"#),
        (r#"\bTAB\b\.?"#, r#"TABULEIRO"#),
        (r#"\bCOND\b\.?"#, r#"CONDOMINIO"#),
        (r#"\bRECR?\.? (DOS? )?BAND.*\b\.?"#, r#"RECREIO DOS BANDEIRANTES"#),
        (r#"\bREC\b\.?"#, r#"RECANTO"#),
        (r#"^COR\b\.?"#, r#"CORREGO"#),
        (r#"\bENG\.? (D(A|E|O)|V(LH?|ELHO)?|NOVO|CACHOEIRINHA|GRANDE)\b"#, r#"ENGENHO $1"#),
        (r#"^TAG\b\.?"#, r#"TAGUATINGA"#),
        (r#"^ASS(ENT)?\b\.?"#, r#"ASSENTAMENTO"#),
        (r#"^SIT\b\.?"#, r#"SITIO"#),
        (r#"^CAM\b\.?"#, r#"CAMINHO"#),
        (r#"\bCERQ\b\.?"#, r#"CERQUEIRA"#),
        (r#"\bCONS\b\.?(.)"#, r#"CONSELHEIRO$1"#),
        (r#"\bPROL\b\.?(.)"#, r#"PROLONGAMENTO$1"#),
        (r#"\bSTO\b\.?"#, r#"SANTO"#),
        (r#"\bSTOS\b\.?"#, r#"SANTOS"#),
        (r#"\bSTA\b\.?"#, r#"SANTA"#),
        (r#"\bSRA\b\.?"#, r#"SENHORA"#),
        (r#"\b(N(OS|SS?A?)?\.? S(RA|ENHORA)|(NOSSA|NSA\.?) (S(RA?)?|SEN(H(OR)?)?))\b\.?"#, r#"NOSSA SENHORA"#),
        (r#"\b(N(O?S)?\.? S(R|EN(H(OR)?)?)?\.?( DE?)?|NOSSA SENHORA|NS) (FAT.*|LO?UR.*|SANTANA|GUADALUPE|NAZ.*|COP*)\b"#, r#"NOSSA SENHORA DE $7"#),
        (r#"\b(N(O?S)?\.? S(R|EN(H(OR)?)?)?\.?( D(A|E)?)?|NOSSA SENHORA|NS) (GRACA|VITORIA|PENHA|CONCEICAO|PAZ|GUIA|AJUDA|CANDELARIA|PURIFICACAO|SAUDE|PIEDADE|ABADIA|GLORIA|SALETE|APRESENTACAO)\b"#, r#"NOSSA SENHORA DA $8"#),
        (r#"\b(N(O?S)?\.? S(R|EN(H(OR)?)?)?\.?( D(A|E)?)?|NOSSA SENHORA D(A|E)|NS) (APA.*|AUX.*|MEDIANEIRA|CONSOLADORA)\b"#, r#"NOSSA SENHORA $9"#),
        (r#"\b(N(O?S)?\.? S(R|EN(H(OR)?)?)?\.?( D(OS?)?)?|NOSSA SENHORA|NS) (NAVEGANTES)\b"#, r#"NOSSA SENHORA DOS $8"#),
        (r#"\b(N(O?S)?\.? S(R|EN(H(OR)?)?)?\.?( DO?)?|NOSSA SENHORA|NS) (CARMO|LIVRAMENTO|RETIRO|SION|ROSARIO|PILAR|ROCIO|CAMINHO|DESTERRO|BOM CONSELHO|AMPARO|PERP.*|P.* S.*)\b"#, r#"NOSSA SENHORA DO $7"#),
        (r#"\b(N(O?S)?\.? S(R|EN(H(OR)?)?)?\.?( D(AS?)?)?|NOSSA SENHORA|NS) (GRACAS|DORES)\b"#, r#"NOSSA SENHORA DAS $8"#),
        (r#"\b(S(R|ENH?)\.?( D(OS?)?)?|SENHOR( D(OS)?)?) (BON\w*)\b"#, r#"SENHOR DO BONFIM"#),
        (r#"\b(S(R|ENH?)\.?( D(OS?)?)?|SENHOR( D(OS?)?)?) (BOM ?F\w*)\b"#, r#"SENHOR DO BONFIM"#),
        (r#"\b(S(R|ENH?)\.?( D(OS?)?)?|SENHOR) (PASS\w*|MONT\w*)\b"#, r#"SENHOR DOS $5"#),
        (r#"\bS(R|ENH?)\.? (BOM J\w*)\b"#, r#"SENHOR BOM JESUS"#),
        (r#"\b(N(O?S)?\.? S(R|EN(H(OR)?)?)?\.?( D(OS?)?)?|NOSSO SENHOR|NS) (BONF\w*|BOM ?F\w*)\b"#, r#"NOSSO SENHOR DO BONFIM"#),
        (r#"\b(N(O?S)?\.? S(R|EN(H(OR)?)?)?\.?( D(OS?)?)?|NOSSO SENHOR|NS) (PASS\w*|MONT\w*)\b"#, r#"NOSSO SENHOR DOS $8"#),
        (r#"\bESP?\.? SANTO"#, r#"ESPIRITO SANTO"#),
        (r#"\bDIV\.? ESPIRITO SANTO\b"#, r#"DIVINO ESPIRITO SANTO"#),
        (r#"\bS\.? (PAULO|VICENTE|FRANCISCO|DOMINGOS?|CRISTOVAO)\b"#, r#"SAO $1"#),
        (r#"\bALMTE\b\.?"#, r#"ALMIRANTE"#),
        (r#"\bMAL\b\.?(.)"#, r#"MARECHAL$1"#),
        (r#"\bSGTO?\b\.?"#, r#"SARGENTO"#),
        (r#"\bCEL\b\.?"#, r#"CORONEL"#),
        (r#"\bBRIG\b\.?"#, r#"BRIGADEIRO"#),
        (r#"\bTEN\b\.?"#, r#"TENENTE"#),
        (r#"\bBRIGADEIRO (F\.?|FARIA) (L|LIMA)\b\.?"#, r#"BRIGADEIRO FARIA LIMA"#),
        (r#"\bPRES(ID)?\b\.?(.)"#, r#"PRESIDENTE$2"#),
        (r#"\bGOV\b\.?"#, r#"GOVERNADOR"#),
        (r#"\bPREF\b\.?(.)"#, r#"PREFEITO$1"#),
        (r#"\bDEP\b\.?(.)"#, r#"DEPUTADO$1"#),
        (r#"\bDR\b\.?"#, r#"DOUTOR"#),
        (r#"\bDRA\b\.?"#, r#"DOUTORA"#),
        (r#"\bPROF\b\.?"#, r#"PROFESSOR"#),
        (r#"\bPROFA\b\.?"#, r#"PROFESSORA"#),
        (r#"\bPE\b\.(.)"#, r#"PADRE$1"#),
        (r#"\bD\b\.? (PEDRO|JOAO|HENRIQUE)"#, r#"DOM $1"#),
        (r#"\bI(NF)?\.? DOM\b"#, r#"INFANTE DOM"#),
        (r#"\b(\d+) DE? JAN(EIRO)?\b"#, r#"$1 DE JANEIRO"#),
        (r#"\b(\d+) DE? FEV(EREIRO)?\b"#, r#"$1 DE FEVEREIRO"#),
        (r#"\b(\d+) DE? MAR(CO)?\b"#, r#"$1 DE MARCO"#),
        (r#"\b(\d+) DE? ABR(IL)?\b"#, r#"$1 DE ABRIL"#),
        (r#"\b(\d+) DE? MAI(O)?\b"#, r#"$1 DE MAIO"#),
        (r#"\b(\d+) DE? JUN(HO)?\b"#, r#"$1 DE JUNHO"#),
        (r#"\b(\d+) DE? JUL(HO)?\b"#, r#"$1 DE JULHO"#),
        (r#"\b(\d+) DE? AGO(STO)?\b"#, r#"$1 DE AGOSTO"#),
        (r#"\b(\d+) DE? SET(EMBRO)?\b"#, r#"$1 DE SETEMBRO"#),
        (r#"\b(\d+) DE? OUT(UBRO)?\b"#, r#"$1 DE OUTUBRO"#),
        (r#"\b(\d+) DE? NOV(EMBRO)?\b"#, r#"$1 DE NOVEMBRO"#),
        (r#"\b(\d+) DE? DEZ(EMBRO)?\b"#, r#"$1 DE DEZEMBRO"#),
    ]
}

/// As regras do catálogo de bairros, nenhuma com padrão de exclusão.
pub open spec fn catalogo_bairro() -> Seq<RegraV> {
    pares_bairro().map_values(|p: (&'static str, &'static str)| (p.0@, p.1@, None::<Seq<char>>))
}

/// Os padrões de uma lista de regras.
pub open spec fn padroes_de(regras: Seq<RegraV>) -> Seq<Seq<char>> {
    regras.map_values(|r: RegraV| r.0)
}

/// Se todos os padrões de uma lista de regras compilam.
pub open spec fn regras_validas(regras: Seq<RegraV>) -> bool {
    forall|i: int| 0 <= i < regras.len() ==> regra_valida(#[trigger] regras[i].0, regras[i].2)
}

fn vetor_pares_bairro() -> (r: Vec<(&'static str, &'static str)>)
    ensures
        r@ == pares_bairro(),
{
    let v: Vec<(&'static str, &'static str)> = vec![
        (r#"\s{2,}"#, r#" "#),
        (r#"\.\.+"#, r#"."#),
        (r#"\.([^ ])"#, r#". $1"#),
        (r#"""#, r#"'"#),
        (r#"^(0|-)+$"#, r#""#),
        (r#"^(AA+|BB+|CC+|DD+|EE+|FF+|GG+|HH+|JJ+|KK+|LL+|MM+|NN+|OO+|PP+|QQ+|RR+|SS+|TT+|UU+|VV+|WW+|YY+|ZZ+)$"#, r#""#),
        (r#"^(1111+|2222+|3333+|4444+|5555+|6666+|7777+|8888+|9999+|0000+)$"#, r#""#),
        (r#"^I{4,}$"#, r#""#),
        (r#"^X{3,}$"#, r#""#),
        (r#"\bRES(I?D)?\b\.?"#, r#"RESIDENCIAL"#),
        (r#"\bJAR DIM\b"#, r#"JARDIM"#),
        (r#"\bJ(D(I?M)?|A?RD|AR(DIN)?)\b\.?"#, r#"JARDIM"#),
        (r#"^JR\b\.?"#, r#"JARDIM"#),
        (r#"\b(PCA|PRC)\b\.?"#, r#"PRACA"#),
        (r#"\bP((A?R)?Q|QU?E)\b\.?"#, r#"PARQUE"#),
        (r#"\bP\.? RESIDENCIAL\b"#, r#"PARQUE RESIDENCIAL"#),
        (r#"^VL?\b\.?"#, r#"VILA"#),
        (r#"\bCID\b\.?"#, r#"CIDADE"#),
        (r#"\bCIDADE UNI(V(ERS)?)?\b\.?"#, r#"CIDADE UNIVERSITARIA"#),
        (r#"\bC\.? UNIVERSITARIA\b"#, r#"CIDADE UNIVERSITARIA"#),
        (r#"\bCTO\b\.?"#, r#"CENTRO"#),
        (r#"\bDISTR?\b\.?"#, r#"DISTRITO"#),
        (r#"^DIS\b\.?"#, r#"DISTRITO"#),
        (r#"\bCHA?C\b\.?"#, r#"CHACARA"#),
        (r#"^CH\b\.?"#, r#"CHACARA"#),
        (r#"\bC(ON?)?J\b\.?"#, r#"CONJUNTO"#),
        (r#"^C\.? J\b\.?"#, r#"CONJUNTO"#),
        (r#"\bC(ONJUNTO)? (H(B|AB(IT)?)?)\b\.?"#, r#"CONJUNTO HABITACIONAL"#),
        (r#"\bSTR\b\.?"#, r#"SETOR"#),
        (r#"^SET\b\.?"#, r#"SETOR"#),
        (r#"\b(DAS|DE) IND(L|TRL|US(TR?)?)?\b\.?"#, r#"$1 INDUSTRIAS"#),
        (r#"\bIND(L|TRL|US(TR?)?)?\b\.?"#, r#"INDUSTRIAL"#),
        (r#"\bD\.? INDUSTRIAL\b"#, r#"DISTRITO INDUSTRIAL"#),
        (r#"\bS\.? INDUSTRIAL\b"#, r#"SETOR INDUSTRIAL"#),
        (r#"\b(P\.? INDUSTRIAL|PARQUE IN)\b\.?"#, r#"PARQUE INDUSTRIAL"#),
        (r#"\bLOT(EAME?)?\b\.?(.)"#, r#"LOTEAMENTO$2"#),
        (r#"^LT\b\.?"#, r#"LOTEAMENTO"#),
        (r#"\bZN\b\.?"#, r#"ZONA"#),
        (r#"^Z\b\.?"#, r#"ZONA"#),
        (r#"\bZONA R(UR?)?\b\.?"#, r#"ZONAL RURAL"#),
        (r#"^POV\b\.?"#, r#"POVOADO"#),
        (r#"\bNUCL?\b\.?"#, r#"NUCLEO"#),
        (r#"\b(NUCLEO|N\.?) H(AB)?\b\.?"#, r#"NUCLEO HABITACIONAL"#),
        (r#"\b(NUCLEO|N\.?) C(OL)?\b\.?"#, r#"NUCLEO COLONIAL"#),
        (r#"\bN\.? INDUSTRIAL\b"#, r#"NUCLEO INDUSTRIAL"#),
        (r#"\bN\.? RESIDENCIAL\b"#, r#"NUCLEO RESIDENCIAL"#),
        (r#"\bBALN?\b\.?"#, r#"BALNEARIO"#),
        (r#"\bFAZ(EN?)?\b\.?"#, r#"FAZENDA"#),
        (r#"\bBS?Q\b\.?"#, r#"BOSQUE"#),
        (r#"\bCACH\b\.?"#, r#"CACHOEIRA"#),
        (r#"\bTAB\b\.?"#, r#"TABULEIRO"#),
        (r#"\bCOND\b\.?"#, r#"CONDOMINIO"#),
        (r#"\bRECR?\.? (DOS? )?BAND.*\b\.?"#, r#"RECREIO DOS BANDEIRANTES"#),
        (r#"\bREC\b\.?"#, r#"RECANTO"#),
        (r#"^COR\b\.?"#, r#"CORREGO"#),
        (r#"\bENG\.? (D(A|E|O)|V(LH?|ELHO)?|NOVO|CACHOEIRINHA|GRANDE)\b"#, r#"ENGENHO $1"#),
        (r#"^TAG\b\.?"#, r#"TAGUATINGA"#),
        (r#"^ASS(ENT)?\b\.?"#, r#"ASSENTAMENTO"#),
        (r#"^SIT\b\.?"#, r#"SITIO"#),
        (r#"^CAM\b\.?"#, r#"CAMINHO"#),
        (r#"\bCERQ\b\.?"#, r#"CERQUEIRA"#),
        (r#"\bCONS\b\.?(.)"#, r#"CONSELHEIRO$1"#),
        (r#"\bPROL\b\.?(.)"#, r#"PROLONGAMENTO$1"#),
        (r#"\bSTO\b\.?"#, r#"SANTO"#),
        (r#"\bSTOS\b\.?"#, r#"SANTOS"#),
        (r#"\bSTA\b\.?"#, r#"SANTA"#),
        (r#"\bSRA\b\.?"#, r#"SENHORA"#),
        (r#"\b(N(OS|SS?A?)?\.? S(RA|ENHORA)|(NOSSA|NSA\.?) (S(RA?)?|SEN(H(OR)?)?))\b\.?"#, r#"NOSSA SENHORA"#),
        (r#"\b(N(O?S)?\.? S(R|EN(H(OR)?)?)?\.?( DE?)?|NOSSA SENHORA|NS) (FAT.*|LO?UR.*|SANTANA|GUADALUPE|NAZ.*|COP*)\b"#, r#"NOSSA SENHORA DE $7"#),
        (r#"\b(N(O?S)?\.? S(R|EN(H(OR)?)?)?\.?( D(A|E)?)?|NOSSA SENHORA|NS) (GRACA|VITORIA|PENHA|CONCEICAO|PAZ|GUIA|AJUDA|CANDELARIA|PURIFICACAO|SAUDE|PIEDADE|ABADIA|GLORIA|SALETE|APRESENTACAO)\b"#, r#"NOSSA SENHORA DA $8"#),
        (r#"\b(N(O?S)?\.? S(R|EN(H(OR)?)?)?\.?( D(A|E)?)?|NOSSA SENHORA D(A|E)|NS) (APA.*|AUX.*|MEDIANEIRA|CONSOLADORA)\b"#, r#"NOSSA SENHORA $9"#),
        (r#"\b(N(O?S)?\.? S(R|EN(H(OR)?)?)?\.?( D(OS?)?)?|NOSSA SENHORA|NS) (NAVEGANTES)\b"#, r#"NOSSA SENHORA DOS $8"#),
        (r#"\b(N(O?S)?\.? S(R|EN(H(OR)?)?)?\.?( DO?)?|NOSSA SENHORA|NS) (CARMO|LIVRAMENTO|RETIRO|SION|ROSARIO|PILAR|ROCIO|CAMINHO|DESTERRO|BOM CONSELHO|AMPARO|PERP.*|P.* S.*)\b"#, r#"NOSSA SENHORA DO $7"#),
        (r#"\b(N(O?S)?\.? S(R|EN(H(OR)?)?)?\.?( D(AS?)?)?|NOSSA SENHORA|NS) (GRACAS|DORES)\b"#, r#"NOSSA SENHORA DAS $8"#),
        (r#"\b(S(R|ENH?)\.?( D(OS?)?)?|SENHOR( D(OS)?)?) (BON\w*)\b"#, r#"SENHOR DO BONFIM"#),
        (r#"\b(S(R|ENH?)\.?( D(OS?)?)?|SENHOR( D(OS?)?)?) (BOM ?F\w*)\b"#, r#"SENHOR DO BONFIM"#),
        (r#"\b(S(R|ENH?)\.?( D(OS?)?)?|SENHOR) (PASS\w*|MONT\w*)\b"#, r#"SENHOR DOS $5"#),
        (r#"\bS(R|ENH?)\.? (BOM J\w*)\b"#, r#"SENHOR BOM JESUS"#),
        (r#"\b(N(O?S)?\.? S(R|EN(H(OR)?)?)?\.?( D(OS?)?)?|NOSSO SENHOR|NS) (BONF\w*|BOM ?F\w*)\b"#, r#"NOSSO SENHOR DO BONFIM"#),
        (r#"\b(N(O?S)?\.? S(R|EN(H(OR)?)?)?\.?( D(OS?)?)?|NOSSO SENHOR|NS) (PASS\w*|MONT\w*)\b"#, r#"NOSSO SENHOR DOS $8"#),
        (r#"\bESP?\.? SANTO"#, r#"ESPIRITO SANTO"#),
        (r#"\bDIV\.? ESPIRITO SANTO\b"#, r#"DIVINO ESPIRITO SANTO"#),
        (r#"\bS\.? (PAULO|VICENTE|FRANCISCO|DOMINGOS?|CRISTOVAO)\b"#, r#"SAO $1"#),
        (r#"\bALMTE\b\.?"#, r#"ALMIRANTE"#),
        (r#"\bMAL\b\.?(.)"#, r#"MARECHAL$1"#),
        (r#"\bSGTO?\b\.?"#, r#"SARGENTO"#),
        (r#"\bCEL\b\.?"#, r#"CORONEL"#),
        (r#"\bBRIG\b\.?"#, r#"BRIGADEIRO"#),
        (r#"\bTEN\b\.?"#, r#"TENENTE"#),
        (r#"\bBRIGADEIRO (F\.?|FARIA) (L|LIMA)\b\.?"#, r#"BRIGADEIRO FARIA LIMA"#),
        (r#"\bPRES(ID)?\b\.?(.)"#, r#"PRESIDENTE$2"#),
        (r#"\bGOV\b\.?"#, r#"GOVERNADOR"#),
        (r#"\bPREF\b\.?(.)"#, r#"PREFEITO$1"#),
        (r#"\bDEP\b\.?(.)"#, r#"DEPUTADO$1"#),
        (r#"\bDR\b\.?"#, r#"DOUTOR"#),
        (r#"\bDRA\b\.?"#, r#"DOUTORA"#),
        (r#"\bPROF\b\.?"#, r#"PROFESSOR"#),
        (r#"\bPROFA\b\.?"#, r#"PROFESSORA"#),
        (r#"\bPE\b\.(.)"#, r#"PADRE$1"#),
        (r#"\bD\b\.? (PEDRO|JOAO|HENRIQUE)"#, r#"DOM $1"#),
        (r#"\bI(NF)?\.? DOM\b"#, r#"INFANTE DOM"#),
        (r#"\b(\d+) DE? JAN(EIRO)?\b"#, r#"$1 DE JANEIRO"#),
        (r#"\b(\d+) DE? FEV(EREIRO)?\b"#, r#"$1 DE FEVEREIRO"#),
        (r#"\b(\d+) DE? MAR(CO)?\b"#, r#"$1 DE MARCO"#),
        (r#"\b(\d+) DE? ABR(IL)?\b"#, r#"$1 DE ABRIL"#),
        (r#"\b(\d+) DE? MAI(O)?\b"#, r#"$1 DE MAIO"#),
        (r#"\b(\d+) DE? JUN(HO)?\b"#, r#"$1 DE JUNHO"#),
        (r#"\b(\d+) DE? JUL(HO)?\b"#, r#"$1 DE JULHO"#),
        (r#"\b(\d+) DE? AGO(STO)?\b"#, r#"$1 DE AGOSTO"#),
        (r#"\b(\d+) DE? SET(EMBRO)?\b"#, r#"$1 DE SETEMBRO"#),
        (r#"\b(\d+) DE? OUT(UBRO)?\b"#, r#"$1 DE OUTUBRO"#),
        (r#"\b(\d+) DE? NOV(EMBRO)?\b"#, r#"$1 DE NOVEMBRO"#),
        (r#"\b(\d+) DE? DEZ(EMBRO)?\b"#, r#"$1 DE DEZEMBRO"#),
    ];
    assert(v@ =~= pares_bairro());
    v
}

/// Constrói o padronizador de nomes de bairros com as regras de `catalogo_bairro`, em ordem,
/// e o seu conjunto de padrões. Falha exatamente quando algum padrão do catálogo não compila.
pub fn padronizador_bairro() -> (r: Result<PadronizadorDani, ErroPadrao>)
    ensures
        r is Ok <==> regras_validas(catalogo_bairro()),
        r matches Ok(p) ==> p.wf() && p.regras() == catalogo_bairro() && (p.preparado()
            <==> conjunto_compila(padroes_de(catalogo_bairro()))),
{
    let pares = vetor_pares_bairro();
    let ghost cat = catalogo_bairro();
    let mut padronizador = PadronizadorDani::new();
    let n = pares.len();
    let mut i: usize = 0;
    while i < n
        invariant
            n == pares@.len(),
            pares@ == pares_bairro(),
            cat == catalogo_bairro(),
            cat.len() == n,
            i <= n,
            padronizador.wf(),
            padronizador.regras() == cat.subrange(0, i as int),
            regras_validas(cat.subrange(0, i as int)),
        decreases n - i,
    {
        let ghost antes = padronizador.regras();
        match padronizador.adicionar_sub(pares[i].0, pares[i].1) {
            Ok(()) => {},
            Err(e) => {
                assert(!regra_valida(cat[i as int].0, cat[i as int].2));
                return Err(e);
            },
        }
        assert(cat.subrange(0, i + 1) =~= cat.subrange(0, i as int).push(cat[i as int]));
        assert(regras_validas(cat.subrange(0, i + 1))) by {
            assert forall|k: int| 0 <= k < i + 1 implies regra_valida(
                #[trigger] cat.subrange(0, i + 1)[k].0,
                cat.subrange(0, i + 1)[k].2,
            ) by {
                if k < i {
                    assert(cat.subrange(0, i + 1)[k] == cat.subrange(0, i as int)[k]);
                }
            }
        }
        i += 1;
    }
    assert(cat.subrange(0, n as int) =~= cat);
    padronizador.criar_grupo_padroes();
    Ok(padronizador)
}

/// Se o padrão compila; a regra não tem padrão de exclusão.
pub open spec fn regex_valida_sem_ignorar(p: Seq<char>) -> bool {
    regra_valida(p, None)
}

} // verus!
