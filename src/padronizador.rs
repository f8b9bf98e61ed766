//! Padronizador configurável: um motor de regras aplicado a lotes de valores opcionais.
use vstd::prelude::*;
use crate::bairro::{PadronizadorDani, padronizado, regras_validas, triplas, triplas_validas};
use crate::lote::{mapear_com_cache, saida_lote, vista_opcional};
use crate::regras::{ErroPadrao, RegraV, regra_valida};
use crate::externos::{
    VetoresDeRegras, catalogo_bairros_of, catalogo_complementos_of, catalogo_logradouros_of,
    catalogo_numeros_of, catalogo_tipos_logradouros_of, regras_bairros, regras_complementos, regras_logradouros, regras_numeros,
    regras_tipos_logradouros,
};

verus! {

/// Um motor de regras exposto para lotes de valores opcionais.
///
/// O motor é `PadronizadorDani`: o texto passa para maiúsculas, perde os espaços das pontas e
/// é transliterado por `unidecode`; as regras que agem são escolhidas uma única vez, pelos
/// padrões que casam nesse texto inicial, e aplicadas em ordem; os modelos de substituição
/// são usados como foram dados. Uma regra cujo padrão só passa a casar depois de outra
/// substituição não age. Os catálogos prontos de `obter_padronizador_*` rodam neste mesmo
/// motor, e por isso podem dar resultados diferentes dos padronizadores de `enderecobr_rs`,
/// que reavaliam os padrões depois de cada regra.
pub struct Padronizador {
    pub interno: PadronizadorDani,
}

/// As substituições dadas como opcionais: uma ausente é o texto vazio.
pub open spec fn substituicoes_ou_vazio(subst: Seq<Option<String>>) -> Seq<Seq<char>> {
    subst.map_values(|o: Option<String>| match o {
        Some(s) => s@,
        None => Seq::<char>::empty(),
    })
}

/// As regras dadas por padrões, substituições opcionais e padrões de exclusão.
pub open spec fn regras_de(
    regex: Seq<String>,
    subst: Seq<Option<String>>,
    ignorar: Seq<Option<String>>,
) -> Seq<RegraV> {
    Seq::new(
        regex.len(),
        |i: int| (regex[i]@, substituicoes_ou_vazio(subst)[i], vista_opcional(ignorar[i])),
    )
}

impl Padronizador {
    /// As regras do padronizador, em ordem.
    pub open spec fn regras(&self) -> Seq<RegraV> {
        self.interno.regras()
    }

    pub open spec fn wf(&self) -> bool {
        self.interno.wf()
    }

    /// Acrescenta as regras dadas por três vetores paralelos: padrões, substituições (uma
    /// ausente é o texto vazio) e padrões de exclusão. Falha se algum padrão não compila.
    pub fn adicionar_substituicoes(
        &mut self,
        regex: &Vec<String>,
        subst: &Vec<Option<String>>,
        ignorar: &Vec<Option<String>>,
    ) -> (r: Result<(), ErroPadrao>)
        requires
            old(self).wf(),
            regex.len() == subst.len(),
            regex.len() == ignorar.len(),
        ensures
            final(self).wf(),
            r is Ok <==> triplas_validas(regex@, ignorar@),
            r is Ok ==> final(self).regras() == old(self).regras() + regras_de(
                regex@,
                subst@,
                ignorar@,
            ),
    {
        let mut textos: Vec<String> = Vec::new();
        let n = subst.len();
        let mut i: usize = 0;
        while i < n
            invariant
                n == subst.len(),
                i <= n,
                textos.len() == i,
                forall|j: int| 0 <= j < i ==> (#[trigger] textos[j])@ == substituicoes_ou_vazio(
                    subst@,
                )[j],
            decreases n - i,
        {
            match &subst[i] {
                Some(s) => textos.push(s.clone()),
                None => textos.push(String::new()),
            }
            i += 1;
        }
        let r = self.interno.adicionar_vetores(regex, &textos, ignorar);
        assert(triplas(regex@, textos@, ignorar@) =~= regras_de(regex@, subst@, ignorar@));
        r
    }

    /// Padroniza um lote de valores com as regras do padronizador, com cache por valor
    /// distinto; ausentes e resultados vazios ficam ausentes.
    pub fn padronizar(&self, valor: Vec<Option<String>>) -> (r: Vec<Option<String>>)
        requires
            self.wf(),
        ensures
            r.len() == valor.len(),
            forall|i: int|
                0 <= i < valor.len() ==> vista_opcional(#[trigger] r[i]) == saida_lote(
                    valor[i],
                    |s: Seq<char>| padronizado(self.regras(), s),
                ),
    {
        let interno = &self.interno;
        mapear_com_cache(
            &valor,
            (|x: &str| -> (t: String)
                requires
                    interno.wf(),
                ensures
                    t@ == padronizado(interno.regras(), x@),
                { interno.padronizar(x) }),
            Ghost(|s: Seq<char>| padronizado(self.regras(), s)),
        )
    }

    /// As regras como três vetores paralelos: padrões, substituições e padrões de exclusão.
    pub fn obter_substituicoes(&self) -> (r: (Vec<String>, Vec<String>, Vec<Option<String>>))
        ensures
            r.0.len() == self.regras().len(),
            r.1.len() == self.regras().len(),
            r.2.len() == self.regras().len(),
            triplas(r.0@, r.1@, r.2@) == self.regras(),
    {
        self.interno.obter_vetores()
    }
}

/// Um padronizador com as regras dadas por padrões, substituições (uma ausente é o texto
/// vazio) e, se houver, padrões de exclusão; sem eles, nenhuma regra tem exclusão.
pub fn novo_padronizador(
    regex: &Vec<String>,
    subst: &Vec<Option<String>>,
    ignorar: Option<&Vec<Option<String>>>,
) -> (r: Result<Padronizador, ErroPadrao>)
    requires
        regex.len() == subst.len(),
        ignorar matches Some(v) ==> v.len() == regex.len(),
    ensures
        ({
            let ig = match ignorar {
                Some(v) => v@,
                None => Seq::new(regex.len() as nat, |i: int| None::<String>),
            };
            &&& r is Ok <==> triplas_validas(regex@, ig)
            &&& r matches Ok(p) ==> p.wf() && p.regras() == regras_de(regex@, subst@, ig)
        }),
{
    let sem_exclusao: Vec<Option<String>>;
    let ig: &Vec<Option<String>> = match ignorar {
        Some(v) => v,
        None => {
            let mut v: Vec<Option<String>> = Vec::new();
            let mut i: usize = 0;
            while i < regex.len()
                invariant
                    i <= regex.len(),
                    v@ == Seq::new(i as nat, |k: int| None::<String>),
                decreases regex.len() - i,
            {
                v.push(None);
                i += 1;
            }
            sem_exclusao = v;
            &sem_exclusao
        },
    };
    let mut p = Padronizador { interno: PadronizadorDani::new() };
    match p.adicionar_substituicoes(regex, subst, ig) {
        Ok(()) => {
            assert(Seq::<RegraV>::empty() + regras_de(regex@, subst@, ig@) =~= regras_de(
                regex@,
                subst@,
                ig@,
            ));
            Ok(p)
        },
        Err(e) => Err(e),
    }
}

/// Um padronizador com as mesmas regras, na mesma ordem, que um catálogo pronto.
fn de_catalogo(catalogo: VetoresDeRegras) -> (r: Result<Padronizador, ErroPadrao>)
    requires
        catalogo.0.len() == catalogo.1.len(),
        catalogo.0.len() == catalogo.2.len(),
    ensures
        r is Ok <==> regras_validas(triplas(catalogo.0@, catalogo.1@, catalogo.2@)),
        r matches Ok(p) ==> p.wf() && p.regras() == triplas(
            catalogo.0@,
            catalogo.1@,
            catalogo.2@,
        ),
{
    let (regex, subst, ignorar) = catalogo;
    let ghost t = triplas(regex@, subst@, ignorar@);
    assert(triplas_validas(regex@, ignorar@) == regras_validas(t)) by {
        if triplas_validas(regex@, ignorar@) {
            assert forall|i: int| 0 <= i < t.len() implies regra_valida(
                #[trigger] t[i].0,
                t[i].2,
            ) by {
                assert(regra_valida(regex@[i]@, vista_opcional(ignorar@[i])));
            }
        }
        if regras_validas(t) {
            assert forall|i: int| 0 <= i < regex@.len() implies regra_valida(
                #[trigger] regex@[i]@,
                vista_opcional(ignorar@[i]),
            ) by {
                assert(regra_valida(t[i].0, t[i].2));
            }
        }
    }
    match PadronizadorDani::construir(&regex, &subst, &ignorar) {
        Ok(interno) => Ok(Padronizador { interno }),
        Err(e) => Err(e),
    }
}

/// O padronizador de logradouros do catálogo, para consulta ou extensão.
pub fn obter_padronizador_logradouros() -> (r: Result<Padronizador, ErroPadrao>)
    ensures
        r is Ok <==> regras_validas(catalogo_logradouros_of(())),
        r matches Ok(p) ==> p.wf() && p.regras() == catalogo_logradouros_of(()),
{
    de_catalogo(regras_logradouros())
}

/// O padronizador de números do catálogo, para consulta ou extensão.
pub fn obter_padronizador_numeros() -> (r: Result<Padronizador, ErroPadrao>)
    ensures
        r is Ok <==> regras_validas(catalogo_numeros_of(())),
        r matches Ok(p) ==> p.wf() && p.regras() == catalogo_numeros_of(()),
{
    de_catalogo(regras_numeros())
}

/// O padronizador de bairros do catálogo, para consulta ou extensão.
pub fn obter_padronizador_bairros() -> (r: Result<Padronizador, ErroPadrao>)
    ensures
        r is Ok <==> regras_validas(catalogo_bairros_of(())),
        r matches Ok(p) ==> p.wf() && p.regras() == catalogo_bairros_of(()),
{
    de_catalogo(regras_bairros())
}

/// O padronizador de complementos do catálogo, para consulta ou extensão.
pub fn obter_padronizador_complementos() -> (r: Result<Padronizador, ErroPadrao>)
    ensures
        r is Ok <==> regras_validas(catalogo_complementos_of(())),
        r matches Ok(p) ==> p.wf() && p.regras() == catalogo_complementos_of(()),
{
    de_catalogo(regras_complementos())
}

/// O padronizador de tipos de logradouro do catálogo, para consulta ou extensão.
pub fn obter_padronizador_tipos_logradouros() -> (r: Result<Padronizador, ErroPadrao>)
    ensures
        r is Ok <==> regras_validas(catalogo_tipos_logradouros_of(())),
        r matches Ok(p) ==> p.wf() && p.regras() == catalogo_tipos_logradouros_of(()),
{
    de_catalogo(regras_tipos_logradouros())
}

} // verus!
