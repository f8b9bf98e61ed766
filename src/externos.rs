//! Padronizadores por campo do catálogo de `enderecobr_rs`, aplicados a lotes com cache.
use vstd::prelude::*;
use crate::lote::{mapear_com_cache, saida_lote, vista_opcional};
use crate::bairro::triplas;
use crate::regras::RegraV;

verus! {

/// Nome de bairro padronizado segundo `enderecobr_rs::padronizar_bairros`.
pub uninterp spec fn bairros_of(s: Seq<char>) -> Seq<char>;

/// Complemento padronizado segundo `enderecobr_rs::padronizar_complementos`.
pub uninterp spec fn complementos_of(s: Seq<char>) -> Seq<char>;

/// Logradouro padronizado segundo `enderecobr_rs::padronizar_logradouros`.
pub uninterp spec fn logradouros_of(s: Seq<char>) -> Seq<char>;

/// Tipo de logradouro padronizado segundo `enderecobr_rs::padronizar_tipo_logradouro`.
pub uninterp spec fn tipos_logradouro_of(s: Seq<char>) -> Seq<char>;

/// Município padronizado segundo `enderecobr_rs::padronizar_municipios`.
pub uninterp spec fn municipios_of(s: Seq<char>) -> Seq<char>;

/// Número padronizado segundo `enderecobr_rs::padronizar_numeros`.
pub uninterp spec fn numeros_of(s: Seq<char>) -> Seq<char>;

/// Sigla do estado segundo `enderecobr_rs::padronizar_estados_para_sigla`.
pub uninterp spec fn estado_sigla_of(s: Seq<char>) -> Seq<char>;

/// Nome do estado segundo `enderecobr_rs::padronizar_estados_para_nome`.
pub uninterp spec fn estado_nome_of(s: Seq<char>) -> Seq<char>;

/// Relies on `enderecobr_rs::padronizar_bairros`: the result depends on the text alone.
#[verifier::external_body]
fn bairro_externo(s: &str) -> (r: String)
    ensures
        r@ == bairros_of(s@),
{
    enderecobr_rs::padronizar_bairros(s)
}

/// Relies on `enderecobr_rs::padronizar_complementos`: the result depends on the text alone.
#[verifier::external_body]
fn complemento_externo(s: &str) -> (r: String)
    ensures
        r@ == complementos_of(s@),
{
    enderecobr_rs::padronizar_complementos(s)
}

/// Relies on `enderecobr_rs::padronizar_logradouros`: the result depends on the text alone.
#[verifier::external_body]
fn logradouro_externo(s: &str) -> (r: String)
    ensures
        r@ == logradouros_of(s@),
{
    enderecobr_rs::padronizar_logradouros(s)
}

/// Relies on `enderecobr_rs::padronizar_tipo_logradouro`: the result depends on the text alone.
#[verifier::external_body]
fn tipo_logradouro_externo(s: &str) -> (r: String)
    ensures
        r@ == tipos_logradouro_of(s@),
{
    enderecobr_rs::padronizar_tipo_logradouro(s)
}

/// Relies on `enderecobr_rs::padronizar_municipios`: the result depends on the text alone.
#[verifier::external_body]
fn municipio_externo(s: &str) -> (r: String)
    ensures
        r@ == municipios_of(s@),
{
    enderecobr_rs::padronizar_municipios(s)
}

/// Relies on `enderecobr_rs::padronizar_numeros`: the result depends on the text alone.
#[verifier::external_body]
fn numero_externo(s: &str) -> (r: String)
    ensures
        r@ == numeros_of(s@),
{
    enderecobr_rs::padronizar_numeros(s)
}

/// Relies on `enderecobr_rs::padronizar_estados_para_sigla`: the result depends on the text
/// alone.
#[verifier::external_body]
fn estado_sigla_externo(s: &str) -> (r: String)
    ensures
        r@ == estado_sigla_of(s@),
{
    enderecobr_rs::padronizar_estados_para_sigla(s).to_string()
}

/// Relies on `enderecobr_rs::padronizar_estados_para_nome`: the result depends on the text
/// alone.
#[verifier::external_body]
fn estado_nome_externo(s: &str) -> (r: String)
    ensures
        r@ == estado_nome_of(s@),
{
    enderecobr_rs::padronizar_estados_para_nome(s).to_string()
}

/// As regras, em ordem, de cada catálogo pronto de `enderecobr_rs`.
pub uninterp spec fn catalogo_logradouros_of(u: ()) -> Seq<RegraV>;

pub uninterp spec fn catalogo_numeros_of(u: ()) -> Seq<RegraV>;

pub uninterp spec fn catalogo_bairros_of(u: ()) -> Seq<RegraV>;

pub uninterp spec fn catalogo_complementos_of(u: ()) -> Seq<RegraV>;

pub uninterp spec fn catalogo_tipos_logradouros_of(u: ()) -> Seq<RegraV>;

/// As regras de um catálogo pronto como três vetores paralelos: padrões, substituições e
/// padrões de exclusão.
pub type VetoresDeRegras = (Vec<String>, Vec<String>, Vec<Option<String>>);

/// Relies on `enderecobr_rs::logradouro::criar_padronizador_logradouros` and `enderecobr_rs::Padronizador::obter_vetores`: the
/// street-name rules, with one entry per rule in each of the three vectors.
#[verifier::external_body]
pub(crate) fn regras_logradouros() -> (r: VetoresDeRegras)
    ensures
        r.0.len() == r.1.len(),
        r.0.len() == r.2.len(),
        triplas(r.0@, r.1@, r.2@) == catalogo_logradouros_of(()),
{
    let catalogo = enderecobr_rs::logradouro::criar_padronizador_logradouros();
    let (regex, subst, ignorar) = catalogo.obter_vetores();
    (
        regex.into_iter().map(String::from).collect(),
        subst.into_iter().map(String::from).collect(),
        ignorar.into_iter().map(|i| i.map(String::from)).collect(),
    )
}

/// Relies on `enderecobr_rs::numero::criar_padronizador_numeros` and `enderecobr_rs::Padronizador::obter_vetores`: the
/// house-number rules, with one entry per rule in each of the three vectors.
#[verifier::external_body]
pub(crate) fn regras_numeros() -> (r: VetoresDeRegras)
    ensures
        r.0.len() == r.1.len(),
        r.0.len() == r.2.len(),
        triplas(r.0@, r.1@, r.2@) == catalogo_numeros_of(()),
{
    let catalogo = enderecobr_rs::numero::criar_padronizador_numeros();
    let (regex, subst, ignorar) = catalogo.obter_vetores();
    (
        regex.into_iter().map(String::from).collect(),
        subst.into_iter().map(String::from).collect(),
        ignorar.into_iter().map(|i| i.map(String::from)).collect(),
    )
}

/// Relies on `enderecobr_rs::bairro::criar_padronizador_bairros` and `enderecobr_rs::Padronizador::obter_vetores`: the
/// neighbourhood rules, with one entry per rule in each of the three vectors.
#[verifier::external_body]
pub(crate) fn regras_bairros() -> (r: VetoresDeRegras)
    ensures
        r.0.len() == r.1.len(),
        r.0.len() == r.2.len(),
        triplas(r.0@, r.1@, r.2@) == catalogo_bairros_of(()),
{
    let catalogo = enderecobr_rs::bairro::criar_padronizador_bairros();
    let (regex, subst, ignorar) = catalogo.obter_vetores();
    (
        regex.into_iter().map(String::from).collect(),
        subst.into_iter().map(String::from).collect(),
        ignorar.into_iter().map(|i| i.map(String::from)).collect(),
    )
}

/// Relies on `enderecobr_rs::complemento::criar_padronizador_complemento` and `enderecobr_rs::Padronizador::obter_vetores`: the
/// complement rules, with one entry per rule in each of the three vectors.
#[verifier::external_body]
pub(crate) fn regras_complementos() -> (r: VetoresDeRegras)
    ensures
        r.0.len() == r.1.len(),
        r.0.len() == r.2.len(),
        triplas(r.0@, r.1@, r.2@) == catalogo_complementos_of(()),
{
    let catalogo = enderecobr_rs::complemento::criar_padronizador_complemento();
    let (regex, subst, ignorar) = catalogo.obter_vetores();
    (
        regex.into_iter().map(String::from).collect(),
        subst.into_iter().map(String::from).collect(),
        ignorar.into_iter().map(|i| i.map(String::from)).collect(),
    )
}

/// Relies on `enderecobr_rs::tipo_logradouro::criar_padronizador_tipo_logradouro` and `enderecobr_rs::Padronizador::obter_vetores`: the
/// street-type rules, with one entry per rule in each of the three vectors.
#[verifier::external_body]
pub(crate) fn regras_tipos_logradouros() -> (r: VetoresDeRegras)
    ensures
        r.0.len() == r.1.len(),
        r.0.len() == r.2.len(),
        triplas(r.0@, r.1@, r.2@) == catalogo_tipos_logradouros_of(()),
{
    let catalogo = enderecobr_rs::tipo_logradouro::criar_padronizador_tipo_logradouro();
    let (regex, subst, ignorar) = catalogo.obter_vetores();
    (
        regex.into_iter().map(String::from).collect(),
        subst.into_iter().map(String::from).collect(),
        ignorar.into_iter().map(|i| i.map(String::from)).collect(),
    )
}

/// Padroniza um lote de nomes de bairros.
pub fn padronizar_bairros_rs(x: Vec<Option<String>>) -> (r: Vec<Option<String>>)
    ensures
        r.len() == x.len(),
        forall|i: int|
            0 <= i < x.len() ==> vista_opcional(#[trigger] r[i]) == saida_lote(
                x[i],
                |s: Seq<char>| bairros_of(s),
            ),
{
    mapear_com_cache(&x, bairro_externo, Ghost(|s: Seq<char>| bairros_of(s)))
}

/// Padroniza um lote de complementos.
pub fn padronizar_complementos_rs(x: Vec<Option<String>>) -> (r: Vec<Option<String>>)
    ensures
        r.len() == x.len(),
        forall|i: int|
            0 <= i < x.len() ==> vista_opcional(#[trigger] r[i]) == saida_lote(
                x[i],
                |s: Seq<char>| complementos_of(s),
            ),
{
    mapear_com_cache(&x, complemento_externo, Ghost(|s: Seq<char>| complementos_of(s)))
}

/// Padroniza um lote de logradouros.
pub fn padronizar_logradouros_rs(x: Vec<Option<String>>) -> (r: Vec<Option<String>>)
    ensures
        r.len() == x.len(),
        forall|i: int|
            0 <= i < x.len() ==> vista_opcional(#[trigger] r[i]) == saida_lote(
                x[i],
                |s: Seq<char>| logradouros_of(s),
            ),
{
    mapear_com_cache(&x, logradouro_externo, Ghost(|s: Seq<char>| logradouros_of(s)))
}

/// Padroniza um lote de tipos de logradouro.
pub fn padronizar_tipos_de_logradouros_rs(x: Vec<Option<String>>) -> (r: Vec<Option<String>>)
    ensures
        r.len() == x.len(),
        forall|i: int|
            0 <= i < x.len() ==> vista_opcional(#[trigger] r[i]) == saida_lote(
                x[i],
                |s: Seq<char>| tipos_logradouro_of(s),
            ),
{
    mapear_com_cache(&x, tipo_logradouro_externo, Ghost(|s: Seq<char>| tipos_logradouro_of(s)))
}

/// Padroniza um lote de municípios.
pub fn padronizar_municipios_rs(x: Vec<Option<String>>) -> (r: Vec<Option<String>>)
    ensures
        r.len() == x.len(),
        forall|i: int|
            0 <= i < x.len() ==> vista_opcional(#[trigger] r[i]) == saida_lote(
                x[i],
                |s: Seq<char>| municipios_of(s),
            ),
{
    mapear_com_cache(&x, municipio_externo, Ghost(|s: Seq<char>| municipios_of(s)))
}

/// Padroniza um lote de números de endereço.
pub fn padronizar_numeros_rs(x: Vec<Option<String>>) -> (r: Vec<Option<String>>)
    ensures
        r.len() == x.len(),
        forall|i: int|
            0 <= i < x.len() ==> vista_opcional(#[trigger] r[i]) == saida_lote(
                x[i],
                |s: Seq<char>| numeros_of(s),
            ),
{
    mapear_com_cache(&x, numero_externo, Ghost(|s: Seq<char>| numeros_of(s)))
}

/// Forma de saída dos estados.
#[derive(Debug, Clone, Copy, PartialEq, Eq, Structural)]
pub enum FormatoEstado {
    Sigla,
    PorExtenso,
}

/// O padronizador de estados para o formato `f`.
pub open spec fn estado_of(f: FormatoEstado, s: Seq<char>) -> Seq<char> {
    match f {
        FormatoEstado::Sigla => estado_sigla_of(s),
        FormatoEstado::PorExtenso => estado_nome_of(s),
    }
}

/// Padroniza um lote de estados, para a sigla ou para o nome por extenso.
pub fn padronizar_estados_rs(x: Vec<Option<String>>, formato: FormatoEstado) -> (r: Vec<
    Option<String>,
>)
    ensures
        r.len() == x.len(),
        forall|i: int|
            0 <= i < x.len() ==> vista_opcional(#[trigger] r[i]) == saida_lote(
                x[i],
                |s: Seq<char>| estado_of(formato, s),
            ),
{
    match formato {
        FormatoEstado::Sigla => mapear_com_cache(
            &x,
            estado_sigla_externo,
            Ghost(|s: Seq<char>| estado_of(formato, s)),
        ),
        FormatoEstado::PorExtenso => mapear_com_cache(
            &x,
            estado_nome_externo,
            Ghost(|s: Seq<char>| estado_of(formato, s)),
        ),
    }
}

} // verus!
