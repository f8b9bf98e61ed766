//! Padronização de CEPs: validação e formatação no padrão `NNNNN-NNN`.
use vstd::prelude::*;
use crate::lote::{ausente_se_vazio, copiar_opcional, hash_texto, vista_opcional};
use std::collections::HashMap;
use crate::texto::{eh_digito, eh_espaco, eh_letra, espaco, letra, chars_de, string_de_chars};

verus! {

/// Tipo de falha na padronização de um CEP.
#[derive(Debug, Clone, Copy, PartialEq, Eq, Structural)]
pub enum TipoErroCep {
    ContemLetras,
    MuitosDigitos,
    ForaDoIntervalo,
}

/// Erro de validação de CEP, com os índices dos elementos que falharam.
#[derive(Debug)]
pub enum CepError {
    ContemLetras(Vec<usize>),
    MuitosDigitos(Vec<usize>),
    ForaDoIntervalo(Vec<usize>),
}

impl CepError {
    pub open spec fn tipo_spec(&self) -> TipoErroCep {
        match self {
            CepError::ContemLetras(_) => TipoErroCep::ContemLetras,
            CepError::MuitosDigitos(_) => TipoErroCep::MuitosDigitos,
            CepError::ForaDoIntervalo(_) => TipoErroCep::ForaDoIntervalo,
        }
    }

    pub open spec fn indices_spec(&self) -> Seq<usize> {
        match self {
            CepError::ContemLetras(v) => v@,
            CepError::MuitosDigitos(v) => v@,
            CepError::ForaDoIntervalo(v) => v@,
        }
    }

    /// O tipo da falha.
    pub fn tipo(&self) -> (r: TipoErroCep)
        ensures
            r == self.tipo_spec(),
    {
        match self {
            CepError::ContemLetras(_) => TipoErroCep::ContemLetras,
            CepError::MuitosDigitos(_) => TipoErroCep::MuitosDigitos,
            CepError::ForaDoIntervalo(_) => TipoErroCep::ForaDoIntervalo,
        }
    }
}

/// Os números de `v` em decimal, separados por vírgula e espaço.
pub open spec fn corpo_lista(v: Seq<usize>) -> Seq<char>
    decreases v.len(),
{
    if v.len() == 0 {
        Seq::empty()
    } else if v.len() == 1 {
        decimal(v[0] as nat)
    } else {
        corpo_lista(v.drop_last()) + seq![',', ' '] + decimal(v.last() as nat)
    }
}

/// As posições `v` escritas como lista: `[1, 3]`.
pub open spec fn lista_texto(v: Seq<usize>) -> Seq<char> {
    seq!['['] + corpo_lista(v) + seq![']']
}

fn texto_indices(v: &Vec<usize>) -> (r: String)
    ensures
        r@ == lista_texto(v@),
{
    let mut saida: Vec<char> = Vec::new();
    saida.push('[');
    let n = v.len();
    let mut j: usize = 0;
    while j < n
        invariant
            n == v.len(),
            j <= n,
            saida@ == seq!['['] + corpo_lista(v@.subrange(0, j as int)),
        decreases n - j,
    {
        let ghost antes = saida@;
        if j > 0 {
            saida.push(',');
            saida.push(' ');
        }
        let d = digitos_decimais(v[j] as u64);
        let mut k: usize = 0;
        let ghost meio = saida@;
        while k < d.len()
            invariant
                k <= d.len(),
                saida@ == meio + d@.subrange(0, k as int),
            decreases d.len() - k,
        {
            saida.push(d[k]);
            k += 1;
        }
        let ghost s1 = v@.subrange(0, j + 1);
        assert(s1.drop_last() =~= v@.subrange(0, j as int));
        assert(d@.subrange(0, d@.len() as int) =~= d@);
        if j > 0 {
            assert(saida@ =~= seq!['['] + corpo_lista(s1));
        } else {
            assert(s1 =~= seq![v@[0]]);
            assert(saida@ =~= seq!['['] + corpo_lista(s1));
        }
        j += 1;
    }
    saida.push(']');
    assert(v@.subrange(0, n as int) =~= v@);
    string_de_chars(&saida)
}

/// A mensagem de um erro do tipo `k` nas posições `v`.
pub open spec fn mensagem_erro(k: TipoErroCep, v: Seq<usize>) -> Seq<char> {
    match k {
        TipoErroCep::ContemLetras => "CEP não deve conter letras. Elementos com índices "@
            + lista_texto(v) + " possuem letras."@,
        TipoErroCep::MuitosDigitos => "CEP não deve conter mais que 8 dígitos. Elementos com índices "@
            + lista_texto(v) + " possuem mais que 8 dígitos após padronização."@,
        TipoErroCep::ForaDoIntervalo => "CEP numérico deve estar entre 0 e 99999999. Elementos com índices "@
            + lista_texto(v) + " estão fora desse intervalo."@,
    }
}

impl CepError {
    /// A mensagem do erro, com as posições que falharam.
    pub fn mensagem(&self) -> (r: String)
        ensures
            r@ == mensagem_erro(self.tipo_spec(), self.indices_spec()),
    {
        match self {
            CepError::ContemLetras(v) => {
                let mut s = String::from_str("CEP não deve conter letras. Elementos com índices ");
                s.append(texto_indices(v).as_str());
                s.append(" possuem letras.");
                s
            },
            CepError::MuitosDigitos(v) => {
                let mut s = String::from_str(
                    "CEP não deve conter mais que 8 dígitos. Elementos com índices ",
                );
                s.append(texto_indices(v).as_str());
                s.append(" possuem mais que 8 dígitos após padronização.");
                s
            },
            CepError::ForaDoIntervalo(v) => {
                let mut s = String::from_str(
                    "CEP numérico deve estar entre 0 e 99999999. Elementos com índices ",
                );
                s.append(texto_indices(v).as_str());
                s.append(" estão fora desse intervalo.");
                s
            },
        }
    }
}

/// Todos os caracteres são espaços (vale para o texto vazio).
pub open spec fn so_espacos(s: Seq<char>) -> bool {
    forall|i: int| 0 <= i < s.len() ==> espaco(#[trigger] s[i])
}

/// Algum caractere é uma letra.
pub open spec fn tem_letra(s: Seq<char>) -> bool {
    exists|i: int| 0 <= i < s.len() && letra(#[trigger] s[i])
}

/// Os dígitos de `s`, em ordem; os demais caracteres são descartados.
pub open spec fn so_digitos(s: Seq<char>) -> Seq<char>
    decreases s.len(),
{
    if s.len() == 0 {
        Seq::empty()
    } else if eh_digito(s.last()) {
        so_digitos(s.drop_last()).push(s.last())
    } else {
        so_digitos(s.drop_last())
    }
}

/// Os dígitos `d` completados com zeros à esquerda até oito e separados em `NNNNN-NNN`.
pub open spec fn cep_canonico(d: Seq<char>) -> Seq<char> {
    let p = Seq::new((8 - d.len()) as nat, |i: int| '0') + d;
    p.subrange(0, 5).push('-') + p.subrange(5, 8)
}

/// O resultado da padronização do CEP `s`: vazio se só há espaços, erro se há letras ou mais
/// de oito dígitos, senão os dígitos na forma canônica.
pub open spec fn cep_padronizado(s: Seq<char>) -> Result<Seq<char>, TipoErroCep> {
    if so_espacos(s) {
        Ok(Seq::empty())
    } else if tem_letra(s) {
        Err(TipoErroCep::ContemLetras)
    } else if so_digitos(s).len() > 8 {
        Err(TipoErroCep::MuitosDigitos)
    } else {
        Ok(cep_canonico(so_digitos(s)))
    }
}

/// Padroniza um único CEP.
///
/// Texto vazio ou só com espaços dá o texto vazio; qualquer letra dá `ContemLetras`; os
/// demais caracteres que não são dígitos são descartados; mais de oito dígitos dá
/// `MuitosDigitos`; senão os dígitos são completados com zeros à esquerda e separados
/// por hífen entre o quinto e o sexto.
pub fn padronizar_cep(cep: &str) -> (r: Result<String, CepError>)
    ensures
        match cep_padronizado(cep@) {
            Ok(v) => r matches Ok(s) && s@ == v,
            Err(k) => r matches Err(e) && e.tipo_spec() == k && e.indices_spec() == seq![0usize],
        },
{
    let cs = chars_de(cep);
    let n = cs.len();

    let mut so_esp = true;
    let mut i: usize = 0;
    while i < n
        invariant
            n == cs@.len(),
            cs@ == cep@,
            i <= n,
            so_esp <==> (forall|j: int| 0 <= j < i ==> espaco(#[trigger] cs@[j])),
        decreases n - i,
    {
        if !eh_espaco(cs[i]) {
            so_esp = false;
        }
        i += 1;
    }
    if so_esp {
        return Ok(String::new());
    }

    let mut achou_letra = false;
    let mut i: usize = 0;
    while i < n
        invariant
            n == cs@.len(),
            cs@ == cep@,
            i <= n,
            achou_letra <==> (exists|j: int| 0 <= j < i && letra(#[trigger] cs@[j])),
        decreases n - i,
    {
        if eh_letra(cs[i]) {
            achou_letra = true;
        }
        i += 1;
    }
    if achou_letra {
        return Err(CepError::ContemLetras(vec![0usize]));
    }

    let mut digitos: Vec<char> = Vec::new();
    let mut i: usize = 0;
    while i < n
        invariant
            n == cs@.len(),
            i <= n,
            digitos@ == so_digitos(cs@.subrange(0, i as int)),
            digitos@.len() <= i,
        decreases n - i,
    {
        assert(cs@.subrange(0, i + 1).drop_last() == cs@.subrange(0, i as int));
        if eh_digito_exec(cs[i]) {
            digitos.push(cs[i]);
        }
        i += 1;
    }
    assert(cs@.subrange(0, n as int) == cep@);
    if digitos.len() > 8 {
        return Err(CepError::MuitosDigitos(vec![0usize]));
    }
    Ok(formatar_digitos(&digitos))
}

/// Versão executável de `eh_digito`.
pub fn eh_digito_exec(c: char) -> (r: bool)
    ensures
        r == eh_digito(c),
{
    '0' <= c && c <= '9'
}

/// Completa `d` com zeros à esquerda até oito dígitos e insere o hífen após o quinto.
fn formatar_digitos(d: &Vec<char>) -> (r: String)
    requires
        d@.len() <= 8,
    ensures
        r@ == cep_canonico(d@),
{
    let ghost p = Seq::new((8 - d@.len()) as nat, |i: int| '0') + d@;
    let mut cheio: Vec<char> = Vec::new();
    let zeros = 8 - d.len();
    let mut i: usize = 0;
    while i < zeros
        invariant
            zeros == 8 - d@.len(),
            i <= zeros,
            cheio@ == Seq::new(i as nat, |j: int| '0'),
        decreases zeros - i,
    {
        cheio.push('0');
        i += 1;
    }
    let mut j: usize = 0;
    while j < d.len()
        invariant
            zeros == 8 - d@.len(),
            j <= d@.len(),
            cheio@ == Seq::new(zeros as nat, |k: int| '0') + d@.subrange(0, j as int),
        decreases d.len() - j,
    {
        cheio.push(d[j]);
        j += 1;
    }
    assert(d@.subrange(0, d@.len() as int) == d@);
    assert(cheio@ == p);
    let mut saida: Vec<char> = Vec::new();
    let mut k: usize = 0;
    while k < 8
        invariant
            cheio@ == p,
            p.len() == 8,
            k <= 8,
            k <= 5 ==> saida@ == p.subrange(0, k as int),
            k > 5 ==> saida@ == p.subrange(0, 5).push('-') + p.subrange(5, k as int),
        decreases 8 - k,
    {
        if k == 5 {
            saida.push('-');
        }
        saida.push(cheio[k]);
        k += 1;
    }
    string_de_chars(&saida)
}

/// A saída do lote de CEPs para a entrada `x`: ausente se ausente, vazia ou com erro.
pub open spec fn saida_cep(x: Option<String>) -> Option<Seq<char>> {
    match x {
        None => None,
        Some(s) => match cep_padronizado(s@) {
            Ok(v) => ausente_se_vazio(v),
            Err(_) => None,
        },
    }
}

/// A entrada `x` está presente e falha com o erro `k`.
pub open spec fn falha_com(x: Option<String>, k: TipoErroCep) -> bool {
    match x {
        None => false,
        Some(s) => cep_padronizado(s@) == Err::<Seq<char>, TipoErroCep>(k),
    }
}

/// As posições de `xs` que falham com o erro `k`, em ordem crescente.
pub open spec fn indices_com_falha(xs: Seq<Option<String>>, k: TipoErroCep) -> Seq<usize>
    decreases xs.len(),
{
    if xs.len() == 0 {
        Seq::empty()
    } else if falha_com(xs.last(), k) {
        indices_com_falha(xs.drop_last(), k).push((xs.len() - 1) as usize)
    } else {
        indices_com_falha(xs.drop_last(), k)
    }
}

/// Resultado da padronização de um lote de CEPs: os valores e, à parte, as posições que
/// falharam, agrupadas pelo tipo da falha.
pub struct ResultadoCeps {
    pub valores: Vec<Option<String>>,
    pub indices_com_letras: Vec<usize>,
    pub indices_muitos_digitos: Vec<usize>,
}

/// Padroniza um lote de CEPs. Ausentes, vazios e os que falham ficam ausentes; as posições
/// dos que falham são devolvidas por tipo de falha, sem interromper o lote.
pub fn padronizar_ceps(ceps: Vec<Option<String>>) -> (r: ResultadoCeps)
    ensures
        r.valores.len() == ceps.len(),
        forall|i: int|
            0 <= i < ceps.len() ==> vista_opcional(#[trigger] r.valores[i]) == saida_cep(ceps[i]),
        r.indices_com_letras@ == indices_com_falha(ceps@, TipoErroCep::ContemLetras),
        r.indices_muitos_digitos@ == indices_com_falha(ceps@, TipoErroCep::MuitosDigitos),
{
    let mut resultados: Vec<Option<String>> = Vec::new();
    let mut indices_com_letras: Vec<usize> = Vec::new();
    let mut indices_muitos_digitos: Vec<usize> = Vec::new();
    let n = ceps.len();
    let mut idx: usize = 0;
    while idx < n
        invariant
            n == ceps.len(),
            idx <= n,
            resultados.len() == idx,
            forall|i: int|
                0 <= i < idx ==> vista_opcional(#[trigger] resultados[i]) == saida_cep(ceps[i]),
            indices_com_letras@ == indices_com_falha(
                ceps@.subrange(0, idx as int),
                TipoErroCep::ContemLetras,
            ),
            indices_muitos_digitos@ == indices_com_falha(
                ceps@.subrange(0, idx as int),
                TipoErroCep::MuitosDigitos,
            ),
        decreases n - idx,
    {
        let ghost pre = ceps@.subrange(0, idx as int);
        let ghost pos = ceps@.subrange(0, idx + 1);
        assert(pos.drop_last() == pre);
        assert(pos.last() == ceps[idx as int]);
        match &ceps[idx] {
            None => resultados.push(None),
            Some(cep) => {
                match padronizar_cep(cep.as_str()) {
                    Ok(padronizado) => {
                        if padronizado.as_str().is_empty() {
                            resultados.push(None);
                        } else {
                            resultados.push(Some(padronizado));
                        }
                    },
                    Err(e) => {
                        match e {
                            CepError::ContemLetras(_) => indices_com_letras.push(idx),
                            CepError::MuitosDigitos(_) => indices_muitos_digitos.push(idx),
                            CepError::ForaDoIntervalo(_) => {},
                        }
                        resultados.push(None);
                    },
                }
            },
        }
        idx += 1;
    }
    assert(ceps@.subrange(0, n as int) == ceps@);
    ResultadoCeps { valores: resultados, indices_com_letras, indices_muitos_digitos }
}

/// O erro da padronização do CEP `s`, se houver.
pub open spec fn erro_cep(s: Seq<char>) -> Option<TipoErroCep> {
    match cep_padronizado(s) {
        Ok(_) => None,
        Err(k) => Some(k),
    }
}

/// A saída do lote para o CEP presente `s`.
pub open spec fn saida_texto_cep(s: Seq<char>) -> Option<Seq<char>> {
    match cep_padronizado(s) {
        Ok(v) => ausente_se_vazio(v),
        Err(_) => None,
    }
}

fn classificar_cep(cep: &str) -> (r: (Option<String>, Option<TipoErroCep>))
    ensures
        vista_opcional(r.0) == saida_texto_cep(cep@),
        r.1 == erro_cep(cep@),
{
    match padronizar_cep(cep) {
        Ok(v) => {
            if v.as_str().is_empty() {
                (None, None)
            } else {
                (Some(v), None)
            }
        },
        Err(e) => (None, Some(e.tipo())),
    }
}

/// Padroniza um lote de CEPs textuais, calculando cada valor distinto uma só vez. Tem o mesmo
/// resultado que `padronizar_ceps`: ausentes, vazios e os que falham ficam ausentes, e as
/// posições dos que falham são devolvidas por tipo de falha.
pub fn padronizar_ceps_rs(x: Vec<Option<String>>) -> (r: ResultadoCeps)
    ensures
        r.valores.len() == x.len(),
        forall|i: int|
            0 <= i < x.len() ==> vista_opcional(#[trigger] r.valores[i]) == saida_cep(x[i]),
        r.indices_com_letras@ == indices_com_falha(x@, TipoErroCep::ContemLetras),
        r.indices_muitos_digitos@ == indices_com_falha(x@, TipoErroCep::MuitosDigitos),
{
    let mut cache: HashMap<u64, usize> = HashMap::new();
    let mut chaves: Vec<String> = Vec::new();
    let mut guardados: Vec<(Option<String>, Option<TipoErroCep>)> = Vec::new();
    let mut valores: Vec<Option<String>> = Vec::new();
    let mut indices_com_letras: Vec<usize> = Vec::new();
    let mut indices_muitos_digitos: Vec<usize> = Vec::new();
    let n = x.len();
    let mut idx: usize = 0;
    while idx < n
        invariant
            n == x.len(),
            idx <= n,
            valores.len() == idx,
            chaves.len() == guardados.len(),
            forall|i: int| 0 <= i < idx ==> vista_opcional(#[trigger] valores[i]) == saida_cep(x[i]),
            forall|k: int|
                0 <= k < chaves.len() ==> vista_opcional((#[trigger] guardados[k]).0)
                    == saida_texto_cep(chaves[k]@) && guardados[k].1 == erro_cep(chaves[k]@),
            indices_com_letras@ == indices_com_falha(
                x@.subrange(0, idx as int),
                TipoErroCep::ContemLetras,
            ),
            indices_muitos_digitos@ == indices_com_falha(
                x@.subrange(0, idx as int),
                TipoErroCep::MuitosDigitos,
            ),
        decreases n - idx,
    {
        let ghost pre = x@.subrange(0, idx as int);
        let ghost pos = x@.subrange(0, idx + 1);
        assert(pos.drop_last() == pre);
        assert(pos.last() == x[idx as int]);
        match &x[idx] {
            None => valores.push(None),
            Some(s) => {
                let h = hash_texto(s.as_str());
                let mut achado: Option<usize> = None;
                match cache.get(&h) {
                    Some(k) => {
                        let k = *k;
                        if k < chaves.len() && chaves[k] == *s {
                            achado = Some(k);
                        }
                    },
                    None => {},
                }
                let (o, erro) = match achado {
                    Some(k) => (copiar_opcional(&guardados[k].0), guardados[k].1),
                    None => {
                        let (o, erro) = classificar_cep(s.as_str());
                        if chaves.len() < usize::MAX {
                            cache.insert(h, chaves.len());
                            chaves.push(s.clone());
                            guardados.push((copiar_opcional(&o), erro));
                        }
                        (o, erro)
                    },
                };
                match erro {
                    Some(TipoErroCep::ContemLetras) => indices_com_letras.push(idx),
                    Some(TipoErroCep::MuitosDigitos) => indices_muitos_digitos.push(idx),
                    _ => {},
                }
                valores.push(o);
            },
        }
        idx += 1;
    }
    assert(x@.subrange(0, n as int) == x@);
    ResultadoCeps { valores, indices_com_letras, indices_muitos_digitos }
}

/// As posições de `xs` presentes e fora do intervalo dos CEPs numéricos, em ordem crescente.
pub open spec fn indices_fora_do_intervalo(xs: Seq<Option<i32>>) -> Seq<usize>
    decreases xs.len(),
{
    if xs.len() == 0 {
        Seq::empty()
    } else if xs.last() matches Some(v) && cep_numerico_padronizado(v as int) is Err {
        indices_fora_do_intervalo(xs.drop_last()).push((xs.len() - 1) as usize)
    } else {
        indices_fora_do_intervalo(xs.drop_last())
    }
}

/// Resultado da padronização de um lote de CEPs numéricos: os valores e, à parte, as posições
/// fora do intervalo.
pub struct ResultadoCepsNumericos {
    pub valores: Vec<Option<String>>,
    pub indices_fora_do_intervalo: Vec<usize>,
}

/// Padroniza um lote de CEPs numéricos. Ausentes e os fora do intervalo ficam ausentes; as
/// posições fora do intervalo são devolvidas à parte, sem interromper o lote.
pub fn padronizar_ceps_numericos_rs(x: Vec<Option<i32>>) -> (r: ResultadoCepsNumericos)
    ensures
        r.valores.len() == x.len(),
        forall|i: int|
            0 <= i < x.len() ==> vista_opcional(#[trigger] r.valores[i]) == match x[i] {
                None => None,
                Some(n) => match cep_numerico_padronizado(n as int) {
                    Ok(v) => Some(v),
                    Err(_) => None,
                },
            },
        r.indices_fora_do_intervalo@ == indices_fora_do_intervalo(x@),
{
    let mut valores: Vec<Option<String>> = Vec::new();
    let mut fora: Vec<usize> = Vec::new();
    let n = x.len();
    let mut i: usize = 0;
    while i < n
        invariant
            n == x.len(),
            i <= n,
            valores.len() == i,
            forall|j: int|
                0 <= j < i ==> vista_opcional(#[trigger] valores[j]) == match x[j] {
                    None => None,
                    Some(n) => match cep_numerico_padronizado(n as int) {
                        Ok(v) => Some(v),
                        Err(_) => None,
                    },
                },
            fora@ == indices_fora_do_intervalo(x@.subrange(0, i as int)),
        decreases n - i,
    {
        let ghost pos = x@.subrange(0, i + 1);
        assert(pos.drop_last() == x@.subrange(0, i as int));
        assert(pos.last() == x[i as int]);
        match x[i] {
            None => valores.push(None),
            Some(v) => match padronizar_cep_numerico(v as i64) {
                Ok(s) => valores.push(Some(s)),
                Err(_) => {
                    fora.push(i);
                    valores.push(None);
                },
            },
        }
        i += 1;
    }
    assert(x@.subrange(0, n as int) == x@);
    ResultadoCepsNumericos { valores, indices_fora_do_intervalo: fora }
}

/// Os dígitos decimais de `n`, sem zeros à esquerda (zero tem o dígito `0`).
pub open spec fn decimal(n: nat) -> Seq<char>
    decreases n,
{
    if n < 10 {
        seq![digito_char(n)]
    } else {
        decimal(n / 10).push(digito_char(n % 10))
    }
}

pub open spec fn digito_char(d: nat) -> char {
    ((d % 10) + 48) as char
}

/// O resultado da padronização do CEP numérico `n`: fora do intervalo se negativo ou com mais
/// de oito dígitos, senão seus dígitos na forma canônica.
pub open spec fn cep_numerico_padronizado(n: int) -> Result<Seq<char>, TipoErroCep> {
    if n < 0 || n > 99_999_999 {
        Err(TipoErroCep::ForaDoIntervalo)
    } else {
        Ok(cep_canonico(decimal(n as nat)))
    }
}

pub open spec fn pot10(k: nat) -> nat
    decreases k,
{
    if k == 0 {
        1
    } else {
        10 * pot10((k - 1) as nat)
    }
}

proof fn lemma_decimal_tamanho(n: nat, k: nat)
    requires
        n < pot10(k),
        k >= 1,
    ensures
        decimal(n).len() <= k,
        decimal(n).len() >= 1,
    decreases n,
{
    reveal_with_fuel(pot10, 2);
    if n >= 10 {
        assert(k >= 2);
        assert(n / 10 < pot10((k - 1) as nat));
        lemma_decimal_tamanho(n / 10, (k - 1) as nat);
    }
}

proof fn lemma_decimal_digitos(n: nat)
    ensures
        decimal(n).len() >= 1,
        n < 100_000_000 ==> decimal(n).len() <= 8,
        forall|i: int| 0 <= i < decimal(n).len() ==> eh_digito(#[trigger] decimal(n)[i]),
    decreases n,
{
    if n >= 10 {
        lemma_decimal_digitos(n / 10);
    }
    reveal_with_fuel(pot10, 9);
    if n < 100_000_000 {
        lemma_decimal_tamanho(n, 8);
    }
}

/// Padroniza um CEP dado como inteiro: seus dígitos decimais, completados com zeros à
/// esquerda e separados por hífen; `ForaDoIntervalo` se for negativo ou tiver mais de oito
/// dígitos.
pub fn padronizar_cep_numerico(valor: i64) -> (r: Result<String, CepError>)
    ensures
        match cep_numerico_padronizado(valor as int) {
            Ok(v) => r matches Ok(s) && s@ == v,
            Err(k) => r matches Err(e) && e.tipo_spec() == k && e.indices_spec() == seq![0usize],
        },
{
    if valor < 0 || valor > 99_999_999 {
        return Err(CepError::ForaDoIntervalo(vec![0usize]));
    }
    proof {
        lemma_decimal_digitos(valor as nat);
    }
    let d = digitos_decimais(valor as u64);
    Ok(formatar_digitos(&d))
}

/// Os dígitos decimais de `valor`.
fn digitos_decimais(valor: u64) -> (d: Vec<char>)
    ensures
        d@ == decimal(valor as nat),
{
    let mut n: u64 = valor;
    let mut rev: Vec<char> = Vec::new();
    while n >= 10
        invariant
            n <= valor,
            decimal(valor as nat) == decimal(n as nat) + rev@.reverse(),
        decreases n,
    {
        let d = (n % 10) as u32;
        let c = char_de_digito(d);
        let ghost antes = rev@;
        rev.push(c);
        assert(rev@.reverse() == seq![c] + antes.reverse()) by {
            assert(rev@.reverse() =~= seq![c] + antes.reverse());
        }
        assert(decimal(n as nat) == decimal((n / 10) as nat).push(c));
        assert(decimal((n / 10) as nat).push(c) + antes.reverse()
            =~= decimal((n / 10) as nat) + rev@.reverse());
        n = n / 10;
    }
    let mut d: Vec<char> = Vec::new();
    d.push(char_de_digito(n as u32));
    let mut k: usize = rev.len();
    while k > 0
        invariant
            k <= rev@.len(),
            decimal(valor as nat) == d@ + rev@.subrange(0, k as int).reverse(),
        decreases k,
    {
        let ghost antes = d@;
        d.push(rev[k - 1]);
        assert(rev@.subrange(0, k as int).reverse() =~= seq![rev@[k - 1]] + rev@.subrange(
            0,
            k - 1,
        ).reverse());
        assert(antes + rev@.subrange(0, k as int).reverse() =~= d@ + rev@.subrange(
            0,
            k - 1,
        ).reverse());
        k -= 1;
    }
    assert(d@ =~= decimal(valor as nat));
    d
}

fn char_de_digito(d: u32) -> (c: char)
    requires
        d < 10,
    ensures
        c == digito_char(d as nat),
        eh_digito(c),
{
    let r = if d == 0 { '0' } else if d == 1 { '1' } else if d == 2 { '2' } else if d == 3 {
        '3'
    } else if d == 4 { '4' } else if d == 5 { '5' } else if d == 6 { '6' } else if d == 7 {
        '7'
    } else if d == 8 { '8' } else { '9' };
    r
}

/// Os dígitos de uma concatenação são a concatenação dos dígitos.
proof fn lemma_digitos_concat(s: Seq<char>, t: Seq<char>)
    ensures
        so_digitos(s + t) == so_digitos(s) + so_digitos(t),
    decreases t.len(),
{
    if t.len() == 0 {
        assert(s + t =~= s);
        assert(so_digitos(s) + so_digitos(t) =~= so_digitos(s));
    } else {
        lemma_digitos_concat(s, t.drop_last());
        assert((s + t).drop_last() =~= s + t.drop_last());
        assert((s + t).last() == t.last());
        if eh_digito(t.last()) {
            assert(so_digitos(s) + so_digitos(t.drop_last()).push(t.last()) =~= (so_digitos(s)
                + so_digitos(t.drop_last())).push(t.last()));
        }
    }
}

/// Um texto só de dígitos é seus próprios dígitos.
proof fn lemma_digitos_fixos(s: Seq<char>)
    requires
        forall|i: int| 0 <= i < s.len() ==> eh_digito(#[trigger] s[i]),
    ensures
        so_digitos(s) == s,
    decreases s.len(),
{
    if s.len() > 0 {
        lemma_digitos_fixos(s.drop_last());
        assert(s.drop_last().push(s.last()) =~= s);
    }
}

/// Um CEP canônico `NNNNN-NNN` do qual se retiram os separadores volta, padronizado, a ser o
/// mesmo CEP.
pub proof fn lemma_cep_ida_e_volta(canonico: Seq<char>)
    requires
        canonico.len() == 9,
        canonico[5] == '-',
        forall|i: int| 0 <= i < 9 && i != 5 ==> eh_digito(#[trigger] canonico[i]),
    ensures
        cep_padronizado(so_digitos(canonico)) == Ok::<Seq<char>, TipoErroCep>(canonico),
{
    let a = canonico.subrange(0, 5);
    let b = canonico.subrange(6, 9);
    assert(canonico =~= a + seq!['-'] + b);
    lemma_digitos_concat(a + seq!['-'], b);
    lemma_digitos_concat(a, seq!['-']);
    assert(seq!['-'].last() == '-');
    assert(seq!['-'].drop_last() =~= Seq::<char>::empty());
    reveal_with_fuel(so_digitos, 2);
    assert(so_digitos(seq!['-']) =~= Seq::<char>::empty());
    lemma_digitos_fixos(a);
    lemma_digitos_fixos(b);
    let d = so_digitos(canonico);
    assert(d =~= a + b);
    lemma_digitos_fixos(d);
    assert(d.len() == 8);
    assert(!espaco(d[0]));
    assert(!tem_letra(d));
    assert(cep_canonico(d) =~= canonico);
}

} // verus!
