use enderecobr::bairro::{padronizador_bairro, PadronizadorDani};
use enderecobr::externos::{
    padronizar_bairros_rs, padronizar_estados_rs, padronizar_logradouros_rs,
    padronizar_municipios_rs, FormatoEstado,
};
use enderecobr::padronizador::{
    novo_padronizador, obter_padronizador_bairros, obter_padronizador_logradouros, Padronizador,
};

fn s(v: &str) -> String {
    v.to_string()
}

fn motor(regras: &[(&str, &str, Option<&str>)]) -> PadronizadorDani {
    let regex: Vec<String> = regras.iter().map(|r| s(r.0)).collect();
    let subst: Vec<String> = regras.iter().map(|r| s(r.1)).collect();
    let ignorar: Vec<Option<String>> = regras.iter().map(|r| r.2.map(s)).collect();
    PadronizadorDani::construir(&regex, &subst, &ignorar).ok().unwrap()
}

#[test]
fn preprocessa_caixa_espacos_e_acentos() {
    let p = motor(&[]);
    assert_eq!(p.padronizar("  São João  "), "SAO JOAO");
    assert_eq!(p.padronizar("açaí"), "ACAI");
    assert_eq!(p.padronizar(""), "");
}

#[test]
fn regras_em_ordem_com_grupos() {
    let p = motor(&[(r"\bJD\b\.?", "JARDIM", None), (r"(\d+) DE? JAN", "$1 DE JANEIRO", None)]);
    assert_eq!(p.padronizar("jd. 1 de jan"), "JARDIM 1 DE JANEIRO");
    assert_eq!(p.padronizar("25 D JAN"), "25 DE JANEIRO");
}

#[test]
fn regras_selecionadas_pelo_texto_inicial() {
    // a segunda regra só casaria depois da primeira: não é aplicada
    let p = motor(&[("A", "B", None), ("B", "C", None)]);
    assert_eq!(p.padronizar("a"), "B");
    assert_eq!(p.padronizar("ab"), "CC");
}

#[test]
fn regra_com_exclusao() {
    let p = motor(&[(r"\bR\b", "RUA", Some(r"\bAPT\b"))]);
    assert_eq!(p.padronizar("r das flores"), "RUA DAS FLORES");
    assert_eq!(p.padronizar("apt r 10"), "APT R 10");
}

#[test]
fn padrao_invalido_falha() {
    let regex = vec![s("("), s("A")];
    let subst = vec![s(""), s("B")];
    let ignorar = vec![None, None];
    let e = PadronizadorDani::construir(&regex, &subst, &ignorar).err().unwrap();
    assert_eq!(e.padrao, "(");
    let mut p = PadronizadorDani::new();
    assert!(p.adicionar_sub("[", "x").is_err());
    assert!(p.adicionar_sub("X", "Y").is_ok());
    p.criar_grupo_padroes();
    assert_eq!(p.padronizar("x"), "Y");
}

#[test]
fn sem_conjunto_preparado_o_resultado_e_o_mesmo() {
    let mut p = PadronizadorDani::new();
    p.adicionar_sub(r"\bCEL\b\.?", "CORONEL").ok().unwrap();
    let antes = p.padronizar("cel. silva");
    p.criar_grupo_padroes();
    assert_eq!(antes, p.padronizar("cel. silva"));
    assert_eq!(antes, "CORONEL SILVA");
}

#[test]
fn catalogo_de_bairros() {
    let p = padronizador_bairro().ok().unwrap();
    assert_eq!(p.padronizar("jd américa"), "JARDIM AMERICA");
    assert_eq!(p.padronizar("res. sao jose"), "RESIDENCIAL SAO JOSE");
    assert_eq!(p.padronizar("  pq   industrial "), "PARQUE INDUSTRIAL");
    assert_eq!(p.padronizar("0000"), "");
    assert_eq!(p.padronizar("nsa sra de fatima"), "NOSSA SENHORA DE FATIMA");
}

#[test]
fn regras_escolhidas_uma_vez_no_catalogo() {
    // "P RESIDENCIAL" só aparece depois da regra de RES: a regra de PARQUE RESIDENCIAL não age
    let p = padronizador_bairro().ok().unwrap();
    assert_eq!(p.padronizar("P RES"), "P RESIDENCIAL");
    assert_eq!(p.padronizar("P RESIDENCIAL"), "PARQUE RESIDENCIAL");
    assert_eq!(p.padronizar("---"), "");
    assert_eq!(p.padronizar("DE IND"), "DE INDUSTRIAS");
}

#[test]
fn idempotente_em_forma_canonica() {
    let p = padronizador_bairro().ok().unwrap();
    let uma = p.padronizar("CENTRO");
    assert_eq!(uma, "CENTRO");
    assert_eq!(p.padronizar(&uma), uma);
}

#[test]
fn insensivel_a_caixa_e_acentos() {
    let p = padronizador_bairro().ok().unwrap();
    assert_eq!(p.padronizar("jardim são paulo"), p.padronizar("JARDIM SÃO PAULO"));
    assert_eq!(p.padronizar("jardim são paulo"), p.padronizar("jardim sao paulo"));
}

#[test]
fn padronizador_em_lote_com_cache() {
    let p = novo_padronizador(
        &vec![s(r"\bAV\b\.?"), s("^-+$")],
        &vec![Some(s("AVENIDA")), None],
        None,
    )
    .ok()
    .unwrap();
    let entrada = vec![
        Some(s("av. brasil")),
        None,
        Some(s("---")),
        Some(s("av. brasil")),
        Some(s("Av. Brasil")),
    ];
    let r = p.padronizar(entrada.clone());
    assert_eq!(r.len(), entrada.len());
    assert_eq!(r[0].as_deref(), Some("AVENIDA BRASIL"));
    assert_eq!(r[1], None);
    assert_eq!(r[2], None);
    for (i, e) in entrada.iter().enumerate() {
        let direto = e.as_deref().map(|v| p.interno.padronizar(v)).filter(|v| !v.is_empty());
        assert_eq!(r[i], direto);
    }
}

#[test]
fn substituicoes_de_volta() {
    let mut p = novo_padronizador(&vec![], &vec![], None).ok().unwrap();
    p.adicionar_substituicoes(
        &vec![s("A"), s("B")],
        &vec![None, Some(s("C"))],
        &vec![Some(s("Z")), None],
    )
    .ok()
    .unwrap();
    let (regex, subst, ignorar) = p.obter_substituicoes();
    assert_eq!(regex, vec![s("A"), s("B")]);
    assert_eq!(subst, vec![s(""), s("C")]);
    assert_eq!(ignorar, vec![Some(s("Z")), None]);
    assert_eq!(p.padronizar(vec![Some(s("ab"))]), vec![Some(s("C"))]);
}

#[test]
fn catalogos_prontos() {
    let p: Padronizador = obter_padronizador_logradouros().ok().unwrap();
    let (regex, _, _) = p.obter_substituicoes();
    assert!(!regex.is_empty());
    let b = obter_padronizador_bairros().ok().unwrap();
    assert_eq!(b.padronizar(vec![None]), vec![None]);
}

#[test]
fn lotes_por_campo() {
    let r = padronizar_bairros_rs(vec![Some(s("jd america")), None, Some(s("jd america"))]);
    assert_eq!(r[1], None);
    assert_eq!(r[0], r[2]);
    assert!(r[0].as_deref().unwrap().contains("JARDIM"));
    let l = padronizar_logradouros_rs(vec![Some(s("r. das flores"))]);
    assert!(l[0].as_deref().unwrap().contains("RUA"));
    let m = padronizar_municipios_rs(vec![Some(s("3304557")), Some(s(""))]);
    assert_eq!(m[0].as_deref(), Some("RIO DE JANEIRO"));
    assert_eq!(m[1], None);
    let e = padronizar_estados_rs(vec![Some(s("rj")), None], FormatoEstado::PorExtenso);
    assert_eq!(e[0].as_deref(), Some("RIO DE JANEIRO"));
    assert_eq!(e[1], None);
    let e = padronizar_estados_rs(vec![Some(s("rio de janeiro"))], FormatoEstado::Sigla);
    assert_eq!(e[0].as_deref(), Some("RJ"));
}
