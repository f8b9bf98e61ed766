use enderecobr::coluna::escolher_coluna;
use enderecobr::cep::{
    padronizar_cep, padronizar_cep_numerico, padronizar_ceps, padronizar_ceps_numericos_rs,
    padronizar_ceps_rs, CepError, TipoErroCep,
};

#[test]
fn test_padroniza_corretamente() {
    assert_eq!(padronizar_cep("22290-140").unwrap(), "22290-140");
    assert_eq!(padronizar_cep("22290 140").unwrap(), "22290-140");
    assert_eq!(padronizar_cep("22.290-140").unwrap(), "22290-140");
    assert_eq!(padronizar_cep("22290140").unwrap(), "22290-140");
    assert_eq!(padronizar_cep("1000000").unwrap(), "01000-000");
    assert_eq!(padronizar_cep(" 1000000").unwrap(), "01000-000");
}

#[test]
fn test_erro_com_letras() {
    assert!(padronizar_cep("botafogo").is_err());
    assert!(padronizar_cep("22290a140").is_err());
}

#[test]
fn test_erro_muitos_digitos() {
    assert!(padronizar_cep("222290140").is_err());
    assert!(padronizar_cep("12345678900").is_err());
}

#[test]
fn test_cep_vazio() {
    assert_eq!(padronizar_cep("").unwrap(), "");
    assert_eq!(padronizar_cep("   ").unwrap(), "");
}

#[test]
fn tipos_de_erro_do_cep() {
    let e = padronizar_cep("botafogo").unwrap_err();
    assert_eq!(e.tipo(), TipoErroCep::ContemLetras);
    assert!(matches!(e, CepError::ContemLetras(ref v) if v == &vec![0usize]));
    assert_eq!(padronizar_cep("222290140").unwrap_err().tipo(), TipoErroCep::MuitosDigitos);
    assert_eq!(padronizar_cep("12345678900").unwrap_err().tipo(), TipoErroCep::MuitosDigitos);
    assert_eq!(padronizar_cep("222290-140").unwrap_err().tipo(), TipoErroCep::MuitosDigitos);
    // letras fora do ASCII também são letras
    assert_eq!(padronizar_cep("2229ç140").unwrap_err().tipo(), TipoErroCep::ContemLetras);
}

#[test]
fn cep_equivalencias_e_separadores() {
    for entrada in ["22290-140", "22290 140", "22.290-140", "22290140", "22,290/140", "\t22290140\n"] {
        assert_eq!(padronizar_cep(entrada).unwrap(), "22290-140");
    }
    assert_eq!(padronizar_cep("-").unwrap(), "00000-000");
    assert_eq!(padronizar_cep("12345-6").unwrap(), "00123-456");
    assert_eq!(padronizar_cep("\t\n ").unwrap(), "");
}

#[test]
fn cep_ida_e_volta() {
    for canonico in ["01000-000", "22290-140", "99999-999", "00000-001"] {
        let sem_separador: String = canonico.chars().filter(|c| c.is_ascii_digit()).collect();
        assert_eq!(padronizar_cep(&sem_separador).unwrap(), canonico);
    }
}

#[test]
fn cep_numerico() {
    assert_eq!(padronizar_cep_numerico(22290140).unwrap(), "22290-140");
    assert_eq!(padronizar_cep_numerico(1000000).unwrap(), "01000-000");
    assert_eq!(padronizar_cep_numerico(123456).unwrap(), "00123-456");
    assert_eq!(padronizar_cep_numerico(0).unwrap(), "00000-000");
    assert_eq!(padronizar_cep_numerico(99999999).unwrap(), "99999-999");
    assert_eq!(padronizar_cep_numerico(100000000).unwrap_err().tipo(), TipoErroCep::ForaDoIntervalo);
    assert_eq!(padronizar_cep_numerico(-1).unwrap_err().tipo(), TipoErroCep::ForaDoIntervalo);
}

#[test]
fn mensagens_de_erro() {
    let e = CepError::ContemLetras(vec![1, 3]);
    assert_eq!(
        e.mensagem(),
        "CEP não deve conter letras. Elementos com índices [1, 3] possuem letras."
    );
    let e = CepError::ForaDoIntervalo(vec![]);
    assert_eq!(
        e.mensagem(),
        "CEP numérico deve estar entre 0 e 99999999. Elementos com índices [] estão fora desse intervalo."
    );
    let e = CepError::MuitosDigitos(vec![0, 12, 345]);
    assert_eq!(
        e.mensagem(),
        "CEP não deve conter mais que 8 dígitos. Elementos com índices [0, 12, 345] possuem mais que 8 dígitos após padronização."
    );
}

#[test]
fn lote_de_ceps_com_indices_de_erro() {
    let entrada = vec![
        Some("22290-140".to_string()),
        None,
        Some("botafogo".to_string()),
        Some("   ".to_string()),
        Some("222290140".to_string()),
        Some("1000000".to_string()),
        Some("a1".to_string()),
    ];
    let r = padronizar_ceps(entrada);
    assert_eq!(
        r.valores,
        vec![
            Some("22290-140".to_string()),
            None,
            None,
            None,
            None,
            Some("01000-000".to_string()),
            None
        ]
    );
    assert_eq!(r.indices_com_letras, vec![2, 6]);
    assert_eq!(r.indices_muitos_digitos, vec![4]);
}

#[test]
fn lote_de_ceps_vazio() {
    let r = padronizar_ceps(vec![]);
    assert!(r.valores.is_empty());
    assert!(r.indices_com_letras.is_empty());
    assert!(r.indices_muitos_digitos.is_empty());
}

#[test]
fn lote_textual_de_ceps() {
    let r = padronizar_ceps_rs(vec![
        Some("22290 140".to_string()),
        None,
        Some("".to_string()),
        Some("botafogo".to_string()),
        Some("22290 140".to_string()),
        Some("123456789".to_string()),
        Some("botafogo".to_string()),
    ]);
    assert_eq!(r.valores[0].as_deref(), Some("22290-140"));
    assert_eq!(r.valores[1], None);
    assert_eq!(r.valores[2], None);
    assert_eq!(r.valores[3], None);
    assert_eq!(r.valores[4], r.valores[0]);
    assert_eq!(r.valores[5], None);
    assert_eq!(r.indices_com_letras, vec![3, 6]);
    assert_eq!(r.indices_muitos_digitos, vec![5]);
}

#[test]
fn lote_textual_igual_ao_lote_sem_cache() {
    let entrada = vec![
        Some("1000000".to_string()),
        Some("a".to_string()),
        None,
        Some("1000000".to_string()),
        Some("   ".to_string()),
    ];
    let com_cache = padronizar_ceps_rs(entrada.clone());
    let sem_cache = padronizar_ceps(entrada);
    assert_eq!(com_cache.valores, sem_cache.valores);
    assert_eq!(com_cache.indices_com_letras, sem_cache.indices_com_letras);
    assert_eq!(com_cache.indices_muitos_digitos, sem_cache.indices_muitos_digitos);
}

#[test]
fn lote_numerico_de_ceps() {
    let r = padronizar_ceps_numericos_rs(vec![Some(22290140), None, Some(-5), Some(1000), Some(100000000)]);
    assert_eq!(r.valores[0].as_deref(), Some("22290-140"));
    assert_eq!(r.valores[1], None);
    assert_eq!(r.valores[2], None);
    assert_eq!(r.valores[3].as_deref(), Some("00001-000"));
    assert_eq!(r.valores[4], None);
    assert_eq!(r.indices_fora_do_intervalo, vec![2, 4]);
}

#[test]
fn escolhe_coluna_de_cep() {
    let nomes = vec!["nome".to_string(), "CEP_Dom".to_string(), "zip_code".to_string()];
    assert_eq!(escolher_coluna(&nomes, &vec![true, true, true]), Some(1));
    let nomes = vec!["id".to_string(), "valor".to_string()];
    assert_eq!(escolher_coluna(&nomes, &vec![false, true]), Some(1));
    assert_eq!(escolher_coluna(&nomes, &vec![false, false]), None);
    let nomes = vec!["Postal_Code".to_string()];
    assert_eq!(escolher_coluna(&nomes, &vec![false]), Some(0));
    assert_eq!(escolher_coluna(&vec![], &vec![]), None);
}
