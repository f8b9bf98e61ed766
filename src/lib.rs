//! Padronização de fragmentos de endereços brasileiros: CEPs, bairros, logradouros e demais
//! campos, por meio de um motor de regras de substituição verificado.

pub mod texto;
pub mod cep;
pub mod lote;
pub mod regras;
pub mod bairro;
pub mod externos;
pub mod padronizador;
pub mod coluna;
