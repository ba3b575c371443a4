//! Regras de cada grupo de comandos do aplicativo.

pub mod auth;
pub mod chamada;
pub mod cronograma;
pub mod diario;
pub mod escolas;
pub mod pessoas;
pub mod turmas;
