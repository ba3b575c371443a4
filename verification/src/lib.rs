//! Regras de negócio do SAG Desktop: preparação e validação das entradas dos
//! comandos, montagem dos registros devolvidos à interface e as decisões das
//! chamadas ao Supabase Auth. O acesso ao banco e à rede fica fora desta crate.

pub mod texto;
pub mod externos;
pub mod entradas;
pub mod config;
pub mod supabase;
pub mod commands;
