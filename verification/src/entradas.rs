//! Leitura das entradas dos comandos: identificadores (UUID), datas no
//! formato `AAAA-MM-DD` e horários no formato `HH:MM`.

use vstd::prelude::*;
use crate::externos::{data_lida, horario_lido, ler_data, ler_horario, ler_uuid, uuid_lido, visao};

verus! {

/// Uma data do calendário.
#[derive(Clone, Copy, Debug, PartialEq, Eq)]
pub struct Data {
    pub ano: i32,
    pub mes: u32,
    pub dia: u32,
}

/// Um horário do dia, com hora e minuto.
#[derive(Clone, Copy, Debug, PartialEq, Eq)]
pub struct Horario {
    pub hora: u32,
    pub minuto: u32,
}

/// O formato em que as datas chegam: `AAAA-MM-DD`.
pub open spec fn formato_data() -> Seq<char> {
    "%Y-%m-%d"@
}

/// O formato em que os horários chegam: `HH:MM`.
pub open spec fn formato_horario() -> Seq<char> {
    "%H:%M"@
}

/// O identificador que o texto representa, ou a mensagem de erro.
pub open spec fn id_de(texto: Seq<char>) -> Result<u128, Seq<char>> {
    uuid_lido(texto)
}

/// A data que o texto representa no formato `AAAA-MM-DD`, ou a mensagem de erro.
pub open spec fn data_de(texto: Seq<char>) -> Result<Data, Seq<char>> {
    match data_lida(texto, formato_data()) {
        Ok((a, m, d)) => Ok(Data { ano: a, mes: m, dia: d }),
        Err(e) => Err(e),
    }
}

/// O horário que o texto representa no formato `HH:MM`, ou a mensagem de erro.
pub open spec fn horario_de(texto: Seq<char>) -> Result<Horario, Seq<char>> {
    match horario_lido(texto, formato_horario()) {
        Ok((h, m)) => Ok(Horario { hora: h, minuto: m }),
        Err(e) => Err(e),
    }
}

/// Um identificador opcional: ausente fica ausente, presente é lido.
pub open spec fn id_opcional_de(texto: Option<Seq<char>>) -> Result<Option<u128>, Seq<char>> {
    match texto {
        None => Ok(None),
        Some(t) => match id_de(t) {
            Ok(v) => Ok(Some(v)),
            Err(e) => Err(e),
        },
    }
}

/// Uma data opcional: ausente fica ausente, presente é lida.
pub open spec fn data_opcional_de(texto: Option<Seq<char>>) -> Result<Option<Data>, Seq<char>> {
    match texto {
        None => Ok(None),
        Some(t) => match data_de(t) {
            Ok(v) => Ok(Some(v)),
            Err(e) => Err(e),
        },
    }
}

/// A visão de um texto opcional.
pub open spec fn texto_opcional(t: Option<String>) -> Option<Seq<char>> {
    match t {
        Some(s) => Some(s@),
        None => None,
    }
}

/// Lê um identificador (UUID) a partir do texto.
pub fn analisar_id(texto: &str) -> (r: Result<u128, String>)
    ensures
        visao(r) == id_de(texto@),
{
    ler_uuid(texto)
}

/// Lê um identificador opcional: `None` dá `Ok(None)`; um texto inválido
/// dá o erro da leitura.
pub fn analisar_id_opcional(texto: &Option<String>) -> (r: Result<Option<u128>, String>)
    ensures
        visao(r) == id_opcional_de(texto_opcional(*texto)),
        texto is None ==> r == Ok::<Option<u128>, String>(None),
        texto matches Some(t) ==> (r matches Ok(o) ==> uuid_lido(t@) == Ok::<u128, Seq<char>>(
            o->0) && o is Some),
        texto matches Some(t) ==> (r matches Err(m) ==> uuid_lido(t@) == Err::<u128, Seq<char>>(
            m@)),
{
    match texto {
        None => Ok(None),
        Some(t) => match ler_uuid(t.as_str()) {
            Ok(v) => Ok(Some(v)),
            Err(e) => Err(e),
        },
    }
}

/// Lê uma data no formato `AAAA-MM-DD`.
pub fn analisar_data(texto: &str) -> (r: Result<Data, String>)
    ensures
        visao(r) == data_de(texto@),
        r matches Ok(d) ==> data_lida(texto@, "%Y-%m-%d"@) == Ok::<(i32, u32, u32), Seq<char>>(
            (d.ano, d.mes, d.dia),
        ),
        r matches Err(m) ==> data_lida(texto@, "%Y-%m-%d"@) == Err::<(i32, u32, u32), Seq<char>>(
            m@,
        ),
{
    match ler_data(texto, "%Y-%m-%d") {
        Ok((a, m, d)) => Ok(Data { ano: a, mes: m, dia: d }),
        Err(e) => Err(e),
    }
}

/// Lê uma data opcional no formato `AAAA-MM-DD`.
pub fn analisar_data_opcional(texto: &Option<String>) -> (r: Result<Option<Data>, String>)
    ensures
        visao(r) == data_opcional_de(texto_opcional(*texto)),
        texto is None ==> r == Ok::<Option<Data>, String>(None),
        texto matches Some(t) ==> (r matches Ok(o) ==> o is Some && data_lida(t@, "%Y-%m-%d"@)
            == Ok::<(i32, u32, u32), Seq<char>>((o->0.ano, o->0.mes, o->0.dia))),
        texto matches Some(t) ==> (r matches Err(m) ==> data_lida(t@, "%Y-%m-%d"@) == Err::<
            (i32, u32, u32),
            Seq<char>,
        >(m@)),
{
    match texto {
        None => Ok(None),
        Some(t) => match analisar_data(t.as_str()) {
            Ok(v) => Ok(Some(v)),
            Err(e) => Err(e),
        },
    }
}

/// Lê um horário no formato `HH:MM`.
pub fn analisar_horario(texto: &str) -> (r: Result<Horario, String>)
    ensures
        visao(r) == horario_de(texto@),
        r matches Ok(h) ==> horario_lido(texto@, "%H:%M"@) == Ok::<(u32, u32), Seq<char>>(
            (h.hora, h.minuto),
        ),
        r matches Err(m) ==> horario_lido(texto@, "%H:%M"@) == Err::<(u32, u32), Seq<char>>(m@),
{
    match ler_horario(texto, "%H:%M") {
        Ok((h, m)) => Ok(Horario { hora: h, minuto: m }),
        Err(e) => Err(e),
    }
}

/// Uma data lida é a que o `chrono` lê no formato `%Y-%m-%d`, com ano, mês
/// e dia nessa ordem; um erro é o erro do `chrono`.
pub proof fn lei_data_lida_no_formato_iso(texto: Seq<char>)
    ensures
        data_de(texto) matches Ok(d) ==> data_lida(texto, "%Y-%m-%d"@) == Ok::<
            (i32, u32, u32),
            Seq<char>,
        >((d.ano, d.mes, d.dia)),
        data_de(texto) matches Err(e) ==> data_lida(texto, "%Y-%m-%d"@) == Err::<
            (i32, u32, u32),
            Seq<char>,
        >(e),
{
}

/// Um horário lido é o que o `chrono` lê no formato `%H:%M`, com hora e
/// minuto nessa ordem; um erro é o erro do `chrono`.
pub proof fn lei_horario_lido_no_formato_hh_mm(texto: Seq<char>)
    ensures
        horario_de(texto) matches Ok(h) ==> horario_lido(texto, "%H:%M"@) == Ok::<
            (u32, u32),
            Seq<char>,
        >((h.hora, h.minuto)),
        horario_de(texto) matches Err(e) ==> horario_lido(texto, "%H:%M"@) == Err::<
            (u32, u32),
            Seq<char>,
        >(e),
{
}

/// Um identificador opcional ausente é lido como ausente; um presente é
/// lido como o UUID do texto, ou falha com o erro dessa leitura.
pub proof fn lei_id_opcional(texto: Option<Seq<char>>)
    ensures
        texto is None ==> id_opcional_de(texto) == Ok::<Option<u128>, Seq<char>>(None),
        texto matches Some(t) ==> (uuid_lido(t) matches Ok(v) ==> id_opcional_de(texto) == Ok::<
            Option<u128>,
            Seq<char>,
        >(Some(v))),
        texto matches Some(t) ==> (uuid_lido(t) matches Err(e) ==> id_opcional_de(texto)
            == Err::<Option<u128>, Seq<char>>(e)),
{
}

/// Uma data opcional ausente é lida como ausente; uma presente é lida como
/// a data do texto, ou falha com o erro dessa leitura.
pub proof fn lei_data_opcional(texto: Option<Seq<char>>)
    ensures
        texto is None ==> data_opcional_de(texto) == Ok::<Option<Data>, Seq<char>>(None),
        texto matches Some(t) ==> (data_de(t) matches Ok(d) ==> data_opcional_de(texto) == Ok::<
            Option<Data>,
            Seq<char>,
        >(Some(d))),
        texto matches Some(t) ==> (data_de(t) matches Err(e) ==> data_opcional_de(texto)
            == Err::<Option<Data>, Seq<char>>(e)),
{
}

} // verus!
