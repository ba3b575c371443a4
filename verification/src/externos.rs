//! Chamadas às bibliotecas `uuid` e `chrono`, que leem identificadores e
//! datas a partir de texto. O que cada leitura devolve tem um nome próprio:
//! as regras que dependem dela falam desse nome.

use chrono::Datelike;
use chrono::Timelike;
use vstd::prelude::*;

verus! {

/// O resultado de `uuid::Uuid::parse_str` sobre o texto: o UUID como
/// inteiro de 128 bits, ou a mensagem de erro da biblioteca.
pub uninterp spec fn uuid_lido(texto: Seq<char>) -> Result<u128, Seq<char>>;

/// O resultado de `chrono::NaiveDate::parse_from_str(texto, formato)`:
/// ano, mês e dia da data lida, ou a mensagem de erro da biblioteca.
pub uninterp spec fn data_lida(texto: Seq<char>, formato: Seq<char>) -> Result<
    (i32, u32, u32),
    Seq<char>,
>;

/// O resultado de `chrono::NaiveTime::parse_from_str(texto, formato)`:
/// hora e minuto do horário lido, ou a mensagem de erro da biblioteca.
pub uninterp spec fn horario_lido(texto: Seq<char>, formato: Seq<char>) -> Result<
    (u32, u32),
    Seq<char>,
>;

/// Um resultado com a mensagem de erro vista como sequência de caracteres.
pub open spec fn visao<T>(r: Result<T, String>) -> Result<T, Seq<char>> {
    match r {
        Ok(v) => Ok(v),
        Err(e) => Err(e@),
    }
}

/// Chama `uuid::Uuid::parse_str` (pela implementação de `FromStr`), que
/// aceita as formas simples, com hífens, entre chaves e `urn:uuid:`.
/// Confia-se que devolve, como inteiro de 128 bits (`as_u128`), o valor que
/// `uuid_lido` dá ao texto, e no erro a mensagem (`to_string`) que
/// `uuid_lido` dá; o resultado depende só do texto.
#[verifier::external_body]
pub(crate) fn ler_uuid(texto: &str) -> (r: Result<u128, String>)
    ensures
        visao(r) == uuid_lido(texto@),
{
    match texto.parse::<uuid::Uuid>() {
        Ok(u) => Ok(u.as_u128()),
        Err(e) => Err(e.to_string()),
    }
}

/// Chama `chrono::NaiveDate::parse_from_str(texto, formato)`. Confia-se que
/// devolve ano, mês e dia (`Datelike::year`, `month`, `day`) da data que
/// `data_lida` dá aos argumentos, e no erro a mensagem (`to_string`) que
/// `data_lida` dá; o resultado depende só dos dois textos.
#[verifier::external_body]
pub(crate) fn ler_data(texto: &str, formato: &str) -> (r: Result<(i32, u32, u32), String>)
    ensures
        visao(r) == data_lida(texto@, formato@),
{
    match chrono::NaiveDate::parse_from_str(texto, formato) {
        Ok(d) => Ok((d.year(), d.month(), d.day())),
        Err(e) => Err(e.to_string()),
    }
}

/// Chama `chrono::NaiveTime::parse_from_str(texto, formato)`. Confia-se que
/// devolve hora e minuto (`Timelike::hour`, `minute`) do horário que
/// `horario_lido` dá aos argumentos, e no erro a mensagem (`to_string`) que
/// `horario_lido` dá; o resultado depende só dos dois textos. Os segundos
/// não são devolvidos: com os formatos desta crate valem sempre zero.
#[verifier::external_body]
pub(crate) fn ler_horario(texto: &str, formato: &str) -> (r: Result<(u32, u32), String>)
    ensures
        visao(r) == horario_lido(texto@, formato@),
{
    match chrono::NaiveTime::parse_from_str(texto, formato) {
        Ok(t) => Ok((t.hour(), t.minute())),
        Err(e) => Err(e.to_string()),
    }
}

} // verus!
