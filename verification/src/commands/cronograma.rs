//! Cronograma de aulas: listagem e criação de aulas previstas.

use vstd::prelude::*;
use vstd::string::*;
use crate::entradas::{
    analisar_data_opcional, analisar_horario, analisar_id, data_opcional_de, horario_de, id_de,
    texto_opcional, Data, Horario,
};
use crate::texto::{ou_vazio, texto_ou_vazio};

verus! {

/// Uma aula do cronograma de um professor.
#[derive(Clone, Debug)]
pub struct CronogramaAula {
    pub id: String,
    pub professor_id: String,
    pub professor_nome: String,
    pub turma_id: String,
    pub turma_nome: String,
    pub dia_semana: String,
    pub horario_inicio: String,
    pub horario_fim: String,
    pub tipo: String,
    pub data_inicio: Option<String>,
    pub data_fim: Option<String>,
    pub criado_por: String,
}

/// Uma linha da consulta do cronograma.
#[derive(Clone, Debug)]
pub struct LinhaCronograma {
    pub id: Option<String>,
    pub professor_id: Option<String>,
    pub professor_nome: String,
    pub turma_id: Option<String>,
    pub turma_nome: String,
    pub dia_semana: String,
    pub horario_inicio: Option<String>,
    pub horario_fim: Option<String>,
    pub tipo: String,
    pub criado_por: String,
    pub data_inicio: Option<String>,
    pub data_fim: Option<String>,
}

impl CronogramaAula {
    /// A aula de uma linha da consulta; textos nulos viram vazios.
    pub fn de_linha(l: LinhaCronograma) -> (r: CronogramaAula)
        ensures
            r.id@ == ou_vazio(l.id),
            r.professor_id@ == ou_vazio(l.professor_id),
            r.professor_nome@ == l.professor_nome@,
            r.turma_id@ == ou_vazio(l.turma_id),
            r.turma_nome@ == l.turma_nome@,
            r.dia_semana@ == l.dia_semana@,
            r.horario_inicio@ == ou_vazio(l.horario_inicio),
            r.horario_fim@ == ou_vazio(l.horario_fim),
            r.tipo@ == l.tipo@,
            r.data_inicio == l.data_inicio,
            r.data_fim == l.data_fim,
            r.criado_por@ == l.criado_por@,
    {
        CronogramaAula {
            id: texto_ou_vazio(l.id),
            professor_id: texto_ou_vazio(l.professor_id),
            professor_nome: l.professor_nome,
            turma_id: texto_ou_vazio(l.turma_id),
            turma_nome: l.turma_nome,
            dia_semana: l.dia_semana,
            horario_inicio: texto_ou_vazio(l.horario_inicio),
            horario_fim: texto_ou_vazio(l.horario_fim),
            tipo: l.tipo,
            data_inicio: l.data_inicio,
            data_fim: l.data_fim,
            criado_por: l.criado_por,
        }
    }
}

/// Uma aula a incluir no cronograma.
#[derive(Clone, Debug)]
pub struct NovaAula {
    pub professor_id: u128,
    pub turma_id: u128,
    pub dia_semana: String,
    pub horario_inicio: Horario,
    pub horario_fim: Horario,
    pub tipo: String,
    pub data_inicio: Option<Data>,
    pub data_fim: Option<Data>,
    pub criado_por: String,
}

/// A leitura dos campos de uma aula nova, na ordem: início, fim, data de
/// início, data de fim, professor, turma.
pub open spec fn leitura_aula(
    professor_id: Seq<char>,
    turma_id: Seq<char>,
    horario_inicio: Seq<char>,
    horario_fim: Seq<char>,
    data_inicio: Option<Seq<char>>,
    data_fim: Option<Seq<char>>,
) -> Result<(Horario, Horario, Option<Data>, Option<Data>, u128, u128), Seq<char>> {
    match horario_de(horario_inicio) {
        Err(e) => Err(e),
        Ok(i) => match horario_de(horario_fim) {
            Err(e) => Err(e),
            Ok(f) => match data_opcional_de(data_inicio) {
                Err(e) => Err(e),
                Ok(di) => match data_opcional_de(data_fim) {
                    Err(e) => Err(e),
                    Ok(df) => match id_de(professor_id) {
                        Err(e) => Err(e),
                        Ok(p) => match id_de(turma_id) {
                            Err(e) => Err(e),
                            Ok(t) => Ok((i, f, di, df, p, t)),
                        },
                    },
                },
            },
        },
    }
}

/// Prepara a inclusão de uma aula no cronograma; dia da semana, tipo e
/// autor seguem como vieram.
pub fn preparar_nova_aula(
    professor_id: &str,
    turma_id: &str,
    dia_semana: String,
    horario_inicio: &str,
    horario_fim: &str,
    tipo: String,
    data_inicio: &Option<String>,
    data_fim: &Option<String>,
    criado_por: String,
) -> (r: Result<NovaAula, String>)
    ensures
        leitura_aula(
            professor_id@,
            turma_id@,
            horario_inicio@,
            horario_fim@,
            texto_opcional(*data_inicio),
            texto_opcional(*data_fim),
        ) matches Err(e) ==> (r matches Err(m) && m@ == e),
        leitura_aula(
            professor_id@,
            turma_id@,
            horario_inicio@,
            horario_fim@,
            texto_opcional(*data_inicio),
            texto_opcional(*data_fim),
        ) matches Ok((i, f, di, df, p, t)) ==> (r matches Ok(a) && a.horario_inicio == i
            && a.horario_fim == f && a.data_inicio == di && a.data_fim == df && a.professor_id == p
            && a.turma_id == t && a.dia_semana@ == dia_semana@ && a.tipo@ == tipo@ && a.criado_por@
            == criado_por@),
        r matches Ok(a) ==> (horario_de(horario_inicio@) == Ok::<Horario, Seq<char>>(a.horario_inicio) && horario_de(horario_fim@) == Ok::<Horario, Seq<char>>(a.horario_fim) && data_opcional_de(texto_opcional(*data_inicio)) == Ok::<Option<Data>, Seq<char>>(a.data_inicio) && data_opcional_de(texto_opcional(*data_fim)) == Ok::<Option<Data>, Seq<char>>(a.data_fim) && id_de(professor_id@) == Ok::<u128, Seq<char>>(a.professor_id) && id_de(turma_id@) == Ok::<u128, Seq<char>>(a.turma_id) && a.dia_semana@ == dia_semana@ && a.tipo@ == tipo@ && a.criado_por@ == criado_por@),
        (horario_de(horario_inicio@) is Ok && horario_de(horario_fim@) is Ok && data_opcional_de(texto_opcional(*data_inicio)) is Ok && data_opcional_de(texto_opcional(*data_fim)) is Ok && id_de(professor_id@) is Ok && id_de(turma_id@) is Ok) ==> r is Ok,
        (horario_de(horario_inicio@) is Err) ==> (r is Err && r->Err_0@ == (horario_de(horario_inicio@))->Err_0),
        (horario_de(horario_inicio@) is Ok && horario_de(horario_fim@) is Err) ==> (r is Err && r->Err_0@ == (horario_de(horario_fim@))->Err_0),
        (horario_de(horario_inicio@) is Ok && horario_de(horario_fim@) is Ok && data_opcional_de(texto_opcional(*data_inicio)) is Err) ==> (r is Err && r->Err_0@ == (data_opcional_de(texto_opcional(*data_inicio)))->Err_0),
        (horario_de(horario_inicio@) is Ok && horario_de(horario_fim@) is Ok && data_opcional_de(texto_opcional(*data_inicio)) is Ok && data_opcional_de(texto_opcional(*data_fim)) is Err) ==> (r is Err && r->Err_0@ == (data_opcional_de(texto_opcional(*data_fim)))->Err_0),
        (horario_de(horario_inicio@) is Ok && horario_de(horario_fim@) is Ok && data_opcional_de(texto_opcional(*data_inicio)) is Ok && data_opcional_de(texto_opcional(*data_fim)) is Ok && id_de(professor_id@) is Err) ==> (r is Err && r->Err_0@ == (id_de(professor_id@))->Err_0),
        (horario_de(horario_inicio@) is Ok && horario_de(horario_fim@) is Ok && data_opcional_de(texto_opcional(*data_inicio)) is Ok && data_opcional_de(texto_opcional(*data_fim)) is Ok && id_de(professor_id@) is Ok && id_de(turma_id@) is Err) ==> (r is Err && r->Err_0@ == (id_de(turma_id@))->Err_0),
{
    let i = match analisar_horario(horario_inicio) {
        Ok(v) => v,
        Err(e) => {
            return Err(e);
        },
    };
    let f = match analisar_horario(horario_fim) {
        Ok(v) => v,
        Err(e) => {
            return Err(e);
        },
    };
    let di = match analisar_data_opcional(data_inicio) {
        Ok(v) => v,
        Err(e) => {
            return Err(e);
        },
    };
    let df = match analisar_data_opcional(data_fim) {
        Ok(v) => v,
        Err(e) => {
            return Err(e);
        },
    };
    let p = match analisar_id(professor_id) {
        Ok(v) => v,
        Err(e) => {
            return Err(e);
        },
    };
    let t = match analisar_id(turma_id) {
        Ok(v) => v,
        Err(e) => {
            return Err(e);
        },
    };
    Ok(
        NovaAula {
            professor_id: p,
            turma_id: t,
            dia_semana,
            horario_inicio: i,
            horario_fim: f,
            tipo,
            data_inicio: di,
            data_fim: df,
            criado_por,
        },
    )
}

/// Cada campo de uma aula nova vem do seu próprio texto: o início do texto
/// do início, o fim do texto do fim, as datas dos seus textos, o professor
/// e a turma dos seus; a leitura só falha quando uma delas falha, com o
/// erro da primeira que falha (início, fim, data de início, data de fim,
/// professor, turma).
pub proof fn lei_nova_aula(
    professor_id: Seq<char>,
    turma_id: Seq<char>,
    horario_inicio: Seq<char>,
    horario_fim: Seq<char>,
    data_inicio: Option<Seq<char>>,
    data_fim: Option<Seq<char>>,
)
    ensures
        leitura_aula(professor_id, turma_id, horario_inicio, horario_fim, data_inicio, data_fim) matches Ok((i, f, di, df, p, t)) ==> (horario_de(horario_inicio) == Ok::<Horario, Seq<char>>(i) && horario_de(horario_fim) == Ok::<Horario, Seq<char>>(f) && data_opcional_de(data_inicio) == Ok::<Option<Data>, Seq<char>>(di) && data_opcional_de(data_fim) == Ok::<Option<Data>, Seq<char>>(df) && id_de(professor_id) == Ok::<u128, Seq<char>>(p) && id_de(turma_id) == Ok::<u128, Seq<char>>(t)),
        (horario_de(horario_inicio) is Ok && horario_de(horario_fim) is Ok && data_opcional_de(data_inicio) is Ok && data_opcional_de(data_fim) is Ok && id_de(professor_id) is Ok && id_de(turma_id) is Ok) ==> leitura_aula(professor_id, turma_id, horario_inicio, horario_fim, data_inicio, data_fim) is Ok,
        (horario_de(horario_inicio) is Err) ==> (leitura_aula(professor_id, turma_id, horario_inicio, horario_fim, data_inicio, data_fim) is Err && (leitura_aula(professor_id, turma_id, horario_inicio, horario_fim, data_inicio, data_fim))->Err_0 == (horario_de(horario_inicio))->Err_0),
        (horario_de(horario_inicio) is Ok && horario_de(horario_fim) is Err) ==> (leitura_aula(professor_id, turma_id, horario_inicio, horario_fim, data_inicio, data_fim) is Err && (leitura_aula(professor_id, turma_id, horario_inicio, horario_fim, data_inicio, data_fim))->Err_0 == (horario_de(horario_fim))->Err_0),
        (horario_de(horario_inicio) is Ok && horario_de(horario_fim) is Ok && data_opcional_de(data_inicio) is Err) ==> (leitura_aula(professor_id, turma_id, horario_inicio, horario_fim, data_inicio, data_fim) is Err && (leitura_aula(professor_id, turma_id, horario_inicio, horario_fim, data_inicio, data_fim))->Err_0 == (data_opcional_de(data_inicio))->Err_0),
        (horario_de(horario_inicio) is Ok && horario_de(horario_fim) is Ok && data_opcional_de(data_inicio) is Ok && data_opcional_de(data_fim) is Err) ==> (leitura_aula(professor_id, turma_id, horario_inicio, horario_fim, data_inicio, data_fim) is Err && (leitura_aula(professor_id, turma_id, horario_inicio, horario_fim, data_inicio, data_fim))->Err_0 == (data_opcional_de(data_fim))->Err_0),
        (horario_de(horario_inicio) is Ok && horario_de(horario_fim) is Ok && data_opcional_de(data_inicio) is Ok && data_opcional_de(data_fim) is Ok && id_de(professor_id) is Err) ==> (leitura_aula(professor_id, turma_id, horario_inicio, horario_fim, data_inicio, data_fim) is Err && (leitura_aula(professor_id, turma_id, horario_inicio, horario_fim, data_inicio, data_fim))->Err_0 == (id_de(professor_id))->Err_0),
        (horario_de(horario_inicio) is Ok && horario_de(horario_fim) is Ok && data_opcional_de(data_inicio) is Ok && data_opcional_de(data_fim) is Ok && id_de(professor_id) is Ok && id_de(turma_id) is Err) ==> (leitura_aula(professor_id, turma_id, horario_inicio, horario_fim, data_inicio, data_fim) is Err && (leitura_aula(professor_id, turma_id, horario_inicio, horario_fim, data_inicio, data_fim))->Err_0 == (id_de(turma_id))->Err_0),
{
}

} // verus!
