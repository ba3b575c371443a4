//! Diário de aulas e registro de horas ministradas.

use vstd::prelude::*;
use vstd::string::*;
use crate::entradas::{
    analisar_data, analisar_id, analisar_id_opcional, data_de, id_de, id_opcional_de,
    texto_opcional, Data,
};
use crate::externos::{uuid_lido, visao};
use crate::texto::{numero_ou_zero, ou_padrao, ou_vazio, texto_ou, texto_ou_vazio};
use crate::commands::chamada::ou_zero;

verus! {

/// Uma entrada do diário de aulas de um professor.
#[derive(Clone, Debug)]
pub struct DiarioAula {
    pub id: String,
    pub professor_id: String,
    pub turma_id: String,
    pub turma_nome: String,
    pub escola_nome: String,
    pub data_aula: String,
    pub titulo: String,
    pub conteudo: String,
    pub observacoes: String,
}

/// Uma linha da consulta do diário.
#[derive(Clone, Debug)]
pub struct LinhaDiario {
    pub id: Option<String>,
    pub professor_id: Option<String>,
    pub turma_id: Option<String>,
    pub turma_nome: String,
    pub escola_nome: String,
    pub data_aula: Option<String>,
    pub titulo: String,
    pub conteudo: String,
    pub observacoes: String,
}

impl DiarioAula {
    /// A entrada de uma linha da consulta; textos nulos viram vazios.
    pub fn de_linha(l: LinhaDiario) -> (r: DiarioAula)
        ensures
            r.id@ == ou_vazio(l.id),
            r.professor_id@ == ou_vazio(l.professor_id),
            r.turma_id@ == ou_vazio(l.turma_id),
            r.turma_nome@ == l.turma_nome@,
            r.escola_nome@ == l.escola_nome@,
            r.data_aula@ == ou_vazio(l.data_aula),
            r.titulo@ == l.titulo@,
            r.conteudo@ == l.conteudo@,
            r.observacoes@ == l.observacoes@,
    {
        DiarioAula {
            id: texto_ou_vazio(l.id),
            professor_id: texto_ou_vazio(l.professor_id),
            turma_id: texto_ou_vazio(l.turma_id),
            turma_nome: l.turma_nome,
            escola_nome: l.escola_nome,
            data_aula: texto_ou_vazio(l.data_aula),
            titulo: l.titulo,
            conteudo: l.conteudo,
            observacoes: l.observacoes,
        }
    }
}

/// A leitura do filtro do diário: o professor e, se dada, a turma.
pub open spec fn filtro_diario_de(professor_id: Seq<char>, turma_id: Option<Seq<char>>) -> Result<
    (u128, Option<u128>),
    Seq<char>,
> {
    match id_de(professor_id) {
        Err(e) => Err(e),
        Ok(p) => match id_opcional_de(turma_id) {
            Err(e) => Err(e),
            Ok(t) => Ok((p, t)),
        },
    }
}

/// Decide que entradas do diário listar: as do professor, e só as da turma
/// quando ela é dada.
pub fn filtro_diario(professor_id: &str, turma_id: &Option<String>) -> (r: Result<
    (u128, Option<u128>),
    String,
>)
    ensures
        visao(r) == filtro_diario_de(professor_id@, texto_opcional(*turma_id)),
        r matches Ok(v) ==> (id_de(professor_id@) == Ok::<u128, Seq<char>>(v.0) && id_opcional_de(
            texto_opcional(*turma_id),
        ) == Ok::<Option<u128>, Seq<char>>(v.1)),
        (id_de(professor_id@) is Ok && id_opcional_de(texto_opcional(*turma_id)) is Ok) ==> r is Ok,
        (id_de(professor_id@) is Err) ==> (r is Err && r->Err_0@ == (id_de(professor_id@))->Err_0),
        (id_de(professor_id@) is Ok && id_opcional_de(texto_opcional(*turma_id)) is Err) ==> (r is Err
            && r->Err_0@ == (id_opcional_de(texto_opcional(*turma_id)))->Err_0),
{
    let p = match analisar_id(professor_id) {
        Ok(v) => v,
        Err(e) => {
            return Err(e);
        },
    };
    match analisar_id_opcional(turma_id) {
        Ok(t) => Ok((p, t)),
        Err(e) => Err(e),
    }
}

/// Uma entrada nova do diário.
#[derive(Clone, Debug)]
pub struct NovaEntrada {
    pub professor_id: u128,
    pub turma_id: u128,
    pub data_aula: Data,
    pub titulo: String,
    pub conteudo: String,
    pub observacoes: String,
}

/// A leitura de uma entrada nova, na ordem: data, professor, turma.
pub open spec fn leitura_entrada(data_aula: Seq<char>, professor_id: Seq<char>, turma_id: Seq<char>) -> Result<
    (Data, u128, u128),
    Seq<char>,
> {
    match data_de(data_aula) {
        Err(e) => Err(e),
        Ok(d) => match id_de(professor_id) {
            Err(e) => Err(e),
            Ok(p) => match id_de(turma_id) {
                Err(e) => Err(e),
                Ok(t) => Ok((d, p, t)),
            },
        },
    }
}

/// Prepara uma entrada nova do diário; título, conteúdo e observações
/// seguem como vieram.
pub fn preparar_nova_entrada(
    professor_id: &str,
    turma_id: &str,
    data_aula: &str,
    titulo: String,
    conteudo: String,
    observacoes: String,
) -> (r: Result<NovaEntrada, String>)
    ensures
        leitura_entrada(data_aula@, professor_id@, turma_id@) matches Err(e) ==> (r matches Err(m)
            && m@ == e),
        leitura_entrada(data_aula@, professor_id@, turma_id@) matches Ok((d, p, t)) ==> (
        r matches Ok(n) && n.data_aula == d && n.professor_id == p && n.turma_id == t
            && n.titulo@ == titulo@ && n.conteudo@ == conteudo@ && n.observacoes@
            == observacoes@),
        r matches Ok(n) ==> (data_de(data_aula@) == Ok::<Data, Seq<char>>(n.data_aula) && id_de(professor_id@) == Ok::<u128, Seq<char>>(n.professor_id) && id_de(turma_id@) == Ok::<u128, Seq<char>>(n.turma_id) && n.titulo@ == titulo@ && n.conteudo@ == conteudo@ && n.observacoes@ == observacoes@),
        (data_de(data_aula@) is Ok && id_de(professor_id@) is Ok && id_de(turma_id@) is Ok) ==> r is Ok,
        (data_de(data_aula@) is Err) ==> (r is Err && r->Err_0@ == (data_de(data_aula@))->Err_0),
        (data_de(data_aula@) is Ok && id_de(professor_id@) is Err) ==> (r is Err && r->Err_0@ == (id_de(professor_id@))->Err_0),
        (data_de(data_aula@) is Ok && id_de(professor_id@) is Ok && id_de(turma_id@) is Err) ==> (r is Err && r->Err_0@ == (id_de(turma_id@))->Err_0),
{
    let d = match analisar_data(data_aula) {
        Ok(v) => v,
        Err(e) => {
            return Err(e);
        },
    };
    let p = match analisar_id(professor_id) {
        Ok(v) => v,
        Err(e) => {
            return Err(e);
        },
    };
    let t = match analisar_id(turma_id) {
        Ok(v) => v,
        Err(e) => {
            return Err(e);
        },
    };
    Ok(NovaEntrada { professor_id: p, turma_id: t, data_aula: d, titulo, conteudo, observacoes })
}

/// Uma entrada do diário a atualizar.
#[derive(Clone, Debug)]
pub struct EntradaAtualizada {
    pub id: u128,
    pub data_aula: Data,
    pub titulo: String,
    pub conteudo: String,
    pub observacoes: String,
}

/// A leitura de uma atualização do diário, na ordem: data, entrada.
pub open spec fn leitura_atualizacao(id: Seq<char>, data_aula: Seq<char>) -> Result<
    (u128, Data),
    Seq<char>,
> {
    match data_de(data_aula) {
        Err(e) => Err(e),
        Ok(d) => match id_de(id) {
            Err(e) => Err(e),
            Ok(v) => Ok((v, d)),
        },
    }
}

/// Prepara a atualização de uma entrada do diário.
pub fn preparar_atualizacao_entrada(
    id: &str,
    data_aula: &str,
    titulo: String,
    conteudo: String,
    observacoes: String,
) -> (r: Result<EntradaAtualizada, String>)
    ensures
        leitura_atualizacao(id@, data_aula@) matches Err(e) ==> (r matches Err(m) && m@ == e),
        leitura_atualizacao(id@, data_aula@) matches Ok((v, d)) ==> (r matches Ok(n) && n.id == v
            && n.data_aula == d && n.titulo@ == titulo@ && n.conteudo@ == conteudo@
            && n.observacoes@ == observacoes@),
        r matches Ok(n) ==> (data_de(data_aula@) == Ok::<Data, Seq<char>>(n.data_aula) && id_de(id@) == Ok::<u128, Seq<char>>(n.id) && n.titulo@ == titulo@ && n.conteudo@ == conteudo@ && n.observacoes@ == observacoes@),
        (data_de(data_aula@) is Ok && id_de(id@) is Ok) ==> r is Ok,
        (data_de(data_aula@) is Err) ==> (r is Err && r->Err_0@ == (data_de(data_aula@))->Err_0),
        (data_de(data_aula@) is Ok && id_de(id@) is Err) ==> (r is Err && r->Err_0@ == (id_de(id@))->Err_0),
{
    let d = match analisar_data(data_aula) {
        Ok(v) => v,
        Err(e) => {
            return Err(e);
        },
    };
    let v = match analisar_id(id) {
        Ok(x) => x,
        Err(e) => {
            return Err(e);
        },
    };
    Ok(EntradaAtualizada { id: v, data_aula: d, titulo, conteudo, observacoes })
}

/// O registro das horas de uma aula dada, sem as horas ministradas (um
/// número de ponto flutuante, que fica com quem monta o registro).
#[derive(Clone, Debug)]
pub struct DadosHoras {
    pub chamada_id: String,
    pub professor_id: String,
    pub professor_nome: String,
    pub turma_id: String,
    pub turma_nome: String,
    pub escola_nome: String,
    pub escola_tipo: String,
    pub data_aula: String,
    pub horario_inicio: String,
    pub horario_fim: String,
    pub tipo_aula: String,
    pub total_alunos: i64,
    pub total_presentes: i64,
    pub total_ausentes: i64,
}

/// Uma linha da consulta de horas, sem as horas ministradas.
#[derive(Clone, Debug)]
pub struct LinhaHoras {
    pub chamada_id: Option<String>,
    pub professor_id: Option<String>,
    pub professor_nome: Option<String>,
    pub turma_id: Option<String>,
    pub turma_nome: Option<String>,
    pub escola_nome: Option<String>,
    pub escola_tipo: Option<String>,
    pub data_aula: Option<String>,
    pub horario_inicio: Option<String>,
    pub horario_fim: Option<String>,
    pub tipo_aula: Option<String>,
    pub total_alunos: Option<i64>,
    pub total_presentes: Option<i64>,
    pub total_ausentes: Option<i64>,
}

/// O tipo de escola assumido quando não há.
pub open spec fn tipo_escola_padrao() -> Seq<char> {
    "PUBLICA"@
}

impl DadosHoras {
    /// O registro de uma linha da consulta; textos nulos viram vazios, o
    /// tipo de escola nulo vira `PUBLICA` e contagens nulas viram zero.
    pub fn de_linha(l: LinhaHoras) -> (r: DadosHoras)
        ensures
            r.chamada_id@ == ou_vazio(l.chamada_id),
            r.professor_id@ == ou_vazio(l.professor_id),
            r.professor_nome@ == ou_vazio(l.professor_nome),
            r.turma_id@ == ou_vazio(l.turma_id),
            r.turma_nome@ == ou_vazio(l.turma_nome),
            r.escola_nome@ == ou_vazio(l.escola_nome),
            r.escola_tipo@ == ou_padrao(l.escola_tipo, tipo_escola_padrao()),
            l.escola_tipo is None ==> r.escola_tipo@ == "PUBLICA"@,
            r.data_aula@ == ou_vazio(l.data_aula),
            r.horario_inicio@ == ou_vazio(l.horario_inicio),
            r.horario_fim@ == ou_vazio(l.horario_fim),
            r.tipo_aula@ == ou_vazio(l.tipo_aula),
            r.total_alunos == ou_zero(l.total_alunos),
            r.total_presentes == ou_zero(l.total_presentes),
            r.total_ausentes == ou_zero(l.total_ausentes),
    {
        DadosHoras {
            chamada_id: texto_ou_vazio(l.chamada_id),
            professor_id: texto_ou_vazio(l.professor_id),
            professor_nome: texto_ou_vazio(l.professor_nome),
            turma_id: texto_ou_vazio(l.turma_id),
            turma_nome: texto_ou_vazio(l.turma_nome),
            escola_nome: texto_ou_vazio(l.escola_nome),
            escola_tipo: texto_ou(l.escola_tipo, "PUBLICA"),
            data_aula: texto_ou_vazio(l.data_aula),
            horario_inicio: texto_ou_vazio(l.horario_inicio),
            horario_fim: texto_ou_vazio(l.horario_fim),
            tipo_aula: texto_ou_vazio(l.tipo_aula),
            total_alunos: numero_ou_zero(l.total_alunos),
            total_presentes: numero_ou_zero(l.total_presentes),
            total_ausentes: numero_ou_zero(l.total_ausentes),
        }
    }
}

/// O professor pelo qual filtrar as horas: um identificador inválido não
/// filtra, como se nenhum fosse dado.
pub open spec fn filtro_horas_de(professor_id: Option<Seq<char>>) -> Option<u128> {
    match professor_id {
        Some(p) => match id_de(p) {
            Ok(v) => Some(v),
            Err(_) => None,
        },
        None => None,
    }
}

/// Decide o professor pelo qual filtrar o registro de horas; um
/// identificador inválido é ignorado.
pub fn filtro_horas(professor_id: &Option<String>) -> (r: Option<u128>)
    ensures
        r == filtro_horas_de(texto_opcional(*professor_id)),
        professor_id is None ==> r is None,
        professor_id matches Some(t) ==> (uuid_lido(t@) matches Ok(v) ==> r == Some(v)),
        professor_id matches Some(t) ==> (uuid_lido(t@) is Err ==> r is None),
{
    match professor_id {
        Some(p) => match analisar_id(p.as_str()) {
            Ok(v) => Some(v),
            Err(_) => None,
        },
        None => None,
    }
}

/// O filtro do diário tem o professor lido do seu texto e a turma lida do
/// seu; só falha quando uma das leituras falha, primeiro o professor.
pub proof fn lei_filtro_diario(professor_id: Seq<char>, turma_id: Option<Seq<char>>)
    ensures
        filtro_diario_de(professor_id, turma_id) matches Ok((p, t)) ==> (id_de(professor_id) == Ok::<u128, Seq<char>>(p) && id_opcional_de(turma_id) == Ok::<Option<u128>, Seq<char>>(t)),
        (id_de(professor_id) is Ok && id_opcional_de(turma_id) is Ok) ==> filtro_diario_de(professor_id, turma_id) is Ok,
        (id_de(professor_id) is Err) ==> (filtro_diario_de(professor_id, turma_id) is Err && (filtro_diario_de(professor_id, turma_id))->Err_0 == (id_de(professor_id))->Err_0),
        (id_de(professor_id) is Ok && id_opcional_de(turma_id) is Err) ==> (filtro_diario_de(professor_id, turma_id) is Err && (filtro_diario_de(professor_id, turma_id))->Err_0 == (id_opcional_de(turma_id))->Err_0),
{
}

/// Cada campo de uma entrada nova do diário vem do seu próprio texto: a
/// data do texto da data, o professor do texto do professor, a turma do
/// texto da turma; só falha quando uma leitura falha, com o erro da
/// primeira (data, professor, turma).
pub proof fn lei_nova_entrada(data_aula: Seq<char>, professor_id: Seq<char>, turma_id: Seq<char>)
    ensures
        leitura_entrada(data_aula, professor_id, turma_id) matches Ok((d, p, t)) ==> (data_de(data_aula) == Ok::<Data, Seq<char>>(d) && id_de(professor_id) == Ok::<u128, Seq<char>>(p) && id_de(turma_id) == Ok::<u128, Seq<char>>(t)),
        (data_de(data_aula) is Ok && id_de(professor_id) is Ok && id_de(turma_id) is Ok) ==> leitura_entrada(data_aula, professor_id, turma_id) is Ok,
        (data_de(data_aula) is Err) ==> (leitura_entrada(data_aula, professor_id, turma_id) is Err && (leitura_entrada(data_aula, professor_id, turma_id))->Err_0 == (data_de(data_aula))->Err_0),
        (data_de(data_aula) is Ok && id_de(professor_id) is Err) ==> (leitura_entrada(data_aula, professor_id, turma_id) is Err && (leitura_entrada(data_aula, professor_id, turma_id))->Err_0 == (id_de(professor_id))->Err_0),
        (data_de(data_aula) is Ok && id_de(professor_id) is Ok && id_de(turma_id) is Err) ==> (leitura_entrada(data_aula, professor_id, turma_id) is Err && (leitura_entrada(data_aula, professor_id, turma_id))->Err_0 == (id_de(turma_id))->Err_0),
{
}

/// A atualização do diário tem a entrada lida do seu identificador e a
/// data do texto da data; só falha quando uma leitura falha, primeiro a data.
pub proof fn lei_atualizacao_entrada(id: Seq<char>, data_aula: Seq<char>)
    ensures
        leitura_atualizacao(id, data_aula) matches Ok((v, d)) ==> (data_de(data_aula) == Ok::<Data, Seq<char>>(d) && id_de(id) == Ok::<u128, Seq<char>>(v)),
        (data_de(data_aula) is Ok && id_de(id) is Ok) ==> leitura_atualizacao(id, data_aula) is Ok,
        (data_de(data_aula) is Err) ==> (leitura_atualizacao(id, data_aula) is Err && (leitura_atualizacao(id, data_aula))->Err_0 == (data_de(data_aula))->Err_0),
        (data_de(data_aula) is Ok && id_de(id) is Err) ==> (leitura_atualizacao(id, data_aula) is Err && (leitura_atualizacao(id, data_aula))->Err_0 == (id_de(id))->Err_0),
{
}

/// O registro de horas só filtra por professor quando o identificador dado
/// é válido; um identificador inválido é o mesmo que nenhum.
pub proof fn lei_filtro_horas(professor_id: Option<Seq<char>>)
    ensures
        professor_id is None ==> filtro_horas_de(professor_id) is None,
        professor_id matches Some(t) ==> (uuid_lido(t) matches Ok(v) ==> filtro_horas_de(
            professor_id,
        ) == Some(v)),
        professor_id matches Some(t) ==> (uuid_lido(t) is Err ==> filtro_horas_de(
            professor_id,
        ) is None),
{
}

/// O tipo de escola assumido quando não há é `PUBLICA`.
pub proof fn lei_tipo_escola_padrao()
    ensures
        tipo_escola_padrao() == "PUBLICA"@,
{
}

} // verus!
