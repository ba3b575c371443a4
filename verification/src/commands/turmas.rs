//! Turmas: a listagem (por professor, por escola ou todas), a criação e a
//! atualização.

use vstd::prelude::*;
use vstd::string::*;
use crate::entradas::{analisar_id, analisar_id_opcional, id_de, id_opcional_de, texto_opcional};
use crate::externos::{uuid_lido, visao};
use crate::texto::{aparado, aparar, ou_padrao, ou_vazio, texto_ou, texto_ou_vazio};

verus! {

/// Uma turma, com a escola e o professor responsável.
#[derive(Clone, Debug)]
pub struct Turma {
    pub id: String,
    pub escola_id: String,
    pub nome: String,
    pub ano_letivo: String,
    pub escola_nome: String,
    pub professor_nome: String,
    pub professor_id: Option<String>,
}

/// Uma linha da consulta de turmas.
#[derive(Clone, Debug)]
pub struct LinhaTurma {
    pub id: Option<String>,
    pub escola_id: Option<String>,
    pub nome: String,
    pub ano_letivo: String,
    pub professor_id: Option<String>,
    pub escola_nome: String,
    pub prof_nome: Option<String>,
}

/// O nome mostrado quando a turma não tem professor.
pub open spec fn sem_professor() -> Seq<char> {
    "Sem Professor"@
}

impl Turma {
    /// A turma de uma linha da consulta; sem professor, o nome do professor
    /// é `Sem Professor`.
    pub fn de_linha(l: LinhaTurma) -> (r: Turma)
        ensures
            r.id@ == ou_vazio(l.id),
            r.escola_id@ == ou_vazio(l.escola_id),
            r.nome@ == l.nome@,
            r.ano_letivo@ == l.ano_letivo@,
            r.escola_nome@ == l.escola_nome@,
            r.professor_nome@ == ou_padrao(l.prof_nome, sem_professor()),
            l.prof_nome matches Some(n) ==> r.professor_nome@ == n@,
            l.prof_nome is None ==> r.professor_nome@ == "Sem Professor"@,
            r.professor_id == l.professor_id,
    {
        Turma {
            id: texto_ou_vazio(l.id),
            escola_id: texto_ou_vazio(l.escola_id),
            nome: l.nome,
            ano_letivo: l.ano_letivo,
            escola_nome: l.escola_nome,
            professor_nome: texto_ou(l.prof_nome, "Sem Professor"),
            professor_id: l.professor_id,
        }
    }
}

/// Que turmas listar.
#[derive(Clone, Copy, Debug, PartialEq, Eq)]
pub enum FiltroTurmas {
    /// As turmas do professor, por escola e nome.
    PorProfessor(u128),
    /// As turmas da escola, das mais novas às mais antigas.
    PorEscola(u128),
    /// Todas, das mais novas às mais antigas.
    Todas,
}

/// O filtro da listagem de turmas: o professor, quando dado, prevalece
/// sobre a escola.
pub open spec fn filtro_turmas_de(professor_id: Option<Seq<char>>, escola_id: Option<Seq<char>>) -> Result<
    FiltroTurmas,
    Seq<char>,
> {
    match professor_id {
        Some(p) => match id_de(p) {
            Ok(v) => Ok(FiltroTurmas::PorProfessor(v)),
            Err(e) => Err(e),
        },
        None => match escola_id {
            Some(e) => match id_de(e) {
                Ok(v) => Ok(FiltroTurmas::PorEscola(v)),
                Err(m) => Err(m),
            },
            None => Ok(FiltroTurmas::Todas),
        },
    }
}

/// Decide que turmas listar: as do professor, se dado; senão as da escola,
/// se dada; senão todas.
pub fn filtro_turmas(professor_id: &Option<String>, escola_id: &Option<String>) -> (r: Result<
    FiltroTurmas,
    String,
>)
    ensures
        visao(r) == filtro_turmas_de(texto_opcional(*professor_id), texto_opcional(*escola_id)),
        professor_id matches Some(p) ==> (id_de(p@) matches Ok(v) ==> r == Ok::<
            FiltroTurmas,
            String,
        >(FiltroTurmas::PorProfessor(v))),
        professor_id matches Some(p) ==> (id_de(p@) matches Err(e) ==> (r matches Err(m) && m@
            == e)),
        professor_id is None ==> (escola_id matches Some(s) ==> (id_de(s@) matches Ok(v) ==> r
            == Ok::<FiltroTurmas, String>(FiltroTurmas::PorEscola(v)))),
        professor_id is None ==> (escola_id matches Some(s) ==> (id_de(s@) matches Err(e) ==> (
        r matches Err(m) && m@ == e))),
        (professor_id is None && escola_id is None) ==> r == Ok::<FiltroTurmas, String>(
            FiltroTurmas::Todas,
        ),
{
    match professor_id {
        Some(p) => match analisar_id(p.as_str()) {
            Ok(v) => Ok(FiltroTurmas::PorProfessor(v)),
            Err(e) => Err(e),
        },
        None => match escola_id {
            Some(e) => match analisar_id(e.as_str()) {
                Ok(v) => Ok(FiltroTurmas::PorEscola(v)),
                Err(m) => Err(m),
            },
            None => Ok(FiltroTurmas::Todas),
        },
    }
}

/// Uma turma a criar.
#[derive(Clone, Debug)]
pub struct NovaTurma {
    pub escola_id: u128,
    pub nome: String,
    pub ano_letivo: String,
}

/// Prepara a criação de uma turma: lê a escola e apara o nome. O professor,
/// quando dado, é lido só depois de a turma ser inserida
/// (`analisar_id_opcional`).
pub fn preparar_nova_turma(escola_id: &str, nome: &str, ano_letivo: String) -> (r: Result<
    NovaTurma,
    String,
>)
    ensures
        id_de(escola_id@) matches Err(e) ==> (r matches Err(m) && m@ == e),
        id_de(escola_id@) matches Ok(v) ==> (r matches Ok(t) && t.escola_id == v && t.nome@
            == aparado(nome@) && t.ano_letivo@ == ano_letivo@),
{
    match analisar_id(escola_id) {
        Err(e) => Err(e),
        Ok(v) => Ok(NovaTurma { escola_id: v, nome: aparar(nome), ano_letivo }),
    }
}

/// Uma turma a atualizar; sem professor, o professor da turma é apagado.
#[derive(Clone, Debug)]
pub struct TurmaAtualizada {
    pub id: u128,
    pub escola_id: u128,
    pub nome: String,
    pub ano_letivo: String,
    pub professor_id: Option<u128>,
}

/// A leitura dos identificadores de uma atualização de turma, na ordem:
/// turma, escola, professor.
pub open spec fn ids_atualizacao_turma(
    id: Seq<char>,
    escola_id: Seq<char>,
    professor_id: Option<Seq<char>>,
) -> Result<(u128, u128, Option<u128>), Seq<char>> {
    match id_de(id) {
        Err(e) => Err(e),
        Ok(t) => match id_de(escola_id) {
            Err(e) => Err(e),
            Ok(s) => match id_opcional_de(professor_id) {
                Err(e) => Err(e),
                Ok(p) => Ok((t, s, p)),
            },
        },
    }
}

/// Prepara a atualização de uma turma: lê turma, escola e professor (nessa
/// ordem) e apara o nome.
pub fn preparar_atualizacao_turma(
    id: &str,
    escola_id: &str,
    nome: &str,
    ano_letivo: String,
    professor_id: &Option<String>,
) -> (r: Result<TurmaAtualizada, String>)
    ensures
        ids_atualizacao_turma(id@, escola_id@, texto_opcional(*professor_id)) matches Err(e) ==> (
        r matches Err(m) && m@ == e),
        ids_atualizacao_turma(id@, escola_id@, texto_opcional(*professor_id)) matches Ok(
            (t, s, p),
        ) ==> (r matches Ok(a) && a.id == t && a.escola_id == s && a.professor_id == p
            && a.nome@ == aparado(nome@) && a.ano_letivo@ == ano_letivo@),
        r matches Ok(a) ==> (id_de(id@) == Ok::<u128, Seq<char>>(a.id) && id_de(escola_id@) == Ok::<
            u128,
            Seq<char>,
        >(a.escola_id) && id_opcional_de(texto_opcional(*professor_id)) == Ok::<
            Option<u128>,
            Seq<char>,
        >(a.professor_id)),
        professor_id matches Some(pt) ==> (id_de(pt@) matches Ok(v) ==> (r matches Ok(a)
            ==> a.professor_id == Some(v))),
        professor_id is None ==> (r matches Ok(a) ==> a.professor_id is None),
        r matches Ok(a) ==> (a.professor_id is None <==> professor_id is None),
        (id_de(id@) is Ok && id_de(escola_id@) is Ok && id_opcional_de(texto_opcional(*professor_id))
            is Ok) ==> r is Ok,
        id_de(id@) matches Err(e) ==> (r matches Err(m) && m@ == e),
        (id_de(id@) is Ok && id_de(escola_id@) is Err) ==> (r is Err && r->Err_0@ == (id_de(
            escola_id@,
        ))->Err_0),
        (id_de(id@) is Ok && id_de(escola_id@) is Ok && id_opcional_de(texto_opcional(*professor_id))
            is Err) ==> (r is Err && r->Err_0@ == (id_opcional_de(texto_opcional(*professor_id)))->Err_0),
{
    let t = match analisar_id(id) {
        Ok(v) => v,
        Err(e) => {
            return Err(e);
        },
    };
    let s = match analisar_id(escola_id) {
        Ok(v) => v,
        Err(e) => {
            return Err(e);
        },
    };
    let p = match analisar_id_opcional(professor_id) {
        Ok(v) => v,
        Err(e) => {
            return Err(e);
        },
    };
    Ok(TurmaAtualizada { id: t, escola_id: s, nome: aparar(nome), ano_letivo, professor_id: p })
}

/// O nome mostrado de uma turma sem professor é `Sem Professor`.
pub proof fn lei_sem_professor()
    ensures
        sem_professor() == "Sem Professor"@,
        ou_padrao(None, sem_professor()) == "Sem Professor"@,
{
}

/// O filtro das turmas: um professor dado prevalece e é lido do seu
/// texto; sem professor, a escola dada é lida do seu texto; sem nenhum dos
/// dois, todas as turmas. Falha só quando o texto escolhido não se lê, com
/// o erro dessa leitura.
pub proof fn lei_filtro_turmas(professor_id: Option<Seq<char>>, escola_id: Option<Seq<char>>)
    ensures
        professor_id matches Some(p) ==> (uuid_lido(p) matches Ok(v) ==> filtro_turmas_de(
            professor_id,
            escola_id,
        ) == Ok::<FiltroTurmas, Seq<char>>(FiltroTurmas::PorProfessor(v))),
        professor_id matches Some(p) ==> (uuid_lido(p) matches Err(e) ==> filtro_turmas_de(
            professor_id,
            escola_id,
        ) == Err::<FiltroTurmas, Seq<char>>(e)),
        professor_id is None ==> (escola_id matches Some(s) ==> (uuid_lido(s) matches Ok(v)
            ==> filtro_turmas_de(professor_id, escola_id) == Ok::<FiltroTurmas, Seq<char>>(
            FiltroTurmas::PorEscola(v),
        ))),
        professor_id is None ==> (escola_id matches Some(s) ==> (uuid_lido(s) matches Err(e)
            ==> filtro_turmas_de(professor_id, escola_id) == Err::<FiltroTurmas, Seq<char>>(e))),
        (professor_id is None && escola_id is None) ==> filtro_turmas_de(professor_id, escola_id)
            == Ok::<FiltroTurmas, Seq<char>>(FiltroTurmas::Todas),
{
}

/// Na atualização de uma turma, a turma é lida do texto da turma, a escola
/// do texto da escola e o professor do texto do professor: um professor
/// dado que se lê como `v` fica `Some(v)`, e o professor só fica ausente
/// quando nenhum texto é dado. A leitura só falha quando uma dessas falha,
/// com o erro da primeira.
pub proof fn lei_atualizacao_turma(
    id: Seq<char>,
    escola_id: Seq<char>,
    professor_id: Option<Seq<char>>,
)
    ensures
        ids_atualizacao_turma(id, escola_id, professor_id) matches Ok((t, s, p)) ==> (uuid_lido(
            id,
        ) == Ok::<u128, Seq<char>>(t) && uuid_lido(escola_id) == Ok::<u128, Seq<char>>(s)
            && id_opcional_de(professor_id) == Ok::<Option<u128>, Seq<char>>(p)),
        professor_id matches Some(pt) ==> (uuid_lido(pt) matches Ok(v) ==> (ids_atualizacao_turma(
            id,
            escola_id,
            professor_id,
        ) matches Ok((t, s, p)) ==> p == Some(v))),
        ids_atualizacao_turma(id, escola_id, professor_id) matches Ok((t, s, p)) ==> (p is None
            <==> professor_id is None),
        (uuid_lido(id) is Ok && uuid_lido(escola_id) is Ok && id_opcional_de(professor_id) is Ok)
            ==> ids_atualizacao_turma(id, escola_id, professor_id) is Ok,
        uuid_lido(id) matches Err(e) ==> ids_atualizacao_turma(id, escola_id, professor_id)
            == Err::<(u128, u128, Option<u128>), Seq<char>>(e),
        (uuid_lido(id) is Ok && uuid_lido(escola_id) is Err) ==> ids_atualizacao_turma(
            id,
            escola_id,
            professor_id,
        ) == Err::<(u128, u128, Option<u128>), Seq<char>>((uuid_lido(escola_id))->Err_0),
        (uuid_lido(id) is Ok && uuid_lido(escola_id) is Ok && id_opcional_de(professor_id) is Err)
            ==> ids_atualizacao_turma(id, escola_id, professor_id) == Err::<
            (u128, u128, Option<u128>),
            Seq<char>,
        >((id_opcional_de(professor_id))->Err_0),
{
}

} // verus!
