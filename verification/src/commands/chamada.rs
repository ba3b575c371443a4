//! Chamadas (registros de presença): listagem, resumo por turma, gravação
//! de uma chamada com as presenças e atualização das presenças.

use vstd::prelude::*;
use vstd::string::*;
use crate::entradas::{
    analisar_data, analisar_horario, analisar_id, analisar_id_opcional, data_de, horario_de, id_de,
    id_opcional_de, texto_opcional, Data, Horario,
};
use crate::externos::visao;
use crate::texto::{numero_ou_zero, ou_vazio, texto_ou_vazio};

verus! {

/// Uma chamada feita por um professor, com a contagem de alunos e de
/// presentes.
#[derive(Clone, Debug)]
pub struct Chamada {
    pub id: String,
    pub professor_id: String,
    pub turma_id: String,
    pub turma_nome: String,
    pub cronograma_id: Option<String>,
    pub data_aula: String,
    pub horario_inicio: String,
    pub horario_fim: String,
    pub total_alunos: i64,
    pub total_presentes: i64,
}

/// A presença de um aluno numa chamada; `id` e `chamada_id` faltam enquanto
/// a presença não foi gravada.
#[derive(Clone, Debug)]
pub struct ChamadaPresenca {
    pub id: Option<String>,
    pub chamada_id: Option<String>,
    pub aluno_id: String,
    pub aluno_nome: String,
    pub presente: bool,
}

/// Uma linha da consulta de chamadas.
#[derive(Clone, Debug)]
pub struct LinhaChamada {
    pub id: Option<String>,
    pub professor_id: Option<String>,
    pub turma_id: Option<String>,
    pub turma_nome: String,
    pub cronograma_id: Option<String>,
    pub data_aula: Option<String>,
    pub horario_inicio: Option<String>,
    pub horario_fim: Option<String>,
    pub total_alunos: Option<i64>,
    pub total_presentes: Option<i64>,
}

/// Uma linha da consulta de presenças.
#[derive(Clone, Debug)]
pub struct LinhaPresenca {
    pub id: Option<String>,
    pub chamada_id: Option<String>,
    pub aluno_id: Option<String>,
    pub aluno_nome: String,
    pub presente: bool,
}

/// O resumo das chamadas de uma turma, sem a média de presença (que é um
/// número de ponto flutuante e fica com quem monta o resumo).
#[derive(Clone, Debug)]
pub struct DadosResumo {
    pub turma_id: String,
    pub turma_nome: String,
    pub escola_nome: String,
    pub total_chamadas: i64,
    pub ultima_chamada: Option<String>,
}

/// Uma linha da consulta de resumo, sem a média de presença.
#[derive(Clone, Debug)]
pub struct LinhaResumo {
    pub turma_id: Option<String>,
    pub turma_nome: String,
    pub escola_nome: String,
    pub total_chamadas: Option<i64>,
    pub ultima_chamada: Option<String>,
}

/// Um número ausente conta como zero.
pub open spec fn ou_zero(o: Option<i64>) -> i64 {
    match o {
        Some(v) => v,
        None => 0,
    }
}

impl Chamada {
    /// A chamada de uma linha da consulta; textos nulos viram vazios e
    /// contagens nulas viram zero.
    pub fn de_linha(l: LinhaChamada) -> (r: Chamada)
        ensures
            r.id@ == ou_vazio(l.id),
            r.professor_id@ == ou_vazio(l.professor_id),
            r.turma_id@ == ou_vazio(l.turma_id),
            r.turma_nome@ == l.turma_nome@,
            r.cronograma_id == l.cronograma_id,
            r.data_aula@ == ou_vazio(l.data_aula),
            r.horario_inicio@ == ou_vazio(l.horario_inicio),
            r.horario_fim@ == ou_vazio(l.horario_fim),
            r.total_alunos == ou_zero(l.total_alunos),
            r.total_presentes == ou_zero(l.total_presentes),
    {
        Chamada {
            id: texto_ou_vazio(l.id),
            professor_id: texto_ou_vazio(l.professor_id),
            turma_id: texto_ou_vazio(l.turma_id),
            turma_nome: l.turma_nome,
            cronograma_id: l.cronograma_id,
            data_aula: texto_ou_vazio(l.data_aula),
            horario_inicio: texto_ou_vazio(l.horario_inicio),
            horario_fim: texto_ou_vazio(l.horario_fim),
            total_alunos: numero_ou_zero(l.total_alunos),
            total_presentes: numero_ou_zero(l.total_presentes),
        }
    }
}

impl ChamadaPresenca {
    /// A presença de uma linha da consulta; o aluno nulo vira texto vazio.
    pub fn de_linha(l: LinhaPresenca) -> (r: ChamadaPresenca)
        ensures
            r.id == l.id,
            r.chamada_id == l.chamada_id,
            r.aluno_id@ == ou_vazio(l.aluno_id),
            r.aluno_nome@ == l.aluno_nome@,
            r.presente == l.presente,
    {
        ChamadaPresenca {
            id: l.id,
            chamada_id: l.chamada_id,
            aluno_id: texto_ou_vazio(l.aluno_id),
            aluno_nome: l.aluno_nome,
            presente: l.presente,
        }
    }
}

impl DadosResumo {
    /// O resumo de uma linha da consulta; a turma nula vira texto vazio e o
    /// total nulo vira zero.
    pub fn de_linha(l: LinhaResumo) -> (r: DadosResumo)
        ensures
            r.turma_id@ == ou_vazio(l.turma_id),
            r.turma_nome@ == l.turma_nome@,
            r.escola_nome@ == l.escola_nome@,
            r.total_chamadas == ou_zero(l.total_chamadas),
            r.ultima_chamada == l.ultima_chamada,
    {
        DadosResumo {
            turma_id: texto_ou_vazio(l.turma_id),
            turma_nome: l.turma_nome,
            escola_nome: l.escola_nome,
            total_chamadas: numero_ou_zero(l.total_chamadas),
            ultima_chamada: l.ultima_chamada,
        }
    }
}

/// A pergunta "já há chamada deste professor, nesta turma, nesta data?".
#[derive(Clone, Copy, Debug, PartialEq, Eq)]
pub struct ConsultaChamada {
    pub professor_id: u128,
    pub turma_id: u128,
    pub data: Data,
}

/// A leitura de uma consulta de chamada, na ordem: professor, turma, data.
pub open spec fn consulta_chamada_de(professor_id: Seq<char>, turma_id: Seq<char>, data: Seq<char>) -> Result<
    ConsultaChamada,
    Seq<char>,
> {
    match id_de(professor_id) {
        Err(e) => Err(e),
        Ok(p) => match id_de(turma_id) {
            Err(e) => Err(e),
            Ok(t) => match data_de(data) {
                Err(e) => Err(e),
                Ok(d) => Ok(ConsultaChamada { professor_id: p, turma_id: t, data: d }),
            },
        },
    }
}

/// Prepara a verificação de uma chamada já existente.
pub fn preparar_consulta_chamada(professor_id: &str, turma_id: &str, data: &str) -> (r: Result<
    ConsultaChamada,
    String,
>)
    ensures
        visao(r) == consulta_chamada_de(professor_id@, turma_id@, data@),
        r matches Ok(c) ==> id_de(professor_id@) == Ok::<u128, Seq<char>>(c.professor_id) && id_de(
            turma_id@,
        ) == Ok::<u128, Seq<char>>(c.turma_id) && data_de(data@) == Ok::<Data, Seq<char>>(
            c.data,
        ),
        (id_de(professor_id@) is Ok && id_de(turma_id@) is Ok && data_de(data@) is Ok) ==> r is Ok,
        id_de(professor_id@) matches Err(e) ==> (r matches Err(m) && m@ == e),
        (id_de(professor_id@) is Ok && id_de(turma_id@) is Err) ==> (r is Err && r->Err_0@ == (id_de(turma_id@))->Err_0),
        (id_de(professor_id@) is Ok && id_de(turma_id@) is Ok && data_de(data@) is Err) ==> (r is Err && r->Err_0@ == (data_de(data@))->Err_0),
{
    let p = match analisar_id(professor_id) {
        Ok(v) => v,
        Err(e) => {
            return Err(e);
        },
    };
    let t = match analisar_id(turma_id) {
        Ok(v) => v,
        Err(e) => {
            return Err(e);
        },
    };
    let d = match analisar_data(data) {
        Ok(v) => v,
        Err(e) => {
            return Err(e);
        },
    };
    Ok(ConsultaChamada { professor_id: p, turma_id: t, data: d })
}

/// Uma chamada a gravar.
#[derive(Clone, Copy, Debug, PartialEq, Eq)]
pub struct NovaChamada {
    pub professor_id: u128,
    pub turma_id: u128,
    pub cronograma_id: Option<u128>,
    pub data_aula: Data,
    pub horario_inicio: Horario,
    pub horario_fim: Horario,
}

/// A leitura de uma chamada a gravar, na ordem: professor, turma,
/// cronograma, data, início, fim.
pub open spec fn nova_chamada_de(
    professor_id: Seq<char>,
    turma_id: Seq<char>,
    cronograma_id: Option<Seq<char>>,
    data_aula: Seq<char>,
    horario_inicio: Seq<char>,
    horario_fim: Seq<char>,
) -> Result<NovaChamada, Seq<char>> {
    match id_de(professor_id) {
        Err(e) => Err(e),
        Ok(p) => match id_de(turma_id) {
            Err(e) => Err(e),
            Ok(t) => match id_opcional_de(cronograma_id) {
                Err(e) => Err(e),
                Ok(c) => match data_de(data_aula) {
                    Err(e) => Err(e),
                    Ok(d) => match horario_de(horario_inicio) {
                        Err(e) => Err(e),
                        Ok(i) => match horario_de(horario_fim) {
                            Err(e) => Err(e),
                            Ok(f) => Ok(
                                NovaChamada {
                                    professor_id: p,
                                    turma_id: t,
                                    cronograma_id: c,
                                    data_aula: d,
                                    horario_inicio: i,
                                    horario_fim: f,
                                },
                            ),
                        },
                    },
                },
            },
        },
    }
}

/// Prepara a gravação de uma chamada. Os alunos das presenças são lidos um
/// a um durante a gravação, com `analisar_id`.
pub fn preparar_nova_chamada(
    professor_id: &str,
    turma_id: &str,
    cronograma_id: &Option<String>,
    data_aula: &str,
    horario_inicio: &str,
    horario_fim: &str,
) -> (r: Result<NovaChamada, String>)
    ensures
        visao(r) == nova_chamada_de(
            professor_id@,
            turma_id@,
            texto_opcional(*cronograma_id),
            data_aula@,
            horario_inicio@,
            horario_fim@,
        ),
        r matches Ok(n) ==> id_de(professor_id@) == Ok::<u128, Seq<char>>(n.professor_id) && id_de(
            turma_id@,
        ) == Ok::<u128, Seq<char>>(n.turma_id) && id_opcional_de(texto_opcional(*cronograma_id))
            == Ok::<Option<u128>, Seq<char>>(n.cronograma_id) && data_de(data_aula@) == Ok::<
            Data,
            Seq<char>,
        >(n.data_aula) && horario_de(horario_inicio@) == Ok::<Horario, Seq<char>>(n.horario_inicio)
            && horario_de(horario_fim@) == Ok::<Horario, Seq<char>>(n.horario_fim),
        (id_de(professor_id@) is Ok && id_de(turma_id@) is Ok && id_opcional_de(
            texto_opcional(*cronograma_id),
        ) is Ok && data_de(data_aula@) is Ok && horario_de(horario_inicio@) is Ok && horario_de(
            horario_fim@,
        ) is Ok) ==> r is Ok,
        id_de(professor_id@) matches Err(e) ==> (r matches Err(m) && m@ == e),
        (id_de(professor_id@) is Ok && id_de(turma_id@) is Err) ==> (r is Err && r->Err_0@ == (id_de(turma_id@))->Err_0),
        (id_de(professor_id@) is Ok && id_de(turma_id@) is Ok && id_opcional_de(
            texto_opcional(*cronograma_id),
        ) is Err) ==> (r is Err && r->Err_0@ == (id_opcional_de(
            texto_opcional(*cronograma_id),
        ))->Err_0),
        (id_de(professor_id@) is Ok && id_de(turma_id@) is Ok && id_opcional_de(
            texto_opcional(*cronograma_id),
        ) is Ok && data_de(data_aula@) is Err) ==> (r is Err && r->Err_0@ == (data_de(data_aula@))->Err_0),
        (id_de(professor_id@) is Ok && id_de(turma_id@) is Ok && id_opcional_de(
            texto_opcional(*cronograma_id),
        ) is Ok && data_de(data_aula@) is Ok && horario_de(horario_inicio@) is Err) ==> (r is Err && r->Err_0@ == (horario_de(horario_inicio@))->Err_0),
        (id_de(professor_id@) is Ok && id_de(turma_id@) is Ok && id_opcional_de(
            texto_opcional(*cronograma_id),
        ) is Ok && data_de(data_aula@) is Ok && horario_de(horario_inicio@) is Ok && horario_de(
            horario_fim@,
        ) is Err) ==> (r is Err && r->Err_0@ == (horario_de(
            horario_fim@,
        ))->Err_0),
{
    let p = match analisar_id(professor_id) {
        Ok(v) => v,
        Err(e) => {
            return Err(e);
        },
    };
    let t = match analisar_id(turma_id) {
        Ok(v) => v,
        Err(e) => {
            return Err(e);
        },
    };
    let c = match analisar_id_opcional(cronograma_id) {
        Ok(v) => v,
        Err(e) => {
            return Err(e);
        },
    };
    let d = match analisar_data(data_aula) {
        Ok(v) => v,
        Err(e) => {
            return Err(e);
        },
    };
    let i = match analisar_horario(horario_inicio) {
        Ok(v) => v,
        Err(e) => {
            return Err(e);
        },
    };
    let f = match analisar_horario(horario_fim) {
        Ok(v) => v,
        Err(e) => {
            return Err(e);
        },
    };
    Ok(
        NovaChamada {
            professor_id: p,
            turma_id: t,
            cronograma_id: c,
            data_aula: d,
            horario_inicio: i,
            horario_fim: f,
        },
    )
}

/// As presenças já gravadas (as que têm `id`), na ordem dada, como pares
/// (identificador, presente).
pub open spec fn registradas(s: Seq<ChamadaPresenca>) -> Seq<(Seq<char>, bool)>
    decreases s.len(),
{
    if s.len() == 0 {
        Seq::empty()
    } else {
        let resto = registradas(s.drop_last());
        match s.last().id {
            Some(id) => resto.push((id@, s.last().presente)),
            None => resto,
        }
    }
}

/// A visão de uma lista de pares (texto, booleano).
pub open spec fn visao_marcas(v: Seq<(String, bool)>) -> Seq<(Seq<char>, bool)> {
    v.map_values(|p: (String, bool)| (p.0@, p.1))
}

/// Das presenças, as que já foram gravadas, na ordem dada: só essas são
/// atualizadas; as demais são ignoradas.
pub fn presencas_registradas(presencas: &Vec<ChamadaPresenca>) -> (r: Vec<(String, bool)>)
    ensures
        visao_marcas(r@) == registradas(presencas@),
{
    let mut r: Vec<(String, bool)> = Vec::new();
    let mut i: usize = 0;
    while i < presencas.len()
        invariant
            i <= presencas@.len(),
            visao_marcas(r@) == registradas(presencas@.take(i as int)),
        decreases presencas@.len() - i,
    {
        let p = &presencas[i];
        proof {
            assert(presencas@.take(i + 1).drop_last() =~= presencas@.take(i as int));
            assert(presencas@.take(i + 1).last() == presencas@[i as int]);
        }
        match &p.id {
            Some(id) => {
                r.push((id.clone(), p.presente));
                assert(visao_marcas(r@) =~= registradas(presencas@.take(i + 1)));
            },
            None => {
                assert(visao_marcas(r@) =~= registradas(presencas@.take(i + 1)));
            },
        }
        i = i + 1;
    }
    assert(presencas@.take(presencas@.len() as int) =~= presencas@);
    r
}

/// Um número ausente conta como zero; um presente é mantido.
pub proof fn lei_ou_zero(v: i64)
    ensures
        ou_zero(None) == 0,
        ou_zero(Some(v)) == v,
{
}

/// A consulta de chamada lida tem o professor lido do texto do professor,
/// a turma lida do texto da turma e a data lida do texto da data; ela só
/// falha quando uma dessas leituras falha, com o erro da primeira que falha
/// (professor, turma, data).
pub proof fn lei_consulta_chamada(professor_id: Seq<char>, turma_id: Seq<char>, data: Seq<char>)
    ensures
        consulta_chamada_de(professor_id, turma_id, data) matches Ok(c) ==> id_de(professor_id)
            == Ok::<u128, Seq<char>>(c.professor_id) && id_de(turma_id) == Ok::<u128, Seq<char>>(
            c.turma_id,
        ) && data_de(data) == Ok::<Data, Seq<char>>(c.data),
        (id_de(professor_id) is Ok && id_de(turma_id) is Ok && data_de(data) is Ok)
            ==> consulta_chamada_de(professor_id, turma_id, data) is Ok,
        id_de(professor_id) matches Err(e) ==> consulta_chamada_de(professor_id, turma_id, data)
            == Err::<ConsultaChamada, Seq<char>>(e),
        (id_de(professor_id) is Ok && id_de(turma_id) is Err) ==> consulta_chamada_de(
            professor_id,
            turma_id,
            data,
        ) == Err::<ConsultaChamada, Seq<char>>((id_de(turma_id))->Err_0),
        (id_de(professor_id) is Ok && id_de(turma_id) is Ok && data_de(data) is Err) ==> consulta_chamada_de(professor_id, turma_id, data) == Err::<ConsultaChamada, Seq<char>>((data_de(data))->Err_0),
{
}

/// A chamada nova lida tem cada campo lido do seu próprio texto: o
/// professor do texto do professor, a turma do texto da turma, o
/// cronograma, a data, o início e o fim dos seus textos; ela só falha
/// quando uma dessas leituras falha, com o erro da primeira que falha.
pub proof fn lei_nova_chamada(
    professor_id: Seq<char>,
    turma_id: Seq<char>,
    cronograma_id: Option<Seq<char>>,
    data_aula: Seq<char>,
    horario_inicio: Seq<char>,
    horario_fim: Seq<char>,
)
    ensures
        nova_chamada_de(professor_id, turma_id, cronograma_id, data_aula, horario_inicio, horario_fim)
            matches Ok(n) ==> id_de(professor_id) == Ok::<u128, Seq<char>>(n.professor_id) && id_de(
            turma_id,
        ) == Ok::<u128, Seq<char>>(n.turma_id) && id_opcional_de(cronograma_id) == Ok::<
            Option<u128>,
            Seq<char>,
        >(n.cronograma_id) && data_de(data_aula) == Ok::<Data, Seq<char>>(n.data_aula)
            && horario_de(horario_inicio) == Ok::<Horario, Seq<char>>(n.horario_inicio) && horario_de(
            horario_fim,
        ) == Ok::<Horario, Seq<char>>(n.horario_fim),
        (id_de(professor_id) is Ok && id_de(turma_id) is Ok && id_opcional_de(cronograma_id) is Ok
            && data_de(data_aula) is Ok && horario_de(horario_inicio) is Ok && horario_de(
            horario_fim,
        ) is Ok) ==> nova_chamada_de(
            professor_id,
            turma_id,
            cronograma_id,
            data_aula,
            horario_inicio,
            horario_fim,
        ) is Ok,
        nova_chamada_de(professor_id, turma_id, cronograma_id, data_aula, horario_inicio, horario_fim)
            matches Err(e) ==> (id_de(professor_id) == Err::<u128, Seq<char>>(e) || id_de(
            turma_id,
        ) == Err::<u128, Seq<char>>(e) || id_opcional_de(cronograma_id) == Err::<
            Option<u128>,
            Seq<char>,
        >(e) || data_de(data_aula) == Err::<Data, Seq<char>>(e) || horario_de(horario_inicio)
            == Err::<Horario, Seq<char>>(e) || horario_de(horario_fim) == Err::<Horario, Seq<char>>(
            e,
        )),
{
}

/// As presenças gravadas de duas listas seguidas são as da primeira
/// seguidas das da segunda.
pub proof fn lei_registradas_concatenacao(s: Seq<ChamadaPresenca>, t: Seq<ChamadaPresenca>)
    ensures
        registradas(s + t) == registradas(s) + registradas(t),
    decreases t.len(),
{
    if t.len() == 0 {
        assert(s + t =~= s);
        assert(registradas(s) + registradas(t) =~= registradas(s));
    } else {
        lei_registradas_concatenacao(s, t.drop_last());
        assert((s + t).drop_last() =~= s + t.drop_last());
        assert((s + t).last() == t.last());
        match t.last().id {
            Some(id) => {
                assert(registradas(s) + registradas(t) =~= (registradas(s) + registradas(
                    t.drop_last(),
                )).push((id@, t.last().presente)));
            },
            None => {},
        }
    }
}

/// Uma presença com `id` dá o par (id, presente); uma sem `id` não dá nada.
pub proof fn lei_registradas_uma(p: ChamadaPresenca)
    ensures
        p.id matches Some(id) ==> registradas(seq![p]) == seq![(id@, p.presente)],
        p.id is None ==> registradas(seq![p]) == Seq::<(Seq<char>, bool)>::empty(),
{
    assert(seq![p].drop_last() =~= Seq::<ChamadaPresenca>::empty());
    assert(seq![p].last() == p);
    assert(registradas(Seq::<ChamadaPresenca>::empty()) == Seq::<(Seq<char>, bool)>::empty());
    assert(registradas(seq![p]) == match p.id {
        Some(id) => registradas(seq![p].drop_last()).push((id@, p.presente)),
        None => registradas(seq![p].drop_last()),
    });
    match p.id {
        Some(id) => {
            assert(Seq::<(Seq<char>, bool)>::empty().push((id@, p.presente)) =~= seq![(id@, p.presente)]);
        },
        None => {},
    }
}

} // verus!
