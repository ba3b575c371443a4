//! Professores e alunos: a listagem, o cadastro (que cria antes o usuário
//! no Supabase Auth e o desfaz se o perfil não puder ser gravado), a
//! atualização e a exclusão.

use vstd::prelude::*;
use vstd::string::*;
use crate::entradas::{analisar_id, analisar_id_opcional, id_de, id_opcional_de, texto_opcional};
use crate::externos::{uuid_lido, visao};
use crate::texto::{aparado, aparar, ou_vazio, tamanho_em_bytes, texto_ou_vazio};

verus! {

/// Um professor cadastrado.
#[derive(Clone, Debug)]
pub struct Professor {
    pub id: String,
    pub nome: String,
    pub email: String,
    pub senha: String,
}

/// Um aluno cadastrado, com a turma e a escola a que pertence.
#[derive(Clone, Debug)]
pub struct Aluno {
    pub id: String,
    pub nome: String,
    pub email: String,
    pub senha: String,
    pub turma_id: String,
    pub turma_nome: String,
    pub escola_nome: String,
}

/// Uma linha da consulta de professores; os campos que o banco pode deixar
/// nulos são opcionais.
#[derive(Clone, Debug)]
pub struct LinhaProfessor {
    pub id: Option<String>,
    pub nome: String,
    pub email: Option<String>,
    pub senha: Option<String>,
}

/// Uma linha da consulta de alunos.
#[derive(Clone, Debug)]
pub struct LinhaAluno {
    pub id: Option<String>,
    pub nome: String,
    pub email: Option<String>,
    pub senha: Option<String>,
    pub turma_id: Option<String>,
    pub turma_nome: Option<String>,
    pub escola_nome: Option<String>,
}

impl Professor {
    /// O professor de uma linha da consulta; campos nulos viram texto vazio.
    pub fn de_linha(l: LinhaProfessor) -> (r: Professor)
        ensures
            r.id@ == ou_vazio(l.id),
            r.nome@ == l.nome@,
            r.email@ == ou_vazio(l.email),
            r.senha@ == ou_vazio(l.senha),
    {
        Professor {
            id: texto_ou_vazio(l.id),
            nome: l.nome,
            email: texto_ou_vazio(l.email),
            senha: texto_ou_vazio(l.senha),
        }
    }
}

impl Aluno {
    /// O aluno de uma linha da consulta; campos nulos viram texto vazio.
    pub fn de_linha(l: LinhaAluno) -> (r: Aluno)
        ensures
            r.id@ == ou_vazio(l.id),
            r.nome@ == l.nome@,
            r.email@ == ou_vazio(l.email),
            r.senha@ == ou_vazio(l.senha),
            r.turma_id@ == ou_vazio(l.turma_id),
            r.turma_nome@ == ou_vazio(l.turma_nome),
            r.escola_nome@ == ou_vazio(l.escola_nome),
    {
        Aluno {
            id: texto_ou_vazio(l.id),
            nome: l.nome,
            email: texto_ou_vazio(l.email),
            senha: texto_ou_vazio(l.senha),
            turma_id: texto_ou_vazio(l.turma_id),
            turma_nome: texto_ou_vazio(l.turma_nome),
            escola_nome: texto_ou_vazio(l.escola_nome),
        }
    }
}

/// Que alunos listar.
#[derive(Clone, Copy, Debug, PartialEq, Eq)]
pub enum FiltroAlunos {
    /// Os alunos da turma.
    PorTurma(u128),
    /// Os alunos das turmas do professor.
    PorProfessor(u128),
    /// Todos os alunos.
    Todos,
}

/// O filtro da listagem de alunos: a turma, quando dada, prevalece sobre o
/// professor.
pub open spec fn filtro_alunos_de(professor_id: Option<Seq<char>>, turma_id: Option<Seq<char>>) -> Result<
    FiltroAlunos,
    Seq<char>,
> {
    match turma_id {
        Some(t) => match id_de(t) {
            Ok(v) => Ok(FiltroAlunos::PorTurma(v)),
            Err(e) => Err(e),
        },
        None => match professor_id {
            Some(p) => match id_de(p) {
                Ok(v) => Ok(FiltroAlunos::PorProfessor(v)),
                Err(e) => Err(e),
            },
            None => Ok(FiltroAlunos::Todos),
        },
    }
}

/// Decide que alunos listar: os da turma, se dada; senão os das turmas do
/// professor, se dado; senão todos.
pub fn filtro_alunos(professor_id: &Option<String>, turma_id: &Option<String>) -> (r: Result<
    FiltroAlunos,
    String,
>)
    ensures
        visao(r) == filtro_alunos_de(texto_opcional(*professor_id), texto_opcional(*turma_id)),
        turma_id matches Some(t) ==> (id_de(t@) matches Ok(v) ==> r == Ok::<FiltroAlunos, String>(
            FiltroAlunos::PorTurma(v),
        )),
        turma_id matches Some(t) ==> (id_de(t@) matches Err(e) ==> (r matches Err(m) && m@ == e)),
        turma_id is None ==> (professor_id matches Some(p) ==> (id_de(p@) matches Ok(v) ==> r
            == Ok::<FiltroAlunos, String>(FiltroAlunos::PorProfessor(v)))),
        turma_id is None ==> (professor_id matches Some(p) ==> (id_de(p@) matches Err(e) ==> (
        r matches Err(m) && m@ == e))),
        (turma_id is None && professor_id is None) ==> r == Ok::<FiltroAlunos, String>(
            FiltroAlunos::Todos,
        ),
{
    match turma_id {
        Some(t) => match analisar_id(t.as_str()) {
            Ok(v) => Ok(FiltroAlunos::PorTurma(v)),
            Err(e) => Err(e),
        },
        None => match professor_id {
            Some(p) => match analisar_id(p.as_str()) {
                Ok(v) => Ok(FiltroAlunos::PorProfessor(v)),
                Err(e) => Err(e),
            },
            None => Ok(FiltroAlunos::Todos),
        },
    }
}

/// A mensagem dada quando a senha é curta demais.
pub open spec fn msg_senha_curta() -> Seq<char> {
    "Senha mínima de 6 caracteres."@
}

/// Uma senha é aceita quando tem ao menos 6 bytes.
pub open spec fn senha_aceita(senha: Seq<char>) -> bool {
    tamanho_em_bytes(senha) >= 6
}

/// Os dados de um cadastro de professor (`turma_id` ausente) ou de aluno
/// (`turma_id` presente), como chegam da interface.
#[derive(Clone, Debug)]
pub struct Cadastro {
    pub nome: String,
    pub email: String,
    pub senha: String,
    pub turma_id: Option<String>,
}

/// O perfil a gravar no banco, com o identificador do usuário criado no
/// Supabase Auth.
#[derive(Clone, Debug)]
pub struct NovoPerfil {
    /// O identificador devolvido pelo Supabase Auth, como texto.
    pub auth_id: String,
    pub id: u128,
    pub nome: String,
    pub email: String,
    pub senha: String,
    /// A turma do aluno; ausente para professores.
    pub turma_id: Option<u128>,
}

/// O próximo passo de um cadastro.
pub enum AcaoCadastro {
    /// Criar o usuário no Supabase Auth com este e-mail e esta senha.
    CriarUsuario { email: String, senha: String },
    /// Gravar o perfil no banco.
    InserirPerfil(NovoPerfil),
    /// Excluir do Supabase Auth o usuário `id` (o resultado da exclusão não
    /// importa) e terminar com o erro `erro`.
    ExcluirUsuario { id: String, erro: String },
    /// O cadastro terminou com este resultado.
    Concluir(Result<(), String>),
}

impl Cadastro {
    /// O primeiro passo: uma senha com menos de 6 bytes é recusada antes de
    /// qualquer chamada; senão cria-se o usuário no Supabase Auth com o
    /// e-mail e a senha como vieram.
    pub fn iniciar(&self) -> (r: AcaoCadastro)
        ensures
            !senha_aceita(self.senha@) ==> (r matches AcaoCadastro::Concluir(Err(m)) && m@
                == msg_senha_curta()),
            tamanho_em_bytes(self.senha@) < 6 ==> (r matches AcaoCadastro::Concluir(Err(m))
                && m@ == "Senha mínima de 6 caracteres."@),
            tamanho_em_bytes(self.senha@) >= 6 ==> r is CriarUsuario,
            senha_aceita(self.senha@) ==> (r matches AcaoCadastro::CriarUsuario { email, senha }
                && email@ == self.email@ && senha@ == self.senha@),
    {
        let bytes = self.senha.as_str().as_bytes();
        let tamanho = bytes.len();
        if tamanho < 6 {
            AcaoCadastro::Concluir(Err("Senha mínima de 6 caracteres.".to_owned()))
        } else {
            AcaoCadastro::CriarUsuario { email: self.email.clone(), senha: self.senha.clone() }
        }
    }

    /// O passo seguinte à criação do usuário no Supabase Auth: um erro ali
    /// encerra o cadastro; senão lê-se o identificador devolvido e depois a
    /// turma, e grava-se o perfil com nome e e-mail aparados.
    pub fn apos_criar_usuario(&self, resposta: Result<String, String>) -> (r: AcaoCadastro)
        ensures
            resposta matches Err(e) ==> (r matches AcaoCadastro::Concluir(Err(m)) && m@ == e@),
            resposta matches Ok(a) ==> match id_de(a@) {
                Err(e) => r matches AcaoCadastro::Concluir(Err(m)) && m@ == e,
                Ok(v) => match id_opcional_de(texto_opcional(self.turma_id)) {
                    Err(e) => r matches AcaoCadastro::Concluir(Err(m)) && m@ == e,
                    Ok(t) => r matches AcaoCadastro::InserirPerfil(p) && p.auth_id@ == a@ && p.id
                        == v && p.nome@ == aparado(self.nome@) && p.email@ == aparado(self.email@)
                        && p.senha@ == self.senha@ && p.turma_id == t,
                },
            },
    {
        match resposta {
            Err(e) => AcaoCadastro::Concluir(Err(e)),
            Ok(auth_id) => match analisar_id(auth_id.as_str()) {
                Err(e) => AcaoCadastro::Concluir(Err(e)),
                Ok(id) => match analisar_id_opcional(&self.turma_id) {
                    Err(e) => AcaoCadastro::Concluir(Err(e)),
                    Ok(turma) => AcaoCadastro::InserirPerfil(
                        NovoPerfil {
                            auth_id,
                            id,
                            nome: aparar(self.nome.as_str()),
                            email: aparar(self.email.as_str()),
                            senha: self.senha.clone(),
                            turma_id: turma,
                        },
                    ),
                },
            },
        }
    }
}

/// O passo seguinte à gravação do perfil: se o banco recusou, o usuário
/// criado no Supabase Auth é excluído e o cadastro termina com o erro do
/// banco.
pub fn apos_inserir_perfil(perfil: &NovoPerfil, resultado: Result<(), String>) -> (r: AcaoCadastro)
    ensures
        resultado is Ok ==> (r matches AcaoCadastro::Concluir(Ok(_))),
        resultado matches Err(e) ==> (r matches AcaoCadastro::ExcluirUsuario { id, erro } && id@
            == perfil.auth_id@ && erro@ == e@),
{
    match resultado {
        Ok(()) => AcaoCadastro::Concluir(Ok(())),
        Err(e) => AcaoCadastro::ExcluirUsuario { id: perfil.auth_id.clone(), erro: e },
    }
}

/// Os dados de uma atualização de professor (`turma_id` ausente) ou de
/// aluno (`turma_id` presente), como chegam da interface.
#[derive(Clone, Debug)]
pub struct Atualizacao {
    pub id: String,
    pub nome: String,
    pub email: String,
    pub senha: String,
    pub turma_id: Option<String>,
}

/// O que o Supabase Auth recebe numa atualização: o usuário, o novo e-mail
/// e a nova senha.
#[derive(Clone, Debug)]
pub struct DadosAuth {
    pub user_id: String,
    pub email: String,
    pub senha: String,
}

/// O perfil atualizado a gravar no banco.
#[derive(Clone, Debug)]
pub struct PerfilAtualizado {
    pub id: u128,
    pub nome: String,
    pub email: String,
    pub senha: String,
    pub turma_id: Option<u128>,
}

impl Atualizacao {
    /// O que enviar ao Supabase Auth, antes de tudo: o identificador como
    /// veio, o e-mail aparado e a senha.
    pub fn dados_auth(&self) -> (r: DadosAuth)
        ensures
            r.user_id@ == self.id@,
            r.email@ == aparado(self.email@),
            r.senha@ == self.senha@,
    {
        DadosAuth {
            user_id: self.id.clone(),
            email: aparar(self.email.as_str()),
            senha: self.senha.clone(),
        }
    }

    /// Depois do Supabase Auth, o perfil a gravar: lê-se a turma (se houver)
    /// e depois o identificador; nome e e-mail vão aparados.
    pub fn apos_auth(&self) -> (r: Result<PerfilAtualizado, String>)
        ensures
            match id_opcional_de(texto_opcional(self.turma_id)) {
                Err(e) => r matches Err(m) && m@ == e,
                Ok(t) => match id_de(self.id@) {
                    Err(e) => r matches Err(m) && m@ == e,
                    Ok(v) => r matches Ok(p) && p.id == v && p.turma_id == t && p.nome@ == aparado(
                        self.nome@,
                    ) && p.email@ == aparado(self.email@) && p.senha@ == self.senha@,
                },
            },
    {
        let turma = match analisar_id_opcional(&self.turma_id) {
            Ok(t) => t,
            Err(e) => {
                return Err(e);
            },
        };
        let id = match analisar_id(self.id.as_str()) {
            Ok(v) => v,
            Err(e) => {
                return Err(e);
            },
        };
        Ok(
            PerfilAtualizado {
                id,
                nome: aparar(self.nome.as_str()),
                email: aparar(self.email.as_str()),
                senha: self.senha.clone(),
                turma_id: turma,
            },
        )
    }
}

/// O filtro dos alunos: uma turma dada prevalece e é lida do seu texto;
/// sem turma, o professor dado é lido do seu texto; sem nenhum dos dois,
/// todos os alunos. Falha só quando o texto escolhido não se lê, com o erro
/// dessa leitura.
pub proof fn lei_filtro_alunos(professor_id: Option<Seq<char>>, turma_id: Option<Seq<char>>)
    ensures
        turma_id matches Some(t) ==> (uuid_lido(t) matches Ok(v) ==> filtro_alunos_de(
            professor_id,
            turma_id,
        ) == Ok::<FiltroAlunos, Seq<char>>(FiltroAlunos::PorTurma(v))),
        turma_id matches Some(t) ==> (uuid_lido(t) matches Err(e) ==> filtro_alunos_de(
            professor_id,
            turma_id,
        ) == Err::<FiltroAlunos, Seq<char>>(e)),
        turma_id is None ==> (professor_id matches Some(p) ==> (uuid_lido(p) matches Ok(v)
            ==> filtro_alunos_de(professor_id, turma_id) == Ok::<FiltroAlunos, Seq<char>>(
            FiltroAlunos::PorProfessor(v),
        ))),
        turma_id is None ==> (professor_id matches Some(p) ==> (uuid_lido(p) matches Err(e)
            ==> filtro_alunos_de(professor_id, turma_id) == Err::<FiltroAlunos, Seq<char>>(e))),
        (turma_id is None && professor_id is None) ==> filtro_alunos_de(professor_id, turma_id)
            == Ok::<FiltroAlunos, Seq<char>>(FiltroAlunos::Todos),
{
}

/// Uma senha é aceita exatamente quando seu UTF-8 tem ao menos seis bytes;
/// a recusa diz `Senha mínima de 6 caracteres.`.
pub proof fn lei_senha(senha: Seq<char>)
    ensures
        senha_aceita(senha) <==> vstd::utf8::encode_utf8(senha).len() >= 6,
        msg_senha_curta() == "Senha mínima de 6 caracteres."@,
{
}

} // verus!
