//! Login: primeiro entre os administradores, depois entre os professores.

use vstd::prelude::*;
use vstd::string::*;

verus! {

/// O usuário que entrou no sistema; `role` é `ADMIN` ou `TEACHER`.
#[derive(Clone, Debug)]
pub struct UsuarioSessao {
    pub id: String,
    pub nome: String,
    pub role: String,
}

/// Uma linha encontrada por uma consulta de login: identificador (em texto)
/// e nome.
#[derive(Clone, Debug)]
pub struct LinhaLogin {
    pub id: String,
    pub nome: String,
}

/// O que fazer depois de consultar os administradores.
pub enum PassoLogin {
    /// Nenhum administrador com estas credenciais: consultar os professores.
    ConsultarProfessor,
    /// O login terminou com este resultado.
    Concluir(Result<UsuarioSessao, String>),
}

/// A sessão aberta para a linha encontrada, com o papel dado.
pub open spec fn sessao_de(l: LinhaLogin, papel: Seq<char>, s: UsuarioSessao) -> bool {
    &&& s.id@ == l.id@
    &&& s.nome@ == l.nome@
    &&& s.role@ == papel
}

/// A mensagem dada quando nenhum usuário tem as credenciais informadas.
pub open spec fn msg_credenciais_invalidas() -> Seq<char> {
    "Credenciais inválidas."@
}

/// Decide o login depois da consulta aos administradores: um administrador
/// encontrado entra como `ADMIN`, sem consultar os professores.
pub fn apos_consulta_admin(admin: Option<LinhaLogin>) -> (r: PassoLogin)
    ensures
        admin is None <==> r is ConsultarProfessor,
        admin matches Some(l) ==> (r matches PassoLogin::Concluir(Ok(s)) && sessao_de(
            l,
            "ADMIN"@,
            s,
        )),
{
    match admin {
        Some(l) => PassoLogin::Concluir(
            Ok(UsuarioSessao { id: l.id, nome: l.nome, role: "ADMIN".to_owned() }),
        ),
        None => PassoLogin::ConsultarProfessor,
    }
}

/// Decide o login depois da consulta aos professores: um professor
/// encontrado entra como `TEACHER`; senão as credenciais são inválidas.
pub fn apos_consulta_professor(professor: Option<LinhaLogin>) -> (r: Result<UsuarioSessao, String>)
    ensures
        professor matches Some(l) ==> (r matches Ok(s) && sessao_de(l, "TEACHER"@, s)),
        professor is None ==> (r matches Err(m) && m@ == msg_credenciais_invalidas()),
        professor is None ==> (r matches Err(m) && m@ == "Credenciais inválidas."@),
        professor matches Some(l) ==> (r matches Ok(s) && s.id@ == l.id@ && s.nome@ == l.nome@
            && s.role@ == "TEACHER"@),
{
    match professor {
        Some(l) => Ok(UsuarioSessao { id: l.id, nome: l.nome, role: "TEACHER".to_owned() }),
        None => Err("Credenciais inválidas.".to_owned()),
    }
}

/// A mensagem dada quando uma consulta de login falha no banco.
pub fn mensagem_erro_banco(detalhe: &str) -> (r: String)
    ensures
        r@ == "Erro DB: "@ + detalhe@,
{
    let mut r = "Erro DB: ".to_owned();
    r.append(detalhe);
    r
}

/// Quem não é administrador nem professor recebe `Credenciais inválidas.`.
pub proof fn lei_credenciais_invalidas()
    ensures
        msg_credenciais_invalidas() == "Credenciais inválidas."@,
{
}

} // verus!
