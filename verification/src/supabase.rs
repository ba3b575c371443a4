//! Regras das chamadas à API administrativa do Supabase Auth: endereços,
//! cabeçalho de autorização, corpo das atualizações e a interpretação das
//! respostas. O envio HTTP fica a cargo de quem usa estas funções.

use vstd::prelude::*;
use vstd::string::*;

verus! {

/// Os campos de texto lidos do corpo JSON de uma resposta do Supabase Auth;
/// cada um é `None` quando falta ou não é um texto.
#[derive(Clone, Debug)]
pub struct CorpoResposta {
    pub id: Option<String>,
    pub msg: Option<String>,
    pub message: Option<String>,
}

/// Status HTTP de sucesso: de 200 a 299.
pub open spec fn status_sucesso(codigo: u16) -> bool {
    200 <= codigo <= 299
}

/// Caminho da coleção de usuários na API administrativa.
pub open spec fn caminho_usuarios() -> Seq<char> {
    "/auth/v1/admin/users"@
}

/// A mensagem dada quando a resposta de sucesso não traz o campo `id`.
pub open spec fn msg_sem_id() -> Seq<char> {
    "Resposta do Supabase sem campo 'id'"@
}

/// A mensagem dada quando a resposta de erro não traz mensagem.
pub open spec fn msg_erro_desconhecido() -> Seq<char> {
    "Erro desconhecido do Supabase Auth"@
}

/// Diz se o status HTTP é de sucesso.
pub fn e_sucesso(codigo: u16) -> (r: bool)
    ensures
        r == status_sucesso(codigo),
{
    200 <= codigo && codigo <= 299
}

/// O valor do cabeçalho `Authorization`: `Bearer CHAVE`.
pub fn cabecalho_autorizacao(chave: &str) -> (r: String)
    ensures
        r@ == "Bearer "@ + chave@,
{
    let mut r = "Bearer ".to_owned();
    r.append(chave);
    r
}

/// Endereço da coleção de usuários: `BASE/auth/v1/admin/users`.
pub fn url_usuarios(base: &str) -> (r: String)
    ensures
        r@ == base@ + caminho_usuarios(),
{
    let mut r = base.to_owned();
    r.append("/auth/v1/admin/users");
    r
}

/// Endereço de um usuário: `BASE/auth/v1/admin/users/ID`.
pub fn url_usuario(base: &str, user_id: &str) -> (r: String)
    ensures
        r@ == (base@ + caminho_usuarios()) + ("/"@ + user_id@),
{
    let mut r = base.to_owned();
    r.append("/auth/v1/admin/users");
    r.append("/");
    r.append(user_id);
    r
}

/// A mensagem dada quando a requisição não chega a ter resposta.
pub fn mensagem_erro_rede(detalhe: &str) -> (r: String)
    ensures
        r@ == "Erro de rede: "@ + detalhe@,
{
    let mut r = "Erro de rede: ".to_owned();
    r.append(detalhe);
    r
}

/// O que a criação de um usuário devolve, dado o status da resposta e o seu
/// corpo (ou o erro ao lê-lo como JSON).
pub open spec fn desfecho_criacao(codigo: u16, corpo: Result<CorpoResposta, String>) -> Result<
    Seq<char>,
    Seq<char>,
> {
    if status_sucesso(codigo) {
        match corpo {
            Err(e) => Err(e@),
            Ok(c) => match c.id {
                Some(id) => Ok(id@),
                None => Err(msg_sem_id()),
            },
        }
    } else {
        match corpo {
            Err(_) => Err(msg_erro_desconhecido()),
            Ok(c) => match (c.msg, c.message) {
                (Some(m), _) => Err(m@),
                (None, Some(m)) => Err(m@),
                (None, None) => Err(msg_erro_desconhecido()),
            },
        }
    }
}

/// A visão de um resultado de texto em texto.
pub open spec fn visao_textos(r: Result<String, String>) -> Result<Seq<char>, Seq<char>> {
    match r {
        Ok(v) => Ok(v@),
        Err(e) => Err(e@),
    }
}

/// Interpreta a resposta da criação de um usuário: em sucesso, o `id` do
/// usuário criado; em erro, a mensagem `msg` ou `message` do corpo, ou uma
/// mensagem padrão.
pub fn resultado_criacao(codigo: u16, corpo: Result<CorpoResposta, String>) -> (r: Result<
    String,
    String,
>)
    ensures
        visao_textos(r) == desfecho_criacao(codigo, corpo),
        r is Ok <==> (status_sucesso(codigo) && corpo is Ok && corpo->Ok_0.id is Some),
        status_sucesso(codigo) ==> (corpo matches Ok(c) ==> (c.id matches Some(id) ==> (
        r matches Ok(x) && x@ == id@))),
        status_sucesso(codigo) ==> (corpo matches Ok(c) ==> (c.id is None ==> (r matches Err(m)
            && m@ == "Resposta do Supabase sem campo 'id'"@))),
        status_sucesso(codigo) ==> (corpo matches Err(e) ==> (r matches Err(m) && m@ == e@)),
        !status_sucesso(codigo) ==> (corpo is Err ==> (r matches Err(m) && m@
            == "Erro desconhecido do Supabase Auth"@)),
        !status_sucesso(codigo) ==> (corpo matches Ok(c) ==> (c.msg matches Some(t) ==> (
        r matches Err(m) && m@ == t@))),
        !status_sucesso(codigo) ==> (corpo matches Ok(c) ==> (c.msg is None ==> (
        c.message matches Some(t) ==> (r matches Err(m) && m@ == t@)))),
        !status_sucesso(codigo) ==> (corpo matches Ok(c) ==> ((c.msg is None && c.message is None)
            ==> (r matches Err(m) && m@ == "Erro desconhecido do Supabase Auth"@))),
{
    if e_sucesso(codigo) {
        match corpo {
            Err(e) => Err(e),
            Ok(c) => match c.id {
                Some(id) => Ok(id),
                None => Err("Resposta do Supabase sem campo 'id'".to_owned()),
            },
        }
    } else {
        match corpo {
            Err(_) => Err("Erro desconhecido do Supabase Auth".to_owned()),
            Ok(c) => match c.msg {
                Some(m) => Err(m),
                None => match c.message {
                    Some(m) => Err(m),
                    None => Err("Erro desconhecido do Supabase Auth".to_owned()),
                },
            },
        }
    }
}

/// Os campos a enviar numa atualização de usuário, na ordem `email`,
/// `password`, só os presentes.
pub open spec fn campos_de(email: Option<Seq<char>>, senha: Option<Seq<char>>) -> Seq<
    (Seq<char>, Seq<char>),
> {
    let a: Seq<(Seq<char>, Seq<char>)> = match email {
        Some(e) => seq![("email"@, e)],
        None => Seq::empty(),
    };
    let b: Seq<(Seq<char>, Seq<char>)> = match senha {
        Some(s) => seq![("password"@, s)],
        None => Seq::empty(),
    };
    a + b
}

/// A visão de um texto emprestado opcional.
pub open spec fn opcional(t: Option<&str>) -> Option<Seq<char>> {
    match t {
        Some(s) => Some(s@),
        None => None,
    }
}

/// A visão de uma lista de pares de textos.
pub open spec fn visao_pares(v: Seq<(String, String)>) -> Seq<(Seq<char>, Seq<char>)> {
    v.map_values(|p: (String, String)| (p.0@, p.1@))
}

/// Os campos do corpo de uma atualização de usuário; `None` quando não há
/// nada a atualizar, caso em que nenhuma requisição deve ser feita.
pub fn campos_atualizacao(email: Option<&str>, password: Option<&str>) -> (r: Option<
    Vec<(String, String)>,
>)
    ensures
        r is None <==> (email is None && password is None),
        r matches Some(v) ==> visao_pares(v@) == campos_de(opcional(email), opcional(password)),
        email matches Some(e) ==> (password matches Some(p) ==> (r matches Some(v) && v@.len()
            == 2 && v@[0].0@ == "email"@ && v@[0].1@ == e@ && v@[1].0@ == "password"@ && v@[1].1@
            == p@)),
        email matches Some(e) ==> (password is None ==> (r matches Some(v) && v@.len() == 1
            && v@[0].0@ == "email"@ && v@[0].1@ == e@)),
        email is None ==> (password matches Some(p) ==> (r matches Some(v) && v@.len() == 1
            && v@[0].0@ == "password"@ && v@[0].1@ == p@)),
{
    let mut v: Vec<(String, String)> = Vec::new();
    if let Some(e) = email {
        v.push(("email".to_owned(), e.to_owned()));
    }
    if let Some(p) = password {
        v.push(("password".to_owned(), p.to_owned()));
    }
    proof {
        assert(visao_pares(v@) =~= campos_de(opcional(email), opcional(password)));
    }
    if v.len() == 0 {
        None
    } else {
        Some(v)
    }
}

/// Interpreta a resposta de uma atualização de usuário; `status` é o status
/// escrito como `CÓDIGO MOTIVO` (por exemplo `422 Unprocessable Entity`).
pub fn resultado_atualizacao(codigo: u16, status: &str) -> (r: Result<(), String>)
    ensures
        status_sucesso(codigo) ==> r is Ok,
        !status_sucesso(codigo) ==> (r matches Err(m) && m@ == "Supabase Auth retornou status "@
            + status@ + " ao atualizar usuário"@),
{
    if e_sucesso(codigo) {
        Ok(())
    } else {
        let mut m = "Supabase Auth retornou status ".to_owned();
        m.append(status);
        m.append(" ao atualizar usuário");
        Err(m)
    }
}

/// Interpreta a resposta da exclusão de um usuário: um usuário que já não
/// existe (404) conta como excluído.
pub fn resultado_exclusao(codigo: u16, status: &str) -> (r: Result<(), String>)
    ensures
        (status_sucesso(codigo) || codigo == 404) ==> r is Ok,
        !(status_sucesso(codigo) || codigo == 404) ==> (r matches Err(m) && m@
            == "Supabase Auth retornou status "@ + status@),
{
    if e_sucesso(codigo) || codigo == 404 {
        Ok(())
    } else {
        let mut m = "Supabase Auth retornou status ".to_owned();
        m.append(status);
        Err(m)
    }
}

/// A criação de um usuário só dá certo com status de sucesso e um corpo que
/// traz o `id`, e então dá esse `id`. Com status de sucesso, um corpo
/// ilegível dá o erro da leitura e um corpo sem `id` dá a mensagem de falta
/// do campo. Com status de erro, a mensagem é a do campo `msg`, senão a do
/// campo `message`, senão a mensagem padrão.
pub proof fn lei_desfecho_criacao(codigo: u16, corpo: Result<CorpoResposta, String>)
    ensures
        desfecho_criacao(codigo, corpo) is Ok <==> (status_sucesso(codigo) && corpo is Ok
            && corpo->Ok_0.id is Some),
        status_sucesso(codigo) ==> (corpo matches Ok(c) ==> (c.id matches Some(id)
            ==> desfecho_criacao(codigo, corpo) == Ok::<Seq<char>, Seq<char>>(id@))),
        status_sucesso(codigo) ==> (corpo matches Ok(c) ==> (c.id is None ==> desfecho_criacao(
            codigo,
            corpo,
        ) == Err::<Seq<char>, Seq<char>>("Resposta do Supabase sem campo 'id'"@))),
        status_sucesso(codigo) ==> (corpo matches Err(e) ==> desfecho_criacao(codigo, corpo)
            == Err::<Seq<char>, Seq<char>>(e@)),
        !status_sucesso(codigo) ==> (corpo is Err ==> desfecho_criacao(codigo, corpo) == Err::<
            Seq<char>,
            Seq<char>,
        >("Erro desconhecido do Supabase Auth"@)),
        !status_sucesso(codigo) ==> (corpo matches Ok(c) ==> (c.msg matches Some(t)
            ==> desfecho_criacao(codigo, corpo) == Err::<Seq<char>, Seq<char>>(t@))),
        !status_sucesso(codigo) ==> (corpo matches Ok(c) ==> (c.msg is None ==> (
        c.message matches Some(t) ==> desfecho_criacao(codigo, corpo) == Err::<
            Seq<char>,
            Seq<char>,
        >(t@)))),
        !status_sucesso(codigo) ==> (corpo matches Ok(c) ==> ((c.msg is None && c.message is None)
            ==> desfecho_criacao(codigo, corpo) == Err::<Seq<char>, Seq<char>>(
            "Erro desconhecido do Supabase Auth"@,
        ))),
{
}

/// O corpo de uma atualização de usuário leva o `email` quando dado, depois
/// o `password` quando dado, e nada mais.
pub proof fn lei_campos_de(email: Option<Seq<char>>, senha: Option<Seq<char>>)
    ensures
        campos_de(email, senha).len() == (if email is Some { 1int } else { 0int }) + (
        if senha is Some { 1int } else { 0int }),
        email matches Some(e) ==> campos_de(email, senha)[0] == ("email"@, e),
        senha matches Some(s) ==> campos_de(email, senha).last() == ("password"@, s),
        (email is None && senha is None) ==> campos_de(email, senha) =~= Seq::<
            (Seq<char>, Seq<char>),
        >::empty(),
{
}

/// O endereço de um usuário é o da coleção de usuários seguido de `/` e do
/// identificador.
pub proof fn lei_caminho_usuarios(base: Seq<char>, id: Seq<char>)
    ensures
        caminho_usuarios() == "/auth/v1/admin/users"@,
        (base + caminho_usuarios()).take(base.len() as int) == base,
{
    assert((base + caminho_usuarios()).take(base.len() as int) =~= base);
}

} // verus!
