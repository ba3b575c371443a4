//! Escolas: a listagem com o rótulo do tipo (pública ou privada).

use vstd::prelude::*;
use vstd::string::*;
use crate::texto::{ou_vazio, texto_ou_vazio, textos_iguais};

verus! {

/// Uma escola; `tipo` é `PUBLICA` ou `PRIVADA` e `tipo_label` o seu rótulo.
#[derive(Clone, Debug)]
pub struct Escola {
    pub id: String,
    pub nome: String,
    pub status: String,
    pub tipo: String,
    pub tipo_label: String,
}

/// Uma linha da consulta de escolas.
#[derive(Clone, Debug)]
pub struct LinhaEscola {
    pub id: Option<String>,
    pub nome: String,
    pub status: String,
    pub tipo: Option<String>,
}

/// O rótulo de um tipo de escola: `Privada` para `PRIVADA`, `Pública` para
/// qualquer outro valor.
pub open spec fn rotulo_tipo(tipo: Seq<char>) -> Seq<char> {
    if tipo == "PRIVADA"@ {
        "Privada"@
    } else {
        "Pública"@
    }
}

/// O rótulo exibido para o tipo de uma escola.
pub fn tipo_label(tipo: &str) -> (r: String)
    ensures
        r@ == rotulo_tipo(tipo@),
        tipo@ == "PRIVADA"@ ==> r@ == "Privada"@,
        tipo@ != "PRIVADA"@ ==> r@ == "Pública"@,
{
    if textos_iguais(tipo, "PRIVADA") {
        "Privada".to_owned()
    } else {
        "Pública".to_owned()
    }
}

impl Escola {
    /// A escola de uma linha da consulta, com o rótulo do seu tipo.
    pub fn de_linha(l: LinhaEscola) -> (r: Escola)
        ensures
            r.id@ == ou_vazio(l.id),
            r.nome@ == l.nome@,
            r.status@ == l.status@,
            r.tipo@ == ou_vazio(l.tipo),
            r.tipo_label@ == rotulo_tipo(ou_vazio(l.tipo)),
    {
        let tipo = texto_ou_vazio(l.tipo);
        let rotulo = tipo_label(tipo.as_str());
        Escola { id: texto_ou_vazio(l.id), nome: l.nome, status: l.status, tipo, tipo_label: rotulo }
    }
}

/// Só o tipo `PRIVADA` é rotulado `Privada`; qualquer outro texto, o vazio
/// inclusive, é rotulado `Pública`.
pub proof fn lei_rotulo_tipo(tipo: Seq<char>)
    ensures
        tipo == "PRIVADA"@ ==> rotulo_tipo(tipo) == "Privada"@,
        tipo != "PRIVADA"@ ==> rotulo_tipo(tipo) == "Pública"@,
        rotulo_tipo(tipo) == "Privada"@ || rotulo_tipo(tipo) == "Pública"@,
{
    reveal_strlit("Privada");
    reveal_strlit("Pública");
}

} // verus!
