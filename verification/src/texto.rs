//! Operações sobre texto usadas pelas regras: aparar espaços, comparar,
//! concatenar e escrever números em decimal.

use vstd::prelude::*;
use vstd::string::*;

verus! {

/// Espaço em branco segundo a propriedade Unicode `White_Space`
/// (a mesma usada por `char::is_whitespace` e `str::trim`).
pub open spec fn eh_espaco_branco(c: char) -> bool {
    let v = c as u32;
    ||| 0x09 <= v <= 0x0D
    ||| v == 0x20
    ||| v == 0x85
    ||| v == 0xA0
    ||| v == 0x1680
    ||| 0x2000 <= v <= 0x200A
    ||| v == 0x2028
    ||| v == 0x2029
    ||| v == 0x202F
    ||| v == 0x205F
    ||| v == 0x3000
}

/// O texto sem os espaços em branco do início.
pub open spec fn sem_espacos_iniciais(s: Seq<char>) -> Seq<char>
    decreases s.len(),
{
    if s.len() > 0 && eh_espaco_branco(s[0]) {
        sem_espacos_iniciais(s.drop_first())
    } else {
        s
    }
}

/// O texto sem os espaços em branco do fim.
pub open spec fn sem_espacos_finais(s: Seq<char>) -> Seq<char>
    decreases s.len(),
{
    if s.len() > 0 && eh_espaco_branco(s.last()) {
        sem_espacos_finais(s.drop_last())
    } else {
        s
    }
}

/// O texto sem espaços em branco no início e no fim (o `trim` de Rust).
pub open spec fn aparado(s: Seq<char>) -> Seq<char> {
    sem_espacos_finais(sem_espacos_iniciais(s))
}

/// Número de bytes do texto codificado em UTF-8 (o `len` de Rust).
pub open spec fn tamanho_em_bytes(s: Seq<char>) -> nat {
    vstd::utf8::encode_utf8(s).len()
}

/// Diz se `c` é espaço em branco.
pub fn e_espaco_branco(c: char) -> (r: bool)
    ensures
        r == eh_espaco_branco(c),
{
    let v: u32 = c as u32;
    (0x09 <= v && v <= 0x0D) || v == 0x20 || v == 0x85 || v == 0xA0 || v == 0x1680 || (0x2000
        <= v && v <= 0x200A) || v == 0x2028 || v == 0x2029 || v == 0x202F || v == 0x205F || v
        == 0x3000
}

proof fn lema_iniciais_subrange(s: Seq<char>, i: int)
    requires
        0 <= i <= s.len(),
        forall|k: int| 0 <= k < i ==> eh_espaco_branco(#[trigger] s[k]),
    ensures
        sem_espacos_iniciais(s) == sem_espacos_iniciais(s.subrange(i, s.len() as int)),
    decreases i,
{
    if i > 0 {
        assert(s.drop_first() =~= s.subrange(1, s.len() as int));
        lema_iniciais_subrange(s.drop_first(), i - 1);
        assert(s.drop_first().subrange(i - 1, s.drop_first().len() as int) =~= s.subrange(
            i,
            s.len() as int,
        ));
    } else {
        assert(s =~= s.subrange(0, s.len() as int));
    }
}

proof fn lema_finais_subrange(s: Seq<char>, j: int)
    requires
        0 <= j <= s.len(),
        forall|k: int| j <= k < s.len() ==> eh_espaco_branco(#[trigger] s[k]),
    ensures
        sem_espacos_finais(s) == sem_espacos_finais(s.subrange(0, j)),
    decreases s.len() - j,
{
    if j < s.len() {
        assert(s.drop_last() =~= s.subrange(0, s.len() - 1));
        lema_finais_subrange(s.drop_last(), j);
        assert(s.drop_last().subrange(0, j) =~= s.subrange(0, j));
    } else {
        assert(s =~= s.subrange(0, j));
    }
}

/// O texto sem espaços em branco no início e no fim.
pub fn aparar(s: &str) -> (r: String)
    ensures
        r@ == aparado(s@),
{
    let n = s.unicode_len();
    let mut i: usize = 0;
    while i < n && e_espaco_branco(s.get_char(i))
        invariant
            n == s@.len(),
            i <= n,
            forall|k: int| 0 <= k < i ==> eh_espaco_branco(#[trigger] s@[k]),
        decreases n - i,
    {
        i = i + 1;
    }
    let mut j: usize = n;
    while j > i && e_espaco_branco(s.get_char(j - 1))
        invariant
            n == s@.len(),
            i <= j <= n,
            forall|k: int| j <= k < n ==> eh_espaco_branco(#[trigger] s@[k]),
        decreases j - i,
    {
        j = j - 1;
    }
    let parte = s.substring_char(i, j);
    proof {
        let t = s@.subrange(i as int, n as int);
        lema_iniciais_subrange(s@, i as int);
        assert(i < n ==> !eh_espaco_branco(t[0]));
        assert(sem_espacos_iniciais(t) == t);
        let u = t.subrange(0, j - i);
        assert forall|k: int| j - i <= k < t.len() implies eh_espaco_branco(#[trigger] t[k]) by {
            assert(t[k] == s@[k + i]);
        }
        lema_finais_subrange(t, j - i);
        assert(u =~= s@.subrange(i as int, j as int));
        assert(j > i ==> !eh_espaco_branco(u.last()));
        assert(sem_espacos_finais(u) == u);
    }
    parte.to_owned()
}

/// Compara dois textos caractere a caractere.
pub fn textos_iguais(a: &str, b: &str) -> (r: bool)
    ensures
        r == (a@ == b@),
{
    let x = a.to_owned();
    let y = b.to_owned();
    x == y
}

/// O caractere do algarismo decimal `d` (de 0 a 9).
pub open spec fn algarismo(d: nat) -> char {
    (d + 48) as char
}

/// A escrita decimal de `n`, sem zeros à esquerda.
pub open spec fn decimal(n: nat) -> Seq<char>
    decreases n,
{
    if n < 10 {
        seq![algarismo(n)]
    } else {
        decimal(n / 10).push(algarismo(n % 10))
    }
}

/// O número que uma sequência de algarismos decimais representa.
pub open spec fn valor_decimal(s: Seq<char>) -> int
    decreases s.len(),
{
    if s.len() == 0 {
        0
    } else {
        valor_decimal(s.drop_last()) * 10 + (s.last() as int - 48)
    }
}

/// Só algarismos de 0 a 9, e ao menos um.
pub open spec fn so_algarismos(s: Seq<char>) -> bool {
    &&& s.len() > 0
    &&& forall|i: int| 0 <= i < s.len() ==> '0' <= #[trigger] s[i] <= '9'
}

/// A escrita decimal de um número é feita só de algarismos e, lida de
/// volta, dá o mesmo número.
pub proof fn lei_decimal_reversivel(n: nat)
    ensures
        so_algarismos(decimal(n)),
        valor_decimal(decimal(n)) == n,
    decreases n,
{
    if n < 10 {
        assert(algarismo(n) as int == n + 48);
        assert(decimal(n).drop_last() =~= Seq::<char>::empty());
        assert(valor_decimal(decimal(n)) == valor_decimal(decimal(n).drop_last()) * 10 + (
        decimal(n).last() as int - 48));
    } else {
        lei_decimal_reversivel(n / 10);
        let d = decimal(n / 10);
        assert(decimal(n).drop_last() =~= d);
        assert(algarismo(n % 10) as int == n % 10 + 48);
        assert((n / 10) * 10 + n % 10 == n) by (nonlinear_arith);
        assert(decimal(n).last() == algarismo(n % 10));
        assert(valor_decimal(decimal(n)) == valor_decimal(decimal(n).drop_last()) * 10 + (
        decimal(n).last() as int - 48));
        assert forall|i: int| 0 <= i < decimal(n).len() implies '0' <= #[trigger] decimal(n)[i]
            <= '9' by {
            if i < d.len() {
                assert(decimal(n)[i] == d[i]);
            }
        }
    }
}

fn texto_algarismo(d: u16) -> (r: &'static str)
    requires
        d < 10,
    ensures
        r@ == seq![algarismo(d as nat)],
{
    proof {
        reveal_strlit("0");
        reveal_strlit("1");
        reveal_strlit("2");
        reveal_strlit("3");
        reveal_strlit("4");
        reveal_strlit("5");
        reveal_strlit("6");
        reveal_strlit("7");
        reveal_strlit("8");
        reveal_strlit("9");
    }
    if d == 0 {
        "0"
    } else if d == 1 {
        "1"
    } else if d == 2 {
        "2"
    } else if d == 3 {
        "3"
    } else if d == 4 {
        "4"
    } else if d == 5 {
        "5"
    } else if d == 6 {
        "6"
    } else if d == 7 {
        "7"
    } else if d == 8 {
        "8"
    } else {
        "9"
    }
}

/// Escreve `n` em decimal, como `format!("{}", n)`.
pub fn escrever_decimal(n: u16) -> (r: String)
    ensures
        r@ == decimal(n as nat),
    decreases n,
{
    if n < 10 {
        texto_algarismo(n).to_owned()
    } else {
        let mut r = escrever_decimal(n / 10);
        r.append(texto_algarismo(n % 10));
        r
    }
}

/// O texto presente, ou `padrao` quando ausente.
pub open spec fn ou_padrao(o: Option<String>, padrao: Seq<char>) -> Seq<char> {
    match o {
        Some(t) => t@,
        None => padrao,
    }
}

/// O texto presente, ou o texto vazio quando ausente.
pub open spec fn ou_vazio(o: Option<String>) -> Seq<char> {
    ou_padrao(o, Seq::empty())
}

/// O texto presente, ou o texto vazio quando ausente (`unwrap_or_default`).
pub fn texto_ou_vazio(o: Option<String>) -> (r: String)
    ensures
        r@ == ou_vazio(o),
        o matches Some(t) ==> r@ == t@,
        o is None ==> r@ == Seq::<char>::empty(),
{
    match o {
        Some(t) => t,
        None => String::new(),
    }
}

/// O texto presente, ou uma cópia de `padrao` quando ausente.
pub fn texto_ou(o: Option<String>, padrao: &str) -> (r: String)
    ensures
        r@ == ou_padrao(o, padrao@),
        o matches Some(t) ==> r@ == t@,
        o is None ==> r@ == padrao@,
{
    match o {
        Some(t) => t,
        None => padrao.to_owned(),
    }
}

/// O número presente, ou zero quando ausente.
pub fn numero_ou_zero(o: Option<i64>) -> (r: i64)
    ensures
        r == match o {
            Some(v) => v,
            None => 0i64,
        },
{
    match o {
        Some(v) => v,
        None => 0,
    }
}

proof fn lema_iniciais_sem_espaco(s: Seq<char>)
    ensures
        sem_espacos_iniciais(s).len() > 0 ==> !eh_espaco_branco(sem_espacos_iniciais(s)[0]),
        sem_espacos_iniciais(sem_espacos_iniciais(s)) == sem_espacos_iniciais(s),
    decreases s.len(),
{
    if s.len() > 0 && eh_espaco_branco(s[0]) {
        lema_iniciais_sem_espaco(s.drop_first());
    }
}

proof fn lema_finais_preserva_inicio(s: Seq<char>)
    requires
        s.len() > 0 ==> !eh_espaco_branco(s[0]),
    ensures
        sem_espacos_finais(s).len() > 0 ==> !eh_espaco_branco(sem_espacos_finais(s).last()),
        sem_espacos_finais(s).len() > 0 ==> sem_espacos_finais(s)[0] == s[0],
        sem_espacos_finais(sem_espacos_finais(s)) == sem_espacos_finais(s),
        sem_espacos_iniciais(sem_espacos_finais(s)) == sem_espacos_finais(s),
    decreases s.len(),
{
    if s.len() > 0 && eh_espaco_branco(s.last()) {
        if s.len() > 1 {
            assert(s.drop_last()[0] == s[0]);
        }
        lema_finais_preserva_inicio(s.drop_last());
    }
}

/// Um texto aparado não começa nem termina com espaço em branco.
pub proof fn lei_aparado_sem_espacos_nas_pontas(s: Seq<char>)
    ensures
        aparado(s).len() > 0 ==> !eh_espaco_branco(aparado(s)[0]),
        aparado(s).len() > 0 ==> !eh_espaco_branco(aparado(s).last()),
{
    lema_iniciais_sem_espaco(s);
    lema_finais_preserva_inicio(sem_espacos_iniciais(s));
}

/// Aparar de novo um texto já aparado não o muda.
pub proof fn lei_aparar_idempotente(s: Seq<char>)
    ensures
        aparado(aparado(s)) == aparado(s),
{
    let t = sem_espacos_iniciais(s);
    lema_iniciais_sem_espaco(s);
    lema_finais_preserva_inicio(t);
}

/// Um texto presente é mantido; na ausência fica o padrão (vazio, no caso
/// de `ou_vazio`).
pub proof fn lei_ou_padrao(o: Option<String>, padrao: Seq<char>)
    ensures
        o matches Some(t) ==> ou_padrao(o, padrao) == t@ && ou_vazio(o) == t@,
        o is None ==> ou_padrao(o, padrao) == padrao && ou_vazio(o) == Seq::<char>::empty(),
{
}

/// Os espaços em branco são exatamente estes 25 pontos de código Unicode.
pub proof fn lei_espacos_brancos(c: char)
    ensures
        eh_espaco_branco(c) <==> set![
            0x09u32, 0x0Au32, 0x0Bu32, 0x0Cu32, 0x0Du32, 0x20u32, 0x85u32, 0xA0u32, 0x1680u32,
            0x2000u32, 0x2001u32, 0x2002u32, 0x2003u32, 0x2004u32, 0x2005u32, 0x2006u32,
            0x2007u32, 0x2008u32, 0x2009u32, 0x200Au32, 0x2028u32, 0x2029u32, 0x202Fu32,
            0x205Fu32, 0x3000u32,
        ].contains(c as u32),
{
}

proof fn lema_iniciais_trecho(s: Seq<char>) -> (i: int)
    ensures
        0 <= i <= s.len(),
        sem_espacos_iniciais(s) == s.subrange(i, s.len() as int),
        forall|k: int| 0 <= k < i ==> eh_espaco_branco(#[trigger] s[k]),
    decreases s.len(),
{
    if s.len() > 0 && eh_espaco_branco(s[0]) {
        let j = lema_iniciais_trecho(s.drop_first());
        assert(s.drop_first().subrange(j, s.drop_first().len() as int) =~= s.subrange(
            j + 1,
            s.len() as int,
        ));
        assert forall|k: int| 0 <= k < j + 1 implies eh_espaco_branco(#[trigger] s[k]) by {
            if k > 0 {
                assert(s[k] == s.drop_first()[k - 1]);
            }
        }
        j + 1
    } else {
        assert(s =~= s.subrange(0, s.len() as int));
        0
    }
}

proof fn lema_finais_trecho(s: Seq<char>) -> (j: int)
    ensures
        0 <= j <= s.len(),
        sem_espacos_finais(s) == s.subrange(0, j),
        forall|k: int| j <= k < s.len() ==> eh_espaco_branco(#[trigger] s[k]),
    decreases s.len(),
{
    if s.len() > 0 && eh_espaco_branco(s.last()) {
        let j = lema_finais_trecho(s.drop_last());
        assert(s.drop_last().subrange(0, j) =~= s.subrange(0, j));
        assert forall|k: int| j <= k < s.len() implies eh_espaco_branco(#[trigger] s[k]) by {
            if k < s.len() - 1 {
                assert(s[k] == s.drop_last()[k]);
            }
        }
        j
    } else {
        assert(s =~= s.subrange(0, s.len() as int));
        s.len() as int
    }
}

/// Aparar tira só espaços em branco, e só das pontas: o resultado é um
/// trecho contíguo do texto, e tudo o que ficou antes ou depois dele é
/// espaço em branco.
pub proof fn lei_aparado_e_trecho(s: Seq<char>)
    ensures
        exists|i: int, j: int|
            0 <= i <= j <= s.len() && aparado(s) == s.subrange(i, j) && (forall|k: int|
                0 <= k < i ==> eh_espaco_branco(#[trigger] s[k])) && (forall|k: int|
                j <= k < s.len() ==> eh_espaco_branco(#[trigger] s[k])),
{
    let i = lema_iniciais_trecho(s);
    let t = s.subrange(i, s.len() as int);
    let m = lema_finais_trecho(t);
    let j = i + m;
    assert(t.subrange(0, m) =~= s.subrange(i, j));
    assert forall|k: int| j <= k < s.len() implies eh_espaco_branco(#[trigger] s[k]) by {
        assert(s[k] == t[k - i]);
    }
    assert(aparado(s) == s.subrange(i, j));
}

} // verus!
