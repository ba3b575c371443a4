# sag_desktop

Regras do SAG Desktop (gestão escolar: escolas, turmas, professores, alunos,
chamadas, cronograma, diário e horas), escritas em Verus e verificadas.

- `src/` — a biblioteca verificada: leitura e validação das entradas de cada
  comando (`entradas`, `commands::*`), montagem dos registros a partir das
  linhas do banco, as decisões do login e do cadastro de pessoas, o endereço
  de conexão (`config`) e a interpretação das respostas do Supabase Auth
  (`supabase`). As leituras de UUID e de datas chamam as bibliotecas `uuid` e
  `chrono` por meio de `externos`.
- `app/` — o programa: lê o arquivo de configuração, fala com o PostgreSQL
  (sqlx) e com o Supabase Auth (reqwest) e serializa os registros (serde).
- `tests/` — testes da biblioteca com as bibliotecas externas de verdade.
