# trabajo_final

A verified election registry, written in Verus. An administrator approves or
refuses the users who sign up; elections are created between two dates, take
requests from accepted users to be voters or candidates, move through the stages
CERRADA, ABIERTA, INICIADA and FINALIZADA, and count one vote per voter.

Layout:

- `src/cuenta.rs`: account identifiers and their hexadecimal text (through `hex`).
- `src/texto.rs`: decimal numerals, boolean words and the view of an answer.
- `src/fecha.rs`: reading election dates (through `chrono`).
- `src/mensajes.rs`: the texts the registry answers with.
- `src/eleccion.rs`: one election, its abstract value and its two operations.
- `src/usuario.rs`: users and their lookup by account.
- `src/sistema.rs`: the registry; every message is specified by a function on the
  abstract value that gives the next value and the answer.
- `src/leyes.rs`: the laws that span messages (what every message keeps, what one
  message owes to the next), proved over those functions.
- `app/lib.rs`: the ink! contract that reads the caller and the block time from the
  runtime and stores the registry.
