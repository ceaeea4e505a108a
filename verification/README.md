# devimint

Brings up a development federation: bitcoind with a funded wallet, two lightning nodes with a
channel between them, the daemons that index the chain, the federation, and a gateway for each
lightning node. It also detects the version of the code in a build script.

- `src/` is a library verified with Verus. It holds what is to be done, in which order and with what,
  what each outcome leads to, and the texts of the library's own errors. Procedures that alternate
  work on the outside with decisions are steps: a step says what is to be done, and turns into the
  next one when it is given what came of it.
- `app/` does the work that the steps ask for, with the clients of the daemons, on a `Host` that
  provides processes, the reading of bitcoind's URL and the federation itself.
- `tests/` runs the library.
