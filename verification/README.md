# aviutl2_alias_inserter

The verified logic of an AviUtl2 plugin that inserts `.object` alias files into the timeline on
request, and of the command line client that requests it.

The client checks a path and writes it, in UTF-16LE and ended by a NUL, to the named pipe
`\\.\pipe\aviutl2_alias_inserter`. The plugin serves that pipe, takes messages of at most 32,768
bytes, and inserts the alias file at the path where the cursor stands.

## Layout

- `src/` is the library, verified with Verus. It performs no I/O: each flow is a state that names
  what has to be done next, and a function from that state and what came of it to the next state.
  - `utf16`, `protocol`: code units, payloads, encoding and decoding
  - `reader`, `server`, `plugin`, `pipes`, `security`, `creation`: the plugin's side of the pipe
  - `alias_path`, `insert`: which files are inserted, and how
  - `client`: the command line client
  - `text`, `win32`, `open_failure`, `runs`: what the others share
  - `server_laws`, `insert_laws`, `client_laws`, `delivery_laws`: what holds over any run
- `tests/` runs the library on concrete values.
- `app/` carries out what the states ask for: files, Windows calls and the host.

Windows error codes are turned into `HRESULT`s by `windows-core`; that call, `char::from_u32` and
`String::push` are the only ones whose contracts are taken on trust beyond those of `vstd`.
