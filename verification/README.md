# vihaco

A small virtual-machine toolkit, verified with Verus: a stack CPU with call
frames and a heap, its textual instruction syntax, the resolution of parsed
modules into code, the binary and textual program containers, and the
benchmark workloads that exercise the machine.

## Layout

- `src/` — the verified library. Each public function states in its
  contract what it returns or changes; laws that relate several functions
  are public proof functions beside them.
  - `word`, `frame`, `heap`, `state`, `cpu`: the machine. `state` holds the
    abstract CPU (`CpuState`) and one step of it as a spec function; `cpu`
    is the executable CPU, proved to follow that step.
  - `instruction`, `dialect`, `arith`, `opcode`: the instruction set, its
    operations, and the widths of operand types.
  - `syntax`, `lexical`, `surface`, `surface_syntax`, `parse_helpers`: the
    lexical grammar and the grammar of one instruction.
  - `resolve`: resolution of a parsed module into code, string tables and
    function metadata.
  - `section`, `container`, `sst`: program containers, binary and textual.
  - `fixture`, `benchmark`: one CPU with its program counter, one
    fetch-execute step, and the constant-instruction benchmark routes.
  - `workloads`: the native reference workloads, their contracts, and the
    bundle checks.
- `tests/` — tests of the library on concrete values.
- `app/` — the command-line program that reads workload bundles from disk
  and checks them with the library.
