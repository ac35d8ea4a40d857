# whython

The verified core of the code generator of the Whython compiler, written in Verus: it
turns parsed function bodies into NASM assembly for x86-64 Linux, and every function
states what it produces in its contract, which Verus proves.

What the statement and expression compilers take is a core of the language: `let`,
`if`/`elif`/`else`, `while`, `break`, `return`, expression statements, type queries and
markers; names of variables, `int` and `bool` literals, `&`, `*` and assignment through
a reference.
Operators, calls inside expressions, struct literals and field access are not part of
the expressions it compiles, so a program compiled with `compile` consists of `main`.
The pieces such expressions would use are here and verified on their own: calling a
compiled function or a builtin with arguments already evaluated, resolving a called
name, the builtin `int` and `bool` operators, method receivers and heap allocation.
There is no parser here: the command-line program stops before parsing.

- `src/text.rs`, `src/common.rs`, `src/assembler.rs`: decimal and hexadecimal text,
  ids, stack addresses and type references, and the assembly text builder.
- `src/compiler/`: stack layout of local variables (`local_variable_table`), the
  registered types and functions (`global_table`), state kept across functions
  (`global_tracker`), memory copies and heap allocation (`assembly`), expressions,
  receivers of method calls and the names of called functions (`evaluation`),
  statements (`compile_lines`), whole functions (`compile_function`), calls of compiled
  functions and of builtins written in place (`compile_function_call`), and the whole
  program: the order in which functions are compiled and the assembly file that results
  (`compile`).
- `src/builtin/`: the builtin types `int` and `bool` and the inline functions on them.
- `src/ast/`: keywords, operators, and the expressions and statements of a parsed
  function body.
- `src/cli.rs`: command-line options and the text shown around a run.
- `app/main.rs`: the command-line program.
- `tests/`: tests on concrete programs and values.
