# microworlds

A Logo environment in the spirit of MicroWorlds: a turtle canvas, a code
editor with syntax colouring, and an interpreter. This crate is its library,
written in Verus: every function in `src/` is verified against its contract.

## Layout

- `src/interpreter/language/`: the command dictionary (`Language`), the
  lexer that turns code into tokens, token values and the decoding of
  command inputs, and the command actions that work on words, lists,
  booleans, variables and files' names.
- `src/interpreter/state/`: the data a program keeps (`DataStore`: scoped
  variables, procedures, shapes) and the keyboard and mouse input waiting
  to be read (`InputManager`).
- `src/interpreter/run.rs`: the decisions of the run loop (what a read
  token, a command's result or a failure leads to) and the value of tokens
  that name no command.
- `src/interpreter/interpreter.rs`: reading lists from text, binding a
  procedure's inputs, entering and leaving its scope.
- `src/interpreter/util/`: errors and the timing of commands.
- `src/gui/`: the editor's open files, the highlighter that cuts code into
  coloured spans, and the decoding of pictures.
- `src/table.rs`, `src/text.rs`: an insertion-ordered map keyed by names,
  and character helpers.
- `tests/`: tests of the library.
- `app/`: the program around the library: the egui window, file dialogs,
  and the part of the interpreter that moves turtles, whose positions,
  headings and colours are floating-point numbers.

Each law the library keeps (for instance, that a variable read right after
it was set gives its value, or that the highlighter's spans give back the
code) is a public proof function beside the functions it speaks of.
