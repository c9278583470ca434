// A WebAssembly-to-Luau code generator. `ast` and `module` model the input,
// `text` formats literals, `expr` and `stmt` emit expressions, statements and
// function literals, and `module` emits the whole program.

pub mod ast;
pub mod expr;
pub mod module;
pub mod stmt;
pub mod text;
