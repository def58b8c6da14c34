//! The front end of a small expression language: a scanner that turns source
//! text into tokens, a recursive-descent parser that builds one expression
//! tree, a printer that renders the tree in prefix form, and an evaluator that
//! walks it to a dynamically typed value.
//!
//! Numbers are IEEE 754 doubles, held here by their bits. The crate orders,
//! compares and negates them on the bits, and computes nothing else on them:
//! the scanner is handed a function that makes a number of a lexeme, the
//! printer one that gives the text of a number, and the evaluator one that
//! adds, subtracts, multiplies and divides.
//!
//! Each of these three states its result twice. Whatever the function it was
//! handed gave, the result is built from just that; and where the function is
//! known to compute a mathematical function, the result is the value of a
//! specification that takes that function as its argument: `all_valued` of
//! `scan`, `printed`, `evaluated`.
//!
//! The parser, the printer and the evaluator are recursive. Each is proved to
//! terminate, by a measure that decreases with every call. How deep the calls
//! go is decided by the input and is not limited here: the parser goes as
//! deep as parentheses, unary operators and ternaries nest, the printer and
//! the evaluator as deep as the tree. The call stack is no part of what is
//! proved; a caller that reads text it does not trust limits its length.
//!
//! - `number`, `tokens`, `errors`: the data.
//! - `lexis`, `grammar`, `printing`, `evaluation`: what scanning, parsing,
//!   printing and evaluation mean.
//! - `scanner`, `parser`, `syntax_tree`: the code, with its contracts.
//! - `laws`: what follows for every input.
//! - `text`: building strings.

pub mod number;
pub mod tokens;
pub mod text;
pub mod errors;
pub mod lexis;
pub mod scanner;
pub mod syntax_tree;
pub mod printing;
pub mod evaluation;
pub mod grammar;
pub mod parser;
pub mod laws;
