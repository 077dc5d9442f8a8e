//! Greetings spoken by Ferris, the path of the extension's type
//! declarations, and the decisions of the interactive read-eval-print loop.

pub mod declaration;
pub mod repl;
pub mod speech;
pub mod startup;
