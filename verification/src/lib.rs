pub mod ast;
pub mod text;
pub mod lower;
pub mod discover;
pub mod emit;
pub mod translate;
pub mod stmt;
pub mod shader;
pub mod stage;
pub mod check;
pub mod state_use;
pub mod layout;
pub mod limits;
pub mod parse;
pub mod cell;
pub mod params;
pub mod persist;
pub mod runtime;
pub mod types;
pub mod semantics;
