#![allow(non_snake_case)]

pub mod syntax;
pub mod semantics;
pub mod eval;
pub mod text;
pub mod typeSyn;
pub mod laws;
pub mod typing_laws;
pub mod eval_laws;
