pub mod ast;
pub mod decimal;
pub mod item;
pub mod primitive;
pub mod type_expr;
pub mod unsupported;
pub mod walker;
