//! Generator of object-style wrapper source for the widget families of a C GUI
//! toolkit: classifies flat function declarations into widgets and emits the
//! text of one wrapper module per widget.

pub mod bindings;
pub mod emit;
pub mod extract;
pub mod laws;
pub mod load;
pub mod model;
pub mod text;

pub use crate::emit::Rusty;
pub use crate::extract::CodeGen;
pub use crate::load::Declaration;
pub use crate::model::{LvArg, LvFunc, LvType, LvWidget, WrapperError, WrapperResult};
