//! The scene as the renderer takes it in, and the small languages in which a
//! scene file describes it.

pub mod param_field;
pub mod scenes;
pub mod shader_type;
pub mod transform;
pub mod type_lexer;
pub mod value;
