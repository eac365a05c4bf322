pub mod atom;
pub mod dublincore;
