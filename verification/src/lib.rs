//! Category-driven background selection: configuration model, category
//! lookup, viewer command lines and the viewer lifecycle plan.
pub mod text;
pub mod config;
pub mod launch;
pub mod select;
pub mod load;
