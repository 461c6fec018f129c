//! Backend library of a personal recipe book: recipe import from web pages
//! carrying schema.org JSON-LD, and the ownership rules around recipes and users.

pub mod errors;
pub mod text;
pub mod json;
pub mod html;
pub mod recipe;
pub mod ids;
pub mod parser;
pub mod store;
pub mod memory;
pub mod auth;
pub mod interactor;
pub mod image_store;
pub mod schema;
pub mod laws;
