//! The Telegram bot object model: wire types, request parameter types, and
//! the codecs binding them to the JSON layer.
pub mod games;
pub mod inline_mode;
pub mod laws;
pub mod methods;
pub mod types;
pub mod utils;
