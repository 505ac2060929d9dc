pub mod environment;
pub mod text;
