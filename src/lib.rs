pub mod appenv;
pub mod text;
pub mod laws;
pub mod cli;
