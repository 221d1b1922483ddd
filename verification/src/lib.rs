pub mod algorithm;
pub mod aspect;
pub mod choices;
pub mod laws;
pub mod prompt;
pub mod store;
pub mod text;
pub mod themes;
