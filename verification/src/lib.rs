pub mod args;
pub mod error;
pub mod git;
pub mod json;
pub mod path;
pub mod text;
pub mod run;
