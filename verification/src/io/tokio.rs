pub mod reader;
pub mod writer;
