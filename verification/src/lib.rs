pub mod text;
pub mod status;
pub mod table;
pub mod model;
pub mod ids;
pub mod coordinator;
pub mod cli;
pub mod laws;
