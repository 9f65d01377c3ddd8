pub mod container;
pub mod project;
