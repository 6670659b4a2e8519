pub mod domain;
pub mod repositories;
