pub mod db;
pub mod error;
pub mod testgen;
pub mod text;
