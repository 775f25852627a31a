pub mod backend;
