pub mod in_memory_to_do_repository;
pub mod laws;
pub mod stream;
pub mod to_do;
pub mod to_do_repository;
