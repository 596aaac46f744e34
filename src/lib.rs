pub mod slot;
pub mod handle;
pub mod template;
pub mod describe;
