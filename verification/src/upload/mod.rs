pub mod listen;
pub mod metadata;
pub mod rehydrate;
pub mod progress;
pub mod search;
