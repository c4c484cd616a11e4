pub mod addressing;
pub mod instructions;
pub mod variables;
