pub mod identifier;
