pub mod architecture;
pub mod dto_style;
pub mod generation_context;
pub mod persistence;
