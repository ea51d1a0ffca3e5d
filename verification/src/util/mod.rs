pub mod data_container;
pub mod decimal;
pub mod payload;
pub mod text;
pub mod number;
pub mod pattern;
