pub mod contributor;
pub mod fundraiser;
