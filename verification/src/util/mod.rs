pub mod text;
pub mod ids;
pub mod random;
pub mod keyed;
