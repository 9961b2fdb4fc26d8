pub mod palette;
pub mod reference;
