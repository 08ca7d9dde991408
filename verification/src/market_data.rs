pub mod crypto;
pub mod stock;
