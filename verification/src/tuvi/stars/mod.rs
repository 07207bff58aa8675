//! Sao: 14 chính tinh và 13 phụ tinh.

pub mod chinh_tinh;
pub mod phu_tinh;
pub mod sao;

pub use sao::{Sao, SaoCategory};
