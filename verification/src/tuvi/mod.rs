//! Tử Vi Đẩu Số: 12 cung, Cục, chính tinh, phụ tinh, vòng Trường Sinh.

pub mod chart;
pub mod cuc;
pub mod lap;
pub mod laws;
pub mod palaces;
pub mod stars;
pub mod truong_sinh;
pub mod types;

pub use cuc::{tinh_cuc, Cuc, CucInfo};
pub use palaces::{dich_cung, Palace, PalaceName};
pub use stars::{Sao, SaoCategory};
pub use truong_sinh::{start_branch_of, truong_sinh_positions, TruongSinhState};
pub use types::{Gender, TuViChart, TuViError};
pub use lap::lap_la_so;
