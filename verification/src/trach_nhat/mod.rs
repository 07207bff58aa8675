//! Trạch Nhật: Hoàng Đạo / Hắc Đạo, giờ tốt, 12 Trực, kiêng kỵ.

pub mod danh_gia;
pub mod hoang_dao;
pub mod kieng_ky;
pub mod truc;
pub mod types;

pub use danh_gia::{chi_thang_tiet_khi, danh_gia_ngay, khoang_ngay};
pub use types::{DayAssessment, HoangDaoHacDao, HourRange, KiengKy, ThanSat, Truc, TrucRating};
