//! Tinh Bàn — lõi âm lịch, Can Chi, Tử Vi Đẩu Số, Bát Tự và Trạch Nhật,
//! cùng các quy tắc thuần của tầng lưu trữ và tầng phục vụ.
//!
//! Mọi hàm trong crate này được Verus kiểm chứng theo hợp đồng `requires` /
//! `ensures` của nó. Phần tính toán thiên văn dùng số thực (vị trí Mặt Trời,
//! thời điểm sóc) nằm ngoài thư viện; thư viện nhận kết quả nguyên của phần
//! đó (JD của ngày sóc, vị trí tháng nhuận, kinh độ Mặt Trời theo độ nguyên,
//! JD các tiết) làm đối số.

#![allow(unused_imports)]

use vstd::prelude::*;

pub mod astronomy;
pub mod bat_tu;
pub mod canchi;
pub mod db;
pub mod hien_thi;
pub mod ho_so;
pub mod lich;
pub mod modulo;
pub mod ngay_tot_xau;
pub mod scrape;
pub mod strs;
pub mod text;
pub mod trach_nhat;
pub mod tu_dien;
pub mod tuvi;

pub use canchi::{
    can_chi_display, nguhanh_of_branch, nguhanh_of_stem, CanChi, EarthlyBranch, HeavenlyStem,
    NguHanh, NguHanhElement,
};
pub use lich::{
    app_name, check_range, day_can_chi, hour_can_chi, lunar_to_solar, month_can_chi,
    solar_to_lunar, version, year_can_chi, BirthMoment, LunarDate, LunarError, SolarDate,
    APP_NAME,
};

verus! {

} // verus!
