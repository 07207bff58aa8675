//! Bát Tự (Tứ Trụ): Tàng Can, Thập Thần, tiết khí.

pub mod hidden_stems;
pub mod lap;
pub mod thap_than;
pub mod tiet_khi;
pub mod types;

pub use hidden_stems::{hidden_stems, hidden_stems_tuple};
pub use thap_than::{ten_god_of, TenGod};
pub use tiet_khi::{
    current_tiet_khi, jd_to_ymd, tiet_month_branch_index, tiet_month_index, TIET_KHI_24,
    TIET_KHI_TABLE,
};
pub use lap::{hidden_stems_with_tg, increment_hanh, lap_bat_tu, nam_bat_tu, thang_bat_tu};
pub use types::{BatTuChart, BatTuError, NguHanhCount, Pillar};
pub use crate::tuvi::types::Gender;
