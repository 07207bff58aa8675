//! Cấu trúc dữ liệu công khai của Bát Tự.

use vstd::prelude::*;

use crate::bat_tu::thap_than::TenGod;
use crate::canchi::{CanChi, EarthlyBranch, HeavenlyStem, NguHanh};
use crate::lich::{BirthMoment, LunarError};
use crate::text::push_str;
use crate::tuvi::types::Gender;

verus! {

/// Một trụ: Can–Chi, Thập Thần của Thiên Can, Tàng Can kèm Thập Thần.
#[derive(Debug, Clone)]
pub struct Pillar {
    /// Cặp Can–Chi của trụ.
    pub can_chi: CanChi,
    /// Thập Thần của Thiên Can so với Nhật Chủ; `None` cho trụ Ngày.
    pub ten_god: Option<TenGod>,
    /// Tàng Can của Địa Chi, kèm Thập Thần của từng Can so với Nhật Chủ.
    pub hidden_stems: Vec<(HeavenlyStem, TenGod)>,
}

impl Pillar {
    /// Thiên Can của trụ.
    pub fn stem(&self) -> (r: HeavenlyStem)
        ensures
            r == self.can_chi.stem,
    {
        self.can_chi.stem
    }

    /// Địa Chi của trụ.
    pub fn branch(&self) -> (r: EarthlyBranch)
        ensures
            r == self.can_chi.branch,
    {
        self.can_chi.branch
    }
}

/// Lá số Bát Tự đầy đủ.
#[derive(Debug, Clone)]
pub struct BatTuChart {
    /// Ngày giờ sinh gốc.
    pub birth: BirthMoment,
    /// Giới tính.
    pub gender: Gender,
    /// Trụ Năm (năm Bát Tự đổi ở Lập Xuân).
    pub year_pillar: Pillar,
    /// Trụ Tháng (tháng tiết khí).
    pub month_pillar: Pillar,
    /// Trụ Ngày (Nhật Chủ).
    pub day_pillar: Pillar,
    /// Trụ Giờ.
    pub hour_pillar: Pillar,
    /// Số lần xuất hiện của mỗi hành trong 8 chữ.
    pub nguhanh_count: NguHanhCount,
}

impl BatTuChart {
    /// Nhật Chủ = Can của trụ Ngày.
    pub fn nhat_chu(&self) -> (r: HeavenlyStem)
        ensures
            r == self.day_pillar.can_chi.stem,
    {
        self.day_pillar.can_chi.stem
    }

    /// 8 chữ (4 Can + 4 Chi) theo thứ tự Năm, Tháng, Ngày, Giờ.
    pub fn all_8_chars(&self) -> (r: [(HeavenlyStem, EarthlyBranch); 4])
        ensures
            r@ == seq![
                (self.year_pillar.can_chi.stem, self.year_pillar.can_chi.branch),
                (self.month_pillar.can_chi.stem, self.month_pillar.can_chi.branch),
                (self.day_pillar.can_chi.stem, self.day_pillar.can_chi.branch),
                (self.hour_pillar.can_chi.stem, self.hour_pillar.can_chi.branch),
            ],
    {
        let r = [
            (self.year_pillar.stem(), self.year_pillar.branch()),
            (self.month_pillar.stem(), self.month_pillar.branch()),
            (self.day_pillar.stem(), self.day_pillar.branch()),
            (self.hour_pillar.stem(), self.hour_pillar.branch()),
        ];
        assert(r@ =~= seq![
            (self.year_pillar.can_chi.stem, self.year_pillar.can_chi.branch),
            (self.month_pillar.can_chi.stem, self.month_pillar.can_chi.branch),
            (self.day_pillar.can_chi.stem, self.day_pillar.can_chi.branch),
            (self.hour_pillar.can_chi.stem, self.hour_pillar.can_chi.branch),
        ]);
        r
    }
}

/// Số lần xuất hiện mỗi hành trong 8 chữ.
#[derive(Debug, Clone, Copy, PartialEq, Eq, Structural, Hash)]
pub struct NguHanhCount {
    pub kim: u8,
    pub moc: u8,
    pub thuy: u8,
    pub hoa: u8,
    pub tho: u8,
}

impl NguHanhCount {
    /// Tổng năm hành (số nguyên toán học).
    pub open spec fn sum(self) -> int {
        self.kim + self.moc + self.thuy + self.hoa + self.tho
    }

    /// Số đếm của hành `h`.
    pub open spec fn of(self, h: NguHanh) -> int {
        match h {
            NguHanh::Kim => self.kim as int,
            NguHanh::Moc => self.moc as int,
            NguHanh::Thuy => self.thuy as int,
            NguHanh::Hoa => self.hoa as int,
            NguHanh::Tho => self.tho as int,
        }
    }

    /// Tổng số chữ đã đếm (bằng 8 cho một lá số).
    pub fn total(&self) -> (r: u8)
        requires
            self.sum() <= 255,
        ensures
            r == self.sum(),
    {
        self.kim + self.moc + self.thuy + self.hoa + self.tho
    }
}

impl Default for NguHanhCount {
    fn default() -> (r: Self)
        ensures
            r == (NguHanhCount { kim: 0, moc: 0, thuy: 0, hoa: 0, tho: 0 }),
    {
        NguHanhCount { kim: 0, moc: 0, thuy: 0, hoa: 0, tho: 0 }
    }
}

/// Lỗi của module Bát Tự.
#[derive(Debug, Clone, PartialEq, Eq)]
pub enum BatTuError {
    /// Bọc lỗi từ lõi âm lịch.
    Lunar(LunarError),
    /// Năm sinh ngoài phạm vi 1900–2100.
    OutOfRange(String),
    /// Lỗi nội bộ.
    Internal(String),
}

impl BatTuError {
    /// Chuỗi hiển thị của lỗi (thay cho `Display`).
    pub open spec fn spec_to_string(self) -> Seq<char> {
        match self {
            BatTuError::Lunar(e) => "lỗi âm lịch: "@ + e.spec_to_string(),
            BatTuError::OutOfRange(s) => "ngoài phạm vi: "@ + s@,
            BatTuError::Internal(s) => "lỗi nội bộ: "@ + s@,
        }
    }

    /// Chuỗi hiển thị của lỗi.
    pub fn to_string(&self) -> (r: String)
        ensures
            r@ == self.spec_to_string(),
    {
        match self {
            BatTuError::Lunar(e) => {
                let mut s = String::from_str("lỗi âm lịch: ");
                let t = e.to_string();
                push_str(&mut s, t.as_str());
                s
            },
            BatTuError::OutOfRange(m) => {
                let mut s = String::from_str("ngoài phạm vi: ");
                push_str(&mut s, m.as_str());
                s
            },
            BatTuError::Internal(m) => {
                let mut s = String::from_str("lỗi nội bộ: ");
                push_str(&mut s, m.as_str());
                s
            },
        }
    }
}

} // verus!
