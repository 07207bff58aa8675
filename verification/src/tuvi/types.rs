//! Kiểu dữ liệu chung của Tử Vi: giới tính, lá số, lỗi.

use vstd::prelude::*;

use crate::canchi::EarthlyBranch;
use crate::lich::{BirthMoment, LunarDate, LunarError};
use crate::text::push_str;
use crate::tuvi::cuc::Cuc;
use crate::tuvi::palaces::Palace;

verus! {

/// Giới tính (dùng chung cho Tử Vi và Bát Tự).
#[derive(Debug, Clone, Copy, PartialEq, Eq, Structural, Hash)]
pub enum Gender {
    Nam,
    Nu,
}

impl Gender {
    /// `+1` cho Nam, `−1` cho Nữ.
    pub open spec fn sign(self) -> int {
        match self {
            Gender::Nam => 1,
            Gender::Nu => -1,
        }
    }

    /// Tên tiếng Việt.
    pub open spec fn name_seq(self) -> Seq<char> {
        match self {
            Gender::Nam => "Nam"@,
            Gender::Nu => "Nữ"@,
        }
    }

    /// Dấu âm dương theo giới: `+1` cho Nam, `−1` cho Nữ.
    pub fn sign_i64(self) -> (r: i64)
        ensures
            r == self.sign(),
    {
        match self {
            Gender::Nam => 1,
            Gender::Nu => -1,
        }
    }

    /// Tên tiếng Việt.
    pub fn name_vn(self) -> (r: &'static str)
        ensures
            r@ == self.name_seq(),
    {
        match self {
            Gender::Nam => "Nam",
            Gender::Nu => "Nữ",
        }
    }
}

/// Lá số Tử Vi đầy đủ: 12 cung theo thứ tự Mệnh → Huynh Đệ.
#[derive(Debug, Clone)]
pub struct TuViChart {
    pub birth: BirthMoment,
    pub gender: Gender,
    pub lunar: LunarDate,
    pub cuc: Cuc,
    pub palaces: Vec<Palace>,
    pub menh_branch: EarthlyBranch,
    pub than_branch: EarthlyBranch,
}

/// Các phần tử (theo thứ tự) của danh sách vị trí `ps` đóng ở cung `b`.
pub open spec fn placed_at<T>(ps: Seq<(T, EarthlyBranch)>, b: EarthlyBranch) -> Seq<T>
    decreases ps.len(),
{
    if ps.len() == 0 {
        Seq::empty()
    } else if ps.last().1 == b {
        placed_at(ps.drop_last(), b).push(ps.last().0)
    } else {
        placed_at(ps.drop_last(), b)
    }
}

/// Hai cung giống nhau ở mọi thứ trừ danh sách sao.
pub open spec fn same_but_stars(a: Palace, b: Palace) -> bool {
    &&& a.name == b.name
    &&& a.branch == b.branch
    &&& a.truong_sinh@ == b.truong_sinh@
    &&& a.is_menh == b.is_menh
    &&& a.is_than == b.is_than
}

/// Hai lá số giống nhau ở mọi thứ trừ nội dung các cung.
pub open spec fn same_frame(a: TuViChart, b: TuViChart) -> bool {
    &&& a.birth == b.birth
    &&& a.gender == b.gender
    &&& a.lunar == b.lunar
    &&& a.cuc == b.cuc
    &&& a.menh_branch == b.menh_branch
    &&& a.than_branch == b.than_branch
    &&& a.palaces.len() == b.palaces.len()
}

impl TuViChart {
    /// Lá số đúng khung: 12 cung đi thuận từ cung Mệnh, Cục trong 2..6, tháng âm
    /// trong 1..12.
    pub open spec fn wf(self) -> bool {
        &&& self.palaces.len() == 12
        &&& forall|i: int|
            0 <= i < 12 ==> #[trigger] self.palaces@[i].branch == EarthlyBranch::at(
                (self.menh_branch.idx() + i) % 12,
            )
        &&& 2 <= self.cuc.so <= 6
        &&& 1 <= self.lunar.month <= 12
    }

    /// Lá số có 12 cung, Chi của các cung đôi một khác nhau (thứ tự tuỳ ý).
    pub open spec fn cung_rieng(self) -> bool {
        &&& self.palaces.len() == 12
        &&& forall|i: int, j: int|
            #![trigger self.palaces@[i], self.palaces@[j]]
            0 <= i < 12 && 0 <= j < 12 && i != j ==> self.palaces@[i].branch != self.palaces@[j].branch
    }

    /// Thứ tự (0..11) của cung có Chi `b` trong lá số.
    pub open spec fn index_of(self, b: EarthlyBranch) -> int {
        (b.idx() - self.menh_branch.idx()) % 12
    }
}

/// Lỗi của module Tử Vi.
#[derive(Debug, Clone, PartialEq, Eq)]
pub enum TuViError {
    /// Bọc lỗi từ lõi âm lịch.
    Lunar(LunarError),
    /// Ngoài phạm vi hỗ trợ.
    OutOfRange(String),
    /// Lỗi nội bộ.
    Internal(String),
}

impl TuViError {
    /// Chuỗi hiển thị của lỗi (thay cho `Display`).
    pub open spec fn spec_to_string(self) -> Seq<char> {
        match self {
            TuViError::Lunar(e) => "lỗi âm lịch: "@ + e.spec_to_string(),
            TuViError::OutOfRange(s) => "ngoài phạm vi: "@ + s@,
            TuViError::Internal(s) => "lỗi nội bộ: "@ + s@,
        }
    }

    /// Chuỗi hiển thị của lỗi.
    pub fn to_string(&self) -> (r: String)
        ensures
            r@ == self.spec_to_string(),
    {
        match self {
            TuViError::Lunar(e) => {
                let mut s = String::from_str("lỗi âm lịch: ");
                let t = e.to_string();
                push_str(&mut s, t.as_str());
                s
            },
            TuViError::OutOfRange(m) => {
                let mut s = String::from_str("ngoài phạm vi: ");
                push_str(&mut s, m.as_str());
                s
            },
            TuViError::Internal(m) => {
                let mut s = String::from_str("lỗi nội bộ: ");
                push_str(&mut s, m.as_str());
                s
            },
        }
    }
}

} // verus!
