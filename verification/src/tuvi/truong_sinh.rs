//! Vòng Trường Sinh: 12 trạng thái an theo Cục, thuận hoặc nghịch.

use vstd::prelude::*;

use crate::canchi::{branch_of, EarthlyBranch};
use crate::modulo::rem_euclid_i64;

verus! {

/// 12 trạng thái của vòng Trường Sinh, theo thứ tự.
#[derive(Debug, Clone, Copy, PartialEq, Eq, Structural, Hash)]
pub enum TruongSinhState {
    /// Trường Sinh.
    TruongSinh,
    /// Mộc Dục.
    MocDuc,
    /// Quan Đới.
    QuanDoi,
    /// Lâm Quan.
    LamQuan,
    /// Đế Vượng.
    DeVuong,
    /// Suy.
    Suy,
    /// Bệnh.
    Benh,
    /// Tử.
    Tu,
    /// Mộ.
    Mo,
    /// Tuyệt.
    Tuyet,
    /// Thai.
    Thai,
    /// Dưỡng.
    Duong,
}

impl TruongSinhState {
    /// Vị trí 0..11 của trạng thái trong vòng.
    pub open spec fn idx(self) -> nat {
        match self {
            TruongSinhState::TruongSinh => 0,
            TruongSinhState::MocDuc => 1,
            TruongSinhState::QuanDoi => 2,
            TruongSinhState::LamQuan => 3,
            TruongSinhState::DeVuong => 4,
            TruongSinhState::Suy => 5,
            TruongSinhState::Benh => 6,
            TruongSinhState::Tu => 7,
            TruongSinhState::Mo => 8,
            TruongSinhState::Tuyet => 9,
            TruongSinhState::Thai => 10,
            TruongSinhState::Duong => 11,
        }
    }

    /// Trạng thái ở vị trí `i` (0..11).
    pub open spec fn at(i: int) -> TruongSinhState {
        if i == 0 {
            TruongSinhState::TruongSinh
        } else if i == 1 {
            TruongSinhState::MocDuc
        } else if i == 2 {
            TruongSinhState::QuanDoi
        } else if i == 3 {
            TruongSinhState::LamQuan
        } else if i == 4 {
            TruongSinhState::DeVuong
        } else if i == 5 {
            TruongSinhState::Suy
        } else if i == 6 {
            TruongSinhState::Benh
        } else if i == 7 {
            TruongSinhState::Tu
        } else if i == 8 {
            TruongSinhState::Mo
        } else if i == 9 {
            TruongSinhState::Tuyet
        } else if i == 10 {
            TruongSinhState::Thai
        } else {
            TruongSinhState::Duong
        }
    }

    /// Tên tiếng Việt.
    pub open spec fn name_seq(self) -> Seq<char> {
        match self {
            TruongSinhState::TruongSinh => "Trường Sinh"@,
            TruongSinhState::MocDuc => "Mộc Dục"@,
            TruongSinhState::QuanDoi => "Quan Đới"@,
            TruongSinhState::LamQuan => "Lâm Quan"@,
            TruongSinhState::DeVuong => "Đế Vượng"@,
            TruongSinhState::Suy => "Suy"@,
            TruongSinhState::Benh => "Bệnh"@,
            TruongSinhState::Tu => "Tử"@,
            TruongSinhState::Mo => "Mộ"@,
            TruongSinhState::Tuyet => "Tuyệt"@,
            TruongSinhState::Thai => "Thai"@,
            TruongSinhState::Duong => "Dưỡng"@,
        }
    }

    /// Vị trí 0..11 của trạng thái.
    pub fn index(self) -> (r: u8)
        ensures
            r == self.idx(),
    {
        match self {
            TruongSinhState::TruongSinh => 0,
            TruongSinhState::MocDuc => 1,
            TruongSinhState::QuanDoi => 2,
            TruongSinhState::LamQuan => 3,
            TruongSinhState::DeVuong => 4,
            TruongSinhState::Suy => 5,
            TruongSinhState::Benh => 6,
            TruongSinhState::Tu => 7,
            TruongSinhState::Mo => 8,
            TruongSinhState::Tuyet => 9,
            TruongSinhState::Thai => 10,
            TruongSinhState::Duong => 11,
        }
    }

    /// Tên tiếng Việt.
    pub fn name_vn(self) -> (r: &'static str)
        ensures
            r@ == self.name_seq(),
    {
        match self {
            TruongSinhState::TruongSinh => "Trường Sinh",
            TruongSinhState::MocDuc => "Mộc Dục",
            TruongSinhState::QuanDoi => "Quan Đới",
            TruongSinhState::LamQuan => "Lâm Quan",
            TruongSinhState::DeVuong => "Đế Vượng",
            TruongSinhState::Suy => "Suy",
            TruongSinhState::Benh => "Bệnh",
            TruongSinhState::Tu => "Tử",
            TruongSinhState::Mo => "Mộ",
            TruongSinhState::Tuyet => "Tuyệt",
            TruongSinhState::Thai => "Thai",
            TruongSinhState::Duong => "Dưỡng",
        }
    }

    /// Trạng thái theo vị trí `i` (0..11).
    fn of_index(i: u8) -> (r: TruongSinhState)
        requires
            i < 12,
        ensures
            r == TruongSinhState::at(i as int),
            r.idx() == i,
    {
        if i == 0 {
            TruongSinhState::TruongSinh
        } else if i == 1 {
            TruongSinhState::MocDuc
        } else if i == 2 {
            TruongSinhState::QuanDoi
        } else if i == 3 {
            TruongSinhState::LamQuan
        } else if i == 4 {
            TruongSinhState::DeVuong
        } else if i == 5 {
            TruongSinhState::Suy
        } else if i == 6 {
            TruongSinhState::Benh
        } else if i == 7 {
            TruongSinhState::Tu
        } else if i == 8 {
            TruongSinhState::Mo
        } else if i == 9 {
            TruongSinhState::Tuyet
        } else if i == 10 {
            TruongSinhState::Thai
        } else {
            TruongSinhState::Duong
        }
    }
}

/// Số Cục hợp lệ (2..6).
pub open spec fn valid_cuc_so(cuc_so: int) -> bool {
    2 <= cuc_so <= 6
}

/// Cung khởi Trường Sinh theo Cục: Thủy nhị và Thổ ngũ ở Thân, Mộc tam ở Hợi,
/// Kim tứ ở Tỵ, Hỏa lục ở Dần.
pub open spec fn spec_start_branch_of(cuc_so: int) -> EarthlyBranch {
    if cuc_so == 6 {
        EarthlyBranch::Dan
    } else if cuc_so == 4 {
        EarthlyBranch::Ty2
    } else if cuc_so == 3 {
        EarthlyBranch::Hoi
    } else {
        EarthlyBranch::Than
    }
}

/// Cung khởi Trường Sinh theo số Cục (2..6).
pub fn start_branch_of(cuc_so: u8) -> (r: EarthlyBranch)
    requires
        valid_cuc_so(cuc_so as int),
    ensures
        r == spec_start_branch_of(cuc_so as int),
{
    if cuc_so == 6 {
        EarthlyBranch::Dan
    } else if cuc_so == 4 {
        EarthlyBranch::Ty2
    } else if cuc_so == 3 {
        EarthlyBranch::Hoi
    } else {
        EarthlyBranch::Than
    }
}

/// Cung của trạng thái thứ `i`: đi `i` bước từ cung khởi, thuận hoặc nghịch.
pub open spec fn spec_truong_sinh_branch(cuc_so: int, reverse: bool, i: int) -> EarthlyBranch {
    let start = spec_start_branch_of(cuc_so).idx() as int;
    EarthlyBranch::at((if reverse { start - i } else { start + i }) % 12)
}

/// Vị trí thứ `i` của vòng.
fn position(start_idx: i64, reverse: bool, i: u8, cuc_so: Ghost<int>) -> (r: (TruongSinhState, EarthlyBranch))
    requires
        i < 12,
        0 <= start_idx < 12,
        start_idx == spec_start_branch_of(cuc_so@).idx(),
    ensures
        r.0 == TruongSinhState::at(i as int),
        r.1 == spec_truong_sinh_branch(cuc_so@, reverse, i as int),
{
    let offset: i64 = if reverse {
        -(i as i64)
    } else {
        i as i64
    };
    let branch_idx = rem_euclid_i64(start_idx + offset, 12);
    (TruongSinhState::of_index(i), branch_of(branch_idx as u8))
}

/// 12 cặp (trạng thái, cung) của vòng Trường Sinh, theo thứ tự trạng thái.
pub fn truong_sinh_positions(cuc_so: u8, menh_branch: EarthlyBranch, reverse: bool) -> (r: [(
    TruongSinhState,
    EarthlyBranch,
); 12])
    requires
        valid_cuc_so(cuc_so as int),
    ensures
        forall|i: int|
            0 <= i < 12 ==> #[trigger] r@[i] == (
                TruongSinhState::at(i),
                spec_truong_sinh_branch(cuc_so as int, reverse, i),
            ),
{
    let start = start_branch_of(cuc_so);
    let s = start.index() as i64;
    let g = Ghost(cuc_so as int);
    let r = [
        position(s, reverse, 0, g),
        position(s, reverse, 1, g),
        position(s, reverse, 2, g),
        position(s, reverse, 3, g),
        position(s, reverse, 4, g),
        position(s, reverse, 5, g),
        position(s, reverse, 6, g),
        position(s, reverse, 7, g),
        position(s, reverse, 8, g),
        position(s, reverse, 9, g),
        position(s, reverse, 10, g),
        position(s, reverse, 11, g),
    ];
    r
}

/// Thứ tự (0..11) của trạng thái đóng ở cung `b` trong vòng Trường Sinh.
pub open spec fn truong_sinh_index_of(cuc_so: int, reverse: bool, b: EarthlyBranch) -> int {
    let start = spec_start_branch_of(cuc_so).idx() as int;
    if reverse {
        (start - b.idx()) % 12
    } else {
        (b.idx() - start) % 12
    }
}

/// Vòng Trường Sinh đi qua đủ 12 cung, mỗi cung đúng một lần.
pub proof fn lemma_truong_sinh_visits_all(cuc_so: int, reverse: bool)
    requires
        valid_cuc_so(cuc_so),
    ensures
        forall|i: int, j: int|
            0 <= i < 12 && 0 <= j < 12 && i != j ==> #[trigger] spec_truong_sinh_branch(
                cuc_so,
                reverse,
                i,
            ) != #[trigger] spec_truong_sinh_branch(cuc_so, reverse, j),
        forall|b: EarthlyBranch|
            0 <= #[trigger] truong_sinh_index_of(cuc_so, reverse, b) < 12
                && spec_truong_sinh_branch(cuc_so, reverse, truong_sinh_index_of(cuc_so, reverse, b))
                == b,
{
    let start = spec_start_branch_of(cuc_so).idx() as int;
    assert forall|i: int, j: int|
        0 <= i < 12 && 0 <= j < 12 && i != j implies #[trigger] spec_truong_sinh_branch(
            cuc_so,
            reverse,
            i,
        ) != #[trigger] spec_truong_sinh_branch(cuc_so, reverse, j) by {
        let x = if reverse { start - i } else { start + i };
        let y = if reverse { start - j } else { start + j };
        crate::modulo::lemma_mod12_near(x);
        crate::modulo::lemma_mod12_near(y);
        crate::canchi::lemma_branch_at_idx(x % 12, EarthlyBranch::Ty);
        crate::canchi::lemma_branch_at_idx(y % 12, EarthlyBranch::Ty);
    }
    assert forall|b: EarthlyBranch|
        0 <= #[trigger] truong_sinh_index_of(cuc_so, reverse, b) < 12
            && spec_truong_sinh_branch(cuc_so, reverse, truong_sinh_index_of(cuc_so, reverse, b))
            == b by {
        let k = truong_sinh_index_of(cuc_so, reverse, b);
        let d = if reverse { start - b.idx() } else { b.idx() - start };
        crate::modulo::lemma_mod12_near(d);
        let x = if reverse { start - k } else { start + k };
        crate::modulo::lemma_mod12_near(x);
        crate::canchi::lemma_branch_at_idx(b.idx() as int, b);
    }
}

/// Vòng Trường Sinh khởi theo Cục: Thủy nhị Cục và Thổ ngũ Cục ở Thân, Mộc tam
/// Cục ở Hợi, Kim tứ Cục ở Tỵ, Hỏa lục Cục ở Dần; trạng thái thứ `i` đứng cách cung
/// khởi `i` cung, đi thuận hoặc nghịch.
pub proof fn lemma_bang_truong_sinh(cuc_so: int, reverse: bool, i: int)
    requires
        2 <= cuc_so <= 6,
    ensures
        ({
            let start = seq![8int, 11, 5, 8, 2][cuc_so - 2];
            spec_truong_sinh_branch(cuc_so, reverse, i) == EarthlyBranch::at(
                (if reverse { start - i } else { start + i }) % 12,
            )
        }),
{
    if cuc_so == 2 {
    } else if cuc_so == 3 {
    } else if cuc_so == 4 {
    } else if cuc_so == 5 {
    } else {
    }
}

/// Tên tiếng Việt của 12 trạng thái Trường Sinh.
pub proof fn lemma_bang_name_seq_truongsinhstate()
    ensures
        TruongSinhState::TruongSinh.name_seq() == "Trường Sinh"@,
        TruongSinhState::MocDuc.name_seq() == "Mộc Dục"@,
        TruongSinhState::QuanDoi.name_seq() == "Quan Đới"@,
        TruongSinhState::LamQuan.name_seq() == "Lâm Quan"@,
        TruongSinhState::DeVuong.name_seq() == "Đế Vượng"@,
        TruongSinhState::Suy.name_seq() == "Suy"@,
        TruongSinhState::Benh.name_seq() == "Bệnh"@,
        TruongSinhState::Tu.name_seq() == "Tử"@,
        TruongSinhState::Mo.name_seq() == "Mộ"@,
        TruongSinhState::Tuyet.name_seq() == "Tuyệt"@,
        TruongSinhState::Thai.name_seq() == "Thai"@,
        TruongSinhState::Duong.name_seq() == "Dưỡng"@,
{
}

} // verus!
