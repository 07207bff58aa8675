//! Hoàng Đạo / Hắc Đạo: 12 vị Thần trực nhật xoay vòng theo Chi.
//!
//! Thanh Long khởi tại cung `(2 × chỉ số Chi gốc + 8) mod 12`; các Thần khác nối
//! tiếp thuận chiều. Với ngày, Chi gốc là Chi tháng âm và vị trí là Chi ngày;
//! với giờ, Chi gốc là Chi ngày và vị trí là Chi giờ.

use vstd::prelude::*;

use crate::canchi::{branch_of, CanChi, EarthlyBranch};
use crate::trach_nhat::types::{HoangDaoHacDao, HourRange, ThanSat};

verus! {

/// Cung khởi Thanh Long theo Chi gốc.
pub open spec fn spec_khoi_thanh_long(chi_goc: EarthlyBranch) -> int {
    ((2 * chi_goc.idx() + 8) % 12) as int
}

/// Thần trực tại Chi `vi_tri` khi Chi gốc là `chi_goc`.
pub open spec fn spec_than_tai(chi_goc: EarthlyBranch, vi_tri: EarthlyBranch) -> ThanSat {
    ThanSat::at((vi_tri.idx() + 12 - spec_khoi_thanh_long(chi_goc)) % 12)
}

/// Giờ đồng hồ bắt đầu khung giờ của Chi: Tý từ 23h, mỗi Chi sau thêm 2 tiếng.
pub open spec fn spec_gio_bat_dau(b: EarthlyBranch) -> int {
    if b.idx() == 0 {
        23
    } else {
        b.idx() * 2 - 1
    }
}

/// Khung giờ thứ `i` (Tý = 0) của ngày có Chi `chi_ngay`.
pub open spec fn spec_hour_range(chi_ngay: EarthlyBranch, i: int) -> HourRange {
    let b = EarthlyBranch::at(i);
    HourRange {
        branch: b,
        than: spec_than_tai(chi_ngay, b),
        start_hour: spec_gio_bat_dau(b) as u8,
        end_hour: ((spec_gio_bat_dau(b) + 1) % 24) as u8,
    }
}

/// Cung khởi Thanh Long theo Chi gốc.
pub fn khoi_thanh_long(chi_goc: EarthlyBranch) -> (r: u8)
    ensures
        r == spec_khoi_thanh_long(chi_goc),
        r < 12,
{
    (2 * chi_goc.index() + 8) % 12
}

/// Thần trực tại Chi `vi_tri` khi Chi gốc là `chi_goc`.
pub fn than_tai(chi_goc: EarthlyBranch, vi_tri: EarthlyBranch) -> (r: ThanSat)
    ensures
        r == spec_than_tai(chi_goc, vi_tri),
{
    let khoi = khoi_thanh_long(chi_goc);
    let idx = (vi_tri.index() + 12 - khoi) % 12;
    match ThanSat::from_index(idx) {
        Some(t) => t,
        None => ThanSat::ThanhLong,
    }
}

/// Giờ bắt đầu khung giờ của Chi.
pub fn gio_bat_dau(branch: EarthlyBranch) -> (r: u8)
    ensures
        r == spec_gio_bat_dau(branch),
{
    let i = branch.index();
    if i == 0 {
        23
    } else {
        i * 2 - 1
    }
}

/// 12 khung giờ của ngày (Tý → Hợi) kèm Thần trực giờ (Chi gốc là Chi ngày).
pub fn cac_gio_trong_ngay(day: CanChi) -> (r: Vec<HourRange>)
    ensures
        r.len() == 12,
        forall|i: int| 0 <= i < 12 ==> #[trigger] r@[i] == spec_hour_range(day.branch, i),
{
    let mut out: Vec<HourRange> = Vec::new();
    let mut i: u8 = 0;
    while i < 12
        invariant
            i <= 12,
            out.len() == i,
            forall|k: int| 0 <= k < i ==> #[trigger] out@[k] == spec_hour_range(day.branch, k),
        decreases 12 - i,
    {
        let branch = branch_of(i);
        let start = gio_bat_dau(branch);
        out.push(
            HourRange {
                branch,
                than: than_tai(day.branch, branch),
                start_hour: start,
                end_hour: (start + 1) % 24,
            },
        );
        i = i + 1;
    }
    out
}

/// Thần trực ngày (Chi gốc là Chi tháng âm) và kết luận Hoàng Đạo / Hắc Đạo.
pub fn danh_gia_ngay(day: CanChi, thang_am_branch: EarthlyBranch) -> (r: HoangDaoHacDao)
    ensures
        r.than == spec_than_tai(thang_am_branch, day.branch),
        r.is_hoang_dao == r.than.spec_is_hoang_dao(),
{
    let than = than_tai(thang_am_branch, day.branch);
    HoangDaoHacDao { than, is_hoang_dao: than.is_hoang_dao() }
}

/// Số khung giờ Hoàng Đạo trong `n` khung giờ đầu của ngày có Chi `chi_ngay`.
pub open spec fn so_gio_hoang_dao(chi_ngay: EarthlyBranch, n: int) -> int
    decreases n,
{
    if n <= 0 {
        0
    } else {
        so_gio_hoang_dao(chi_ngay, n - 1) + if spec_hour_range(chi_ngay, n - 1).than.spec_is_hoang_dao() {
            1int
        } else {
            0int
        }
    }
}

/// Mỗi ngày có đúng 6 giờ Hoàng Đạo.
pub proof fn lemma_sau_gio_hoang_dao(chi_ngay: EarthlyBranch)
    ensures
        so_gio_hoang_dao(chi_ngay, 12) == 6,
{
    match chi_ngay {
        EarthlyBranch::Ty => {
            lemma_count_for(EarthlyBranch::Ty);
        },
        EarthlyBranch::Suu => {
            lemma_count_for(EarthlyBranch::Suu);
        },
        EarthlyBranch::Dan => {
            lemma_count_for(EarthlyBranch::Dan);
        },
        EarthlyBranch::Mao => {
            lemma_count_for(EarthlyBranch::Mao);
        },
        EarthlyBranch::Thin => {
            lemma_count_for(EarthlyBranch::Thin);
        },
        EarthlyBranch::Ty2 => {
            lemma_count_for(EarthlyBranch::Ty2);
        },
        EarthlyBranch::Ngo => {
            lemma_count_for(EarthlyBranch::Ngo);
        },
        EarthlyBranch::Mui => {
            lemma_count_for(EarthlyBranch::Mui);
        },
        EarthlyBranch::Than => {
            lemma_count_for(EarthlyBranch::Than);
        },
        EarthlyBranch::Dau => {
            lemma_count_for(EarthlyBranch::Dau);
        },
        EarthlyBranch::Tuat => {
            lemma_count_for(EarthlyBranch::Tuat);
        },
        EarthlyBranch::Hoi => {
            lemma_count_for(EarthlyBranch::Hoi);
        },
    }
}

/// Số Thần Hoàng Đạo trong `n` vị trí đầu của vòng khi Thanh Long khởi ở `k`.
pub open spec fn count_from(k: int, n: int) -> int
    decreases n,
{
    if n <= 0 {
        0
    } else {
        count_from(k, n - 1) + if ThanSat::at((n - 1 + 12 - k) % 12).spec_is_hoang_dao() {
            1int
        } else {
            0int
        }
    }
}

/// Đếm giờ Hoàng Đạo chỉ phụ thuộc cung khởi Thanh Long.
proof fn lemma_count_by_khoi(b: EarthlyBranch, n: int)
    requires
        0 <= n <= 12,
    ensures
        so_gio_hoang_dao(b, n) == count_from(spec_khoi_thanh_long(b), n),
    decreases n,
{
    if n > 0 {
        lemma_count_by_khoi(b, n - 1);
        crate::canchi::lemma_branch_at_idx(n - 1, EarthlyBranch::Ty);
    }
}

/// Đếm giờ Hoàng Đạo của một Chi ngày cụ thể.
proof fn lemma_count_for(b: EarthlyBranch)
    ensures
        so_gio_hoang_dao(b, 12) == 6,
{
    lemma_count_by_khoi(b, 12);
    let k = spec_khoi_thanh_long(b);
    reveal_with_fuel(count_from, 13);
    if k == 0 {
        assert(count_from(0, 12) == 6);
    } else if k == 2 {
        assert(count_from(2, 12) == 6);
    } else if k == 4 {
        assert(count_from(4, 12) == 6);
    } else if k == 6 {
        assert(count_from(6, 12) == 6);
    } else if k == 8 {
        assert(count_from(8, 12) == 6);
    } else {
        assert(k == 10);
        assert(count_from(10, 12) == 6);
    }
}

/// 12 khung giờ của một ngày mang 12 vị Thần khác nhau.
pub proof fn lemma_muoi_hai_than_khac_nhau(chi_ngay: EarthlyBranch)
    ensures
        forall|i: int, j: int|
            0 <= i < 12 && 0 <= j < 12 && i != j ==> #[trigger] spec_hour_range(chi_ngay, i).than
                != #[trigger] spec_hour_range(chi_ngay, j).than,
{
    let k = spec_khoi_thanh_long(chi_ngay);
    assert forall|i: int, j: int|
        0 <= i < 12 && 0 <= j < 12 && i != j implies #[trigger] spec_hour_range(chi_ngay, i).than
        != #[trigger] spec_hour_range(chi_ngay, j).than by {
        crate::canchi::lemma_branch_at_idx(i, EarthlyBranch::Ty);
        crate::canchi::lemma_branch_at_idx(j, EarthlyBranch::Ty);
        crate::modulo::lemma_mod12_near(i + 12 - k);
        crate::modulo::lemma_mod12_near(j + 12 - k);
        lemma_than_at_idx((i + 12 - k) % 12);
        lemma_than_at_idx((j + 12 - k) % 12);
    }
}

/// Thần ở vị trí `i` có đúng chỉ số `i`.
pub proof fn lemma_than_at_idx(i: int)
    ensures
        0 <= i < 12 ==> ThanSat::at(i).idx() == i,
{
}

/// Vòng 12 Thần theo bảng: Thanh Long khởi theo Chi gốc (Dần, Thân ở Tý; Mão,
/// Dậu ở Dần; Thìn, Tuất ở Thìn; Tỵ, Hợi ở Ngọ; Tý, Ngọ ở Thân; Sửu, Mùi ở
/// Tuất), rồi thuận chiều Minh Đường, Thiên Hình, Chu Tước, Kim Quỹ, Thiên Đức,
/// Bạch Hổ, Ngọc Đường, Thiên Lao, Nguyên Vũ, Tư Mệnh, Câu Trận. Hoàng Đạo là
/// Thanh Long, Minh Đường, Kim Quỹ, Thiên Đức, Ngọc Đường, Tư Mệnh. Khung giờ của
/// Chi bắt đầu lúc 23h (Tý), 1h, 3h, …, 21h (Hợi).
pub proof fn lemma_bang_hoang_dao(chi_goc: EarthlyBranch, vi_tri: EarthlyBranch)
    ensures
        ({
            let khoi = seq![8int, 10, 0, 2, 4, 6, 8, 10, 0, 2, 4, 6][chi_goc.idx() as int];
            let d = (vi_tri.idx() + 12 - khoi) % 12;
            let t = spec_than_tai(chi_goc, vi_tri);
            &&& t == seq![ThanSat::ThanhLong, ThanSat::MinhDuong, ThanSat::ThienHinh, ThanSat::ChuTuoc, ThanSat::KimQuy, ThanSat::ThienDuc, ThanSat::BachHo, ThanSat::NgocDuong, ThanSat::ThienLao, ThanSat::NguyenVu, ThanSat::TuMenh, ThanSat::CauTran][d]
            &&& t.spec_is_hoang_dao() <==> (d == 0 || d == 1 || d == 4 || d == 5 || d == 7 || d == 10)
            &&& spec_gio_bat_dau(vi_tri) == seq![23int, 1, 3, 5, 7, 9, 11, 13, 15, 17, 19, 21][vi_tri.idx() as int]
        }),
{
    let khoi = seq![8int, 10, 0, 2, 4, 6, 8, 10, 0, 2, 4, 6][chi_goc.idx() as int];
    assert(spec_khoi_thanh_long(chi_goc) == khoi);
    let d = (vi_tri.idx() + 12 - khoi) % 12;
    assert(0 <= d < 12);
    if d == 0 {} else if d == 1 {} else if d == 2 {} else if d == 3 {} else if d == 4 {}
    else if d == 5 {} else if d == 6 {} else if d == 7 {} else if d == 8 {} else if d == 9 {}
    else if d == 10 {} else {}
}

} // verus!
