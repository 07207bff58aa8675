//! Can–Chi (Thiên Can × Địa Chi), Ngũ Hành, và các quy tắc "Ngũ Thử Độn" cho
//! tháng và giờ.
//!
//! # Quy ước chỉ số
//!
//! - 10 Can: chỉ số 0..9 = Giáp, Ất, Bính, Đinh, Mậu, Kỷ, Canh, Tân, Nhâm, Quý.
//! - 12 Chi: chỉ số 0..11 = Tý, Sửu, Dần, Mão, Thìn, Tỵ, Ngọ, Mùi, Thân, Dậu,
//!   Tuất, Hợi.

use vstd::prelude::*;

use crate::modulo::rem_euclid_i64;

verus! {

// ===========================================================================
// Thiên Can
// ===========================================================================

/// 10 Thiên Can, thứ tự cố định.
#[derive(Debug, Clone, Copy, PartialEq, Eq, Structural, Hash)]
pub enum HeavenlyStem {
    Giap,
    At,
    Binh,
    Dinh,
    Mau,
    Ky,
    Canh,
    Tan,
    Nham,
    Quy,
}

impl HeavenlyStem {
    /// Vị trí 0..9 của Can trong vòng 10 Can.
    pub open spec fn idx(self) -> nat {
        match self {
            HeavenlyStem::Giap => 0,
            HeavenlyStem::At => 1,
            HeavenlyStem::Binh => 2,
            HeavenlyStem::Dinh => 3,
            HeavenlyStem::Mau => 4,
            HeavenlyStem::Ky => 5,
            HeavenlyStem::Canh => 6,
            HeavenlyStem::Tan => 7,
            HeavenlyStem::Nham => 8,
            HeavenlyStem::Quy => 9,
        }
    }

    /// Can ở vị trí `i` (0..9) của vòng; ngoài khoảng đó không dùng tới.
    pub open spec fn at(i: int) -> HeavenlyStem {
        if i == 0 {
            HeavenlyStem::Giap
        } else if i == 1 {
            HeavenlyStem::At
        } else if i == 2 {
            HeavenlyStem::Binh
        } else if i == 3 {
            HeavenlyStem::Dinh
        } else if i == 4 {
            HeavenlyStem::Mau
        } else if i == 5 {
            HeavenlyStem::Ky
        } else if i == 6 {
            HeavenlyStem::Canh
        } else if i == 7 {
            HeavenlyStem::Tan
        } else if i == 8 {
            HeavenlyStem::Nham
        } else {
            HeavenlyStem::Quy
        }
    }

    /// Tên tiếng Việt có dấu.
    pub open spec fn name_seq(self) -> Seq<char> {
        match self {
            HeavenlyStem::Giap => "Giáp"@,
            HeavenlyStem::At => "Ất"@,
            HeavenlyStem::Binh => "Bính"@,
            HeavenlyStem::Dinh => "Đinh"@,
            HeavenlyStem::Mau => "Mậu"@,
            HeavenlyStem::Ky => "Kỷ"@,
            HeavenlyStem::Canh => "Canh"@,
            HeavenlyStem::Tan => "Tân"@,
            HeavenlyStem::Nham => "Nhâm"@,
            HeavenlyStem::Quy => "Quý"@,
        }
    }

    /// Chỉ số 0..9.
    pub fn index(self) -> (r: u8)
        ensures
            r == self.idx(),
            r < 10,
    {
        match self {
            HeavenlyStem::Giap => 0,
            HeavenlyStem::At => 1,
            HeavenlyStem::Binh => 2,
            HeavenlyStem::Dinh => 3,
            HeavenlyStem::Mau => 4,
            HeavenlyStem::Ky => 5,
            HeavenlyStem::Canh => 6,
            HeavenlyStem::Tan => 7,
            HeavenlyStem::Nham => 8,
            HeavenlyStem::Quy => 9,
        }
    }

    /// Tên tiếng Việt đầy đủ có dấu.
    pub fn name_vn(self) -> (r: &'static str)
        ensures
            r@ == self.name_seq(),
    {
        match self {
            HeavenlyStem::Giap => "Giáp",
            HeavenlyStem::At => "Ất",
            HeavenlyStem::Binh => "Bính",
            HeavenlyStem::Dinh => "Đinh",
            HeavenlyStem::Mau => "Mậu",
            HeavenlyStem::Ky => "Kỷ",
            HeavenlyStem::Canh => "Canh",
            HeavenlyStem::Tan => "Tân",
            HeavenlyStem::Nham => "Nhâm",
            HeavenlyStem::Quy => "Quý",
        }
    }

    /// Can theo chỉ số 0..9; `None` nếu ngoài phạm vi.
    pub fn from_index(i: u8) -> (r: Option<HeavenlyStem>)
        ensures
            i < 10 ==> r == Some(HeavenlyStem::at(i as int)),
            i >= 10 ==> r is None,
            r matches Some(s) ==> s.idx() == i,
    {
        if i == 0 {
            Some(HeavenlyStem::Giap)
        } else if i == 1 {
            Some(HeavenlyStem::At)
        } else if i == 2 {
            Some(HeavenlyStem::Binh)
        } else if i == 3 {
            Some(HeavenlyStem::Dinh)
        } else if i == 4 {
            Some(HeavenlyStem::Mau)
        } else if i == 5 {
            Some(HeavenlyStem::Ky)
        } else if i == 6 {
            Some(HeavenlyStem::Canh)
        } else if i == 7 {
            Some(HeavenlyStem::Tan)
        } else if i == 8 {
            Some(HeavenlyStem::Nham)
        } else if i == 9 {
            Some(HeavenlyStem::Quy)
        } else {
            None
        }
    }
}

/// Can ở vị trí `i` có đúng chỉ số `i`, và mỗi Can là Can ở vị trí của nó.
pub proof fn lemma_stem_at_idx(i: int, s: HeavenlyStem)
    ensures
        0 <= i < 10 ==> HeavenlyStem::at(i).idx() == i,
        HeavenlyStem::at(s.idx() as int) == s,
{
}

/// Dựng Can từ một chỉ số đã biết là hợp lệ.
pub fn stem_of(i: u8) -> (r: HeavenlyStem)
    requires
        i < 10,
    ensures
        r == HeavenlyStem::at(i as int),
        r.idx() == i,
{
    match HeavenlyStem::from_index(i) {
        Some(s) => s,
        None => HeavenlyStem::Giap,
    }
}

// ===========================================================================
// Địa Chi
// ===========================================================================

/// 12 Địa Chi, thứ tự cố định. `Ty` là Tý (chuột), `Ty2` là Tỵ (rắn).
#[derive(Debug, Clone, Copy, PartialEq, Eq, Structural, Hash)]
pub enum EarthlyBranch {
    Ty,
    Suu,
    Dan,
    Mao,
    Thin,
    Ty2,
    Ngo,
    Mui,
    Than,
    Dau,
    Tuat,
    Hoi,
}

impl EarthlyBranch {
    /// Vị trí 0..11 của Chi trong vòng 12 Chi.
    pub open spec fn idx(self) -> nat {
        match self {
            EarthlyBranch::Ty => 0,
            EarthlyBranch::Suu => 1,
            EarthlyBranch::Dan => 2,
            EarthlyBranch::Mao => 3,
            EarthlyBranch::Thin => 4,
            EarthlyBranch::Ty2 => 5,
            EarthlyBranch::Ngo => 6,
            EarthlyBranch::Mui => 7,
            EarthlyBranch::Than => 8,
            EarthlyBranch::Dau => 9,
            EarthlyBranch::Tuat => 10,
            EarthlyBranch::Hoi => 11,
        }
    }

    /// Chi ở vị trí `i` (0..11) của vòng.
    pub open spec fn at(i: int) -> EarthlyBranch {
        if i == 0 {
            EarthlyBranch::Ty
        } else if i == 1 {
            EarthlyBranch::Suu
        } else if i == 2 {
            EarthlyBranch::Dan
        } else if i == 3 {
            EarthlyBranch::Mao
        } else if i == 4 {
            EarthlyBranch::Thin
        } else if i == 5 {
            EarthlyBranch::Ty2
        } else if i == 6 {
            EarthlyBranch::Ngo
        } else if i == 7 {
            EarthlyBranch::Mui
        } else if i == 8 {
            EarthlyBranch::Than
        } else if i == 9 {
            EarthlyBranch::Dau
        } else if i == 10 {
            EarthlyBranch::Tuat
        } else {
            EarthlyBranch::Hoi
        }
    }

    /// Tên tiếng Việt có dấu.
    pub open spec fn name_seq(self) -> Seq<char> {
        match self {
            EarthlyBranch::Ty => "Tý"@,
            EarthlyBranch::Suu => "Sửu"@,
            EarthlyBranch::Dan => "Dần"@,
            EarthlyBranch::Mao => "Mão"@,
            EarthlyBranch::Thin => "Thìn"@,
            EarthlyBranch::Ty2 => "Tỵ"@,
            EarthlyBranch::Ngo => "Ngọ"@,
            EarthlyBranch::Mui => "Mùi"@,
            EarthlyBranch::Than => "Thân"@,
            EarthlyBranch::Dau => "Dậu"@,
            EarthlyBranch::Tuat => "Tuất"@,
            EarthlyBranch::Hoi => "Hợi"@,
        }
    }

    /// Chỉ số 0..11.
    pub fn index(self) -> (r: u8)
        ensures
            r == self.idx(),
            r < 12,
    {
        match self {
            EarthlyBranch::Ty => 0,
            EarthlyBranch::Suu => 1,
            EarthlyBranch::Dan => 2,
            EarthlyBranch::Mao => 3,
            EarthlyBranch::Thin => 4,
            EarthlyBranch::Ty2 => 5,
            EarthlyBranch::Ngo => 6,
            EarthlyBranch::Mui => 7,
            EarthlyBranch::Than => 8,
            EarthlyBranch::Dau => 9,
            EarthlyBranch::Tuat => 10,
            EarthlyBranch::Hoi => 11,
        }
    }

    /// Tên tiếng Việt đầy đủ có dấu.
    pub fn name_vn(self) -> (r: &'static str)
        ensures
            r@ == self.name_seq(),
    {
        match self {
            EarthlyBranch::Ty => "Tý",
            EarthlyBranch::Suu => "Sửu",
            EarthlyBranch::Dan => "Dần",
            EarthlyBranch::Mao => "Mão",
            EarthlyBranch::Thin => "Thìn",
            EarthlyBranch::Ty2 => "Tỵ",
            EarthlyBranch::Ngo => "Ngọ",
            EarthlyBranch::Mui => "Mùi",
            EarthlyBranch::Than => "Thân",
            EarthlyBranch::Dau => "Dậu",
            EarthlyBranch::Tuat => "Tuất",
            EarthlyBranch::Hoi => "Hợi",
        }
    }

    /// Chi theo chỉ số 0..11; `None` nếu ngoài phạm vi.
    pub fn from_index(i: u8) -> (r: Option<EarthlyBranch>)
        ensures
            i < 12 ==> r == Some(EarthlyBranch::at(i as int)),
            i >= 12 ==> r is None,
            r matches Some(b) ==> b.idx() == i,
    {
        if i == 0 {
            Some(EarthlyBranch::Ty)
        } else if i == 1 {
            Some(EarthlyBranch::Suu)
        } else if i == 2 {
            Some(EarthlyBranch::Dan)
        } else if i == 3 {
            Some(EarthlyBranch::Mao)
        } else if i == 4 {
            Some(EarthlyBranch::Thin)
        } else if i == 5 {
            Some(EarthlyBranch::Ty2)
        } else if i == 6 {
            Some(EarthlyBranch::Ngo)
        } else if i == 7 {
            Some(EarthlyBranch::Mui)
        } else if i == 8 {
            Some(EarthlyBranch::Than)
        } else if i == 9 {
            Some(EarthlyBranch::Dau)
        } else if i == 10 {
            Some(EarthlyBranch::Tuat)
        } else if i == 11 {
            Some(EarthlyBranch::Hoi)
        } else {
            None
        }
    }
}

/// Chi ở vị trí `i` có đúng chỉ số `i`, và mỗi Chi là Chi ở vị trí của nó.
pub proof fn lemma_branch_at_idx(i: int, b: EarthlyBranch)
    ensures
        0 <= i < 12 ==> EarthlyBranch::at(i).idx() == i,
        EarthlyBranch::at(b.idx() as int) == b,
{
}

/// Dựng Chi từ một chỉ số đã biết là hợp lệ.
pub fn branch_of(i: u8) -> (r: EarthlyBranch)
    requires
        i < 12,
    ensures
        r == EarthlyBranch::at(i as int),
        r.idx() == i,
{
    match EarthlyBranch::from_index(i) {
        Some(b) => b,
        None => EarthlyBranch::Ty,
    }
}

// ===========================================================================
// Ngũ Hành
// ===========================================================================

/// Tên gọi khác của [`NguHanh`].
pub type NguHanhElement = NguHanh;

/// Ngũ Hành.
#[derive(Debug, Clone, Copy, PartialEq, Eq, Structural, Hash)]
pub enum NguHanh {
    Kim,
    Moc,
    Thuy,
    Hoa,
    Tho,
}

impl NguHanh {
    /// Tên tiếng Việt có dấu.
    pub open spec fn name_seq(self) -> Seq<char> {
        match self {
            NguHanh::Kim => "Kim"@,
            NguHanh::Moc => "Mộc"@,
            NguHanh::Thuy => "Thủy"@,
            NguHanh::Hoa => "Hỏa"@,
            NguHanh::Tho => "Thổ"@,
        }
    }

    /// Tên tiếng Việt có dấu.
    pub fn name_vn(self) -> (r: &'static str)
        ensures
            r@ == self.name_seq(),
    {
        match self {
            NguHanh::Kim => "Kim",
            NguHanh::Moc => "Mộc",
            NguHanh::Thuy => "Thủy",
            NguHanh::Hoa => "Hỏa",
            NguHanh::Tho => "Thổ",
        }
    }
}

/// Cặp Can–Chi. Ví dụ năm 2024 → Giáp Thìn.
#[derive(Debug, Clone, Copy, PartialEq, Eq, Structural, Hash)]
pub struct CanChi {
    pub stem: HeavenlyStem,
    pub branch: EarthlyBranch,
}

/// Cặp Can–Chi theo chỉ số Can `s` và chỉ số Chi `b`.
pub open spec fn can_chi_at(s: int, b: int) -> CanChi {
    CanChi { stem: HeavenlyStem::at(s), branch: EarthlyBranch::at(b) }
}

// ===========================================================================
// Quy tắc Can–Chi
// ===========================================================================

/// Can–Chi của năm: Can = (năm + 6) mod 10, Chi = (năm + 8) mod 12.
pub open spec fn spec_year_can_chi(year: int) -> CanChi {
    can_chi_at((year + 6) % 10, (year + 8) % 12)
}

/// Can của tháng 1 theo Can năm (Ngũ Thử Độn): (Can năm mod 5) × 2 + 2, mod 10.
pub open spec fn month_one_stem(year_can: HeavenlyStem) -> int {
    (((year_can.idx() % 5) * 2 + 2) as int) % 10
}

/// Can–Chi tháng âm `m` (1..12): Can tiến từ Can tháng 1, Chi từ Dần.
pub open spec fn spec_month_can_chi(year_can: HeavenlyStem, m: int) -> CanChi {
    can_chi_at((month_one_stem(year_can) + m - 1) % 10, (m + 1) % 12)
}

/// Can–Chi của ngày có Julian Day `jd`: Can = (jd + 9) mod 10, Chi = (jd + 1) mod 12.
pub open spec fn spec_day_can_chi(jd: int) -> CanChi {
    can_chi_at((jd + 9) % 10, (jd + 1) % 12)
}

/// Chỉ số Chi của giờ đồng hồ `h`: giờ Tý gồm 23h và 0h, mỗi Chi 2 tiếng.
pub open spec fn hour_branch_idx(h: int) -> int {
    ((h + 1) / 2) % 12
}

/// Can–Chi của giờ (Ngũ Thử Độn Thời): Can giờ Tý = (Can ngày mod 5) × 2.
pub open spec fn spec_hour_can_chi(day_can: HeavenlyStem, h: int) -> CanChi {
    can_chi_at((((day_can.idx() % 5) * 2) as int + hour_branch_idx(h)) % 10, hour_branch_idx(h))
}

/// Can–Chi của năm (âm lịch) `year`.
pub fn year_can_chi(year: i64) -> (r: CanChi)
    requires
        year <= i64::MAX - 8,
    ensures
        r == spec_year_can_chi(year as int),
        r.stem.idx() == (year + 6) % 10,
        r.branch.idx() == (year + 8) % 12,
{
    let can_i = rem_euclid_i64(year + 6, 10) as u8;
    let chi_i = rem_euclid_i64(year + 8, 12) as u8;
    CanChi { stem: stem_of(can_i), branch: branch_of(chi_i) }
}

/// Can–Chi của tháng âm theo quy tắc "Ngũ Thử Độn": tháng 1 là tháng Dần, Can
/// tháng 1 là Bính (năm Giáp/Kỷ), Mậu (Ất/Canh), Canh (Bính/Tân), Nhâm
/// (Đinh/Nhâm), Giáp (Mậu/Quý); mỗi tháng sau tiến một Can, một Chi.
pub fn month_can_chi(lunar_year_can: HeavenlyStem, lunar_month: u8) -> (r: CanChi)
    ensures
        r == spec_month_can_chi(lunar_year_can, lunar_month as int),
{
    let y = lunar_year_can.index() as i64;
    let base = rem_euclid_i64((y % 5) * 2 + 2, 10);
    let can = rem_euclid_i64(base + lunar_month as i64 - 1, 10) as u8;
    let chi = ((lunar_month as i64 + 1) % 12) as u8;
    CanChi { stem: stem_of(can), branch: branch_of(chi) }
}

/// Can–Chi của ngày có Julian Day Number `jd` (chu kỳ 60 Giáp Tý liên tục).
pub fn day_can_chi(jd: i64) -> (r: CanChi)
    requires
        jd <= i64::MAX - 9,
    ensures
        r == spec_day_can_chi(jd as int),
{
    let can = rem_euclid_i64(jd + 9, 10) as u8;
    let chi = rem_euclid_i64(jd + 1, 12) as u8;
    CanChi { stem: stem_of(can), branch: branch_of(chi) }
}

/// Can–Chi của giờ (12 giờ Địa Chi, giờ Tý từ 23h), theo "Ngũ Thử Độn Thời".
pub fn hour_can_chi(day_can: HeavenlyStem, hour: u8) -> (r: CanChi)
    ensures
        r == spec_hour_can_chi(day_can, hour as int),
{
    let d = day_can.index() as i64;
    let hour_chi = ((hour as i64 + 1) / 2) % 12;
    let base = rem_euclid_i64((d % 5) * 2, 10);
    let can = rem_euclid_i64(base + hour_chi, 10) as u8;
    CanChi { stem: stem_of(can), branch: branch_of(hour_chi as u8) }
}

// ===========================================================================
// Ngũ Hành của Can / Chi
// ===========================================================================

/// Ngũ Hành theo cặp Can: Giáp Ất Mộc, Bính Đinh Hỏa, Mậu Kỷ Thổ, Canh Tân Kim,
/// Nhâm Quý Thủy.
pub open spec fn spec_nguhanh_of_stem(s: HeavenlyStem) -> NguHanh {
    let p = s.idx() / 2;
    if p == 0 {
        NguHanh::Moc
    } else if p == 1 {
        NguHanh::Hoa
    } else if p == 2 {
        NguHanh::Tho
    } else if p == 3 {
        NguHanh::Kim
    } else {
        NguHanh::Thuy
    }
}

/// Ngũ Hành theo mùa của Chi: Dần Mão Mộc, Tỵ Ngọ Hỏa, Thân Dậu Kim, Tý Hợi
/// Thủy; Sửu Thìn Mùi Tuất (bốn tháng cuối mùa) Thổ.
pub open spec fn spec_nguhanh_of_branch(b: EarthlyBranch) -> NguHanh {
    let i = b.idx();
    if i % 3 == 1 {
        NguHanh::Tho
    } else if i == 2 || i == 3 {
        NguHanh::Moc
    } else if i == 5 || i == 6 {
        NguHanh::Hoa
    } else if i == 8 || i == 9 {
        NguHanh::Kim
    } else {
        NguHanh::Thuy
    }
}

/// Ngũ Hành của Thiên Can.
pub fn nguhanh_of_stem(stem: HeavenlyStem) -> (r: NguHanh)
    ensures
        r == spec_nguhanh_of_stem(stem),
{
    match stem {
        HeavenlyStem::Giap | HeavenlyStem::At => NguHanh::Moc,
        HeavenlyStem::Binh | HeavenlyStem::Dinh => NguHanh::Hoa,
        HeavenlyStem::Mau | HeavenlyStem::Ky => NguHanh::Tho,
        HeavenlyStem::Canh | HeavenlyStem::Tan => NguHanh::Kim,
        HeavenlyStem::Nham | HeavenlyStem::Quy => NguHanh::Thuy,
    }
}

/// Ngũ Hành của Địa Chi.
pub fn nguhanh_of_branch(branch: EarthlyBranch) -> (r: NguHanh)
    ensures
        r == spec_nguhanh_of_branch(branch),
{
    match branch {
        EarthlyBranch::Dan | EarthlyBranch::Mao => NguHanh::Moc,
        EarthlyBranch::Ty2 | EarthlyBranch::Ngo => NguHanh::Hoa,
        EarthlyBranch::Than | EarthlyBranch::Dau => NguHanh::Kim,
        EarthlyBranch::Ty | EarthlyBranch::Hoi => NguHanh::Thuy,
        EarthlyBranch::Suu | EarthlyBranch::Thin | EarthlyBranch::Mui | EarthlyBranch::Tuat => {
            NguHanh::Tho
        },
    }
}

/// Chuỗi "Can Chi" tiếng Việt, ví dụ "Giáp Thìn".
pub open spec fn spec_can_chi_display(cc: CanChi) -> Seq<char> {
    cc.stem.name_seq() + " "@ + cc.branch.name_seq()
}

/// In ra chuỗi tiếng Việt "Can Chi", ví dụ "Giáp Thìn", "Bính Dần".
pub fn can_chi_display(cc: CanChi) -> (r: String)
    ensures
        r@ == spec_can_chi_display(cc),
{
    let mut s = String::from_str(cc.stem.name_vn());
    s.append(" ");
    s.append(cc.branch.name_vn());
    s
}

/// Ngũ Hành của Can và Chi theo bảng: Giáp Ất Mộc, Bính Đinh Hỏa, Mậu Kỷ Thổ,
/// Canh Tân Kim, Nhâm Quý Thủy; Dần Mão Mộc, Tỵ Ngọ Hỏa, Thân Dậu Kim, Hợi Tý
/// Thủy, Thìn Tuất Sửu Mùi Thổ.
pub proof fn lemma_bang_ngu_hanh(s: HeavenlyStem, b: EarthlyBranch)
    ensures
        spec_nguhanh_of_stem(s) == match s {
            HeavenlyStem::Giap | HeavenlyStem::At => NguHanh::Moc,
            HeavenlyStem::Binh | HeavenlyStem::Dinh => NguHanh::Hoa,
            HeavenlyStem::Mau | HeavenlyStem::Ky => NguHanh::Tho,
            HeavenlyStem::Canh | HeavenlyStem::Tan => NguHanh::Kim,
            HeavenlyStem::Nham | HeavenlyStem::Quy => NguHanh::Thuy,
        },
        spec_nguhanh_of_branch(b) == match b {
            EarthlyBranch::Dan | EarthlyBranch::Mao => NguHanh::Moc,
            EarthlyBranch::Ty2 | EarthlyBranch::Ngo => NguHanh::Hoa,
            EarthlyBranch::Than | EarthlyBranch::Dau => NguHanh::Kim,
            EarthlyBranch::Hoi | EarthlyBranch::Ty => NguHanh::Thuy,
            EarthlyBranch::Thin | EarthlyBranch::Tuat | EarthlyBranch::Suu | EarthlyBranch::Mui => NguHanh::Tho,
        },
{
}

/// Can Chi năm và ngày theo mốc: năm 1984 là Giáp Tý, ngày JD 2451551
/// (7/1/2000) là Giáp Tý; mỗi năm (ngày) sau tiến một bước Can, một bước Chi.
pub proof fn lemma_moc_can_chi_nam_ngay(year: int, jd: int)
    ensures
        spec_year_can_chi(year).stem.idx() == (year - 1984) % 10,
        spec_year_can_chi(year).branch.idx() == (year - 1984) % 12,
        spec_day_can_chi(jd).stem.idx() == (jd - 2451551) % 10,
        spec_day_can_chi(jd).branch.idx() == (jd - 2451551) % 12,
{
    vstd::arithmetic::div_mod::lemma_mod_multiples_vanish(199, year - 1984, 10);
    vstd::arithmetic::div_mod::lemma_mod_multiples_vanish(166, year - 1984, 12);
    vstd::arithmetic::div_mod::lemma_mod_multiples_vanish(245156, jd - 2451551, 10);
    vstd::arithmetic::div_mod::lemma_mod_multiples_vanish(204296, jd - 2451551, 12);
    assert(10 * 199 + (year - 1984) == year + 6);
    assert(12 * 166 + (year - 1984) == year + 8);
    assert(10 * 245156 + (jd - 2451551) == jd + 9);
    assert(12 * 204296 + (jd - 2451551) == jd + 1);
    lemma_stem_at_idx((year + 6) % 10, HeavenlyStem::Giap);
    lemma_branch_at_idx((year + 8) % 12, EarthlyBranch::Ty);
    lemma_stem_at_idx((jd + 9) % 10, HeavenlyStem::Giap);
    lemma_branch_at_idx((jd + 1) % 12, EarthlyBranch::Ty);
}

/// Can Chi tháng theo Can năm (Ngũ Hổ Độn): tháng Giêng là Bính Dần với năm
/// Giáp, Kỷ; Mậu Dần với Ất, Canh; Canh Dần với Bính, Tân; Nhâm Dần với Đinh,
/// Nhâm; Giáp Dần với Mậu, Quý; mỗi tháng sau tiến một bước.
pub proof fn lemma_bang_can_chi_thang(ys: HeavenlyStem, m: int)
    requires
        1 <= m <= 12,
    ensures
        spec_month_can_chi(ys, m).stem.idx() == (seq![2int, 4, 6, 8, 0, 2, 4, 6, 8, 0][ys.idx() as int] + m - 1) % 10,
        spec_month_can_chi(ys, m).branch.idx() == (m + 1) % 12,
{
    let ms = (month_one_stem(ys) + m - 1) % 10;
    lemma_stem_at_idx(ms, HeavenlyStem::Giap);
    lemma_branch_at_idx((m + 1) % 12, EarthlyBranch::Ty);
    assert(month_one_stem(ys) == seq![2int, 4, 6, 8, 0, 2, 4, 6, 8, 0][ys.idx() as int]);
}

/// Chi của giờ đồng hồ `h` (0..23): giờ Tý gồm 23h và 0h, mỗi Chi sau hai tiếng.
proof fn lemma_bang_chi_gio(h: int)
    requires
        0 <= h < 24,
    ensures
        hour_branch_idx(h) == seq![0int, 1, 1, 2, 2, 3, 3, 4, 4, 5, 5, 6, 6, 7, 7, 8, 8, 9, 9, 10, 10, 11, 11, 0][h],
{
    if h == 0 {} else if h == 1 {} else if h == 2 {} else if h == 3 {} else if h == 4 {}
    else if h == 5 {} else if h == 6 {} else if h == 7 {} else if h == 8 {}
    else if h == 9 {} else if h == 10 {} else if h == 11 {} else if h == 12 {}
    else if h == 13 {} else if h == 14 {} else if h == 15 {} else if h == 16 {}
    else if h == 17 {} else if h == 18 {} else if h == 19 {} else if h == 20 {}
    else if h == 21 {} else if h == 22 {} else {}
}

/// Can Chi giờ theo Can ngày (Ngũ Thử Độn): giờ Tý là Giáp Tý với ngày Giáp, Kỷ;
/// Bính Tý với Ất, Canh; Mậu Tý với Bính, Tân; Canh Tý với Đinh, Nhâm; Nhâm Tý với
/// Mậu, Quý; giờ Tý gồm 23h và 0h, mỗi Chi sau hai tiếng.
pub proof fn lemma_bang_can_chi_gio(ds: HeavenlyStem, h: int)
    requires
        0 <= h < 24,
    ensures
        spec_hour_can_chi(ds, h).branch.idx() == seq![0int, 1, 1, 2, 2, 3, 3, 4, 4, 5, 5, 6, 6, 7, 7, 8, 8, 9, 9, 10, 10, 11, 11, 0][h],
        spec_hour_can_chi(ds, h).stem.idx() == (seq![0int, 2, 4, 6, 8, 0, 2, 4, 6, 8][ds.idx() as int] + seq![0int, 1, 1, 2, 2, 3, 3, 4, 4, 5, 5, 6, 6, 7, 7, 8, 8, 9, 9, 10, 10, 11, 11, 0][h]) % 10,
{
    lemma_bang_chi_gio(h);
    let chi = hour_branch_idx(h);
    let hs = (((ds.idx() % 5) * 2) as int + chi) % 10;
    lemma_stem_at_idx(hs, HeavenlyStem::Giap);
    lemma_branch_at_idx(chi, EarthlyBranch::Ty);
    assert(((ds.idx() % 5) * 2) as int == seq![0int, 2, 4, 6, 8, 0, 2, 4, 6, 8][ds.idx() as int]);
}

/// Tên tiếng Việt của 10 Thiên Can.
pub proof fn lemma_bang_name_seq_heavenlystem()
    ensures
        HeavenlyStem::Giap.name_seq() == "Giáp"@,
        HeavenlyStem::At.name_seq() == "Ất"@,
        HeavenlyStem::Binh.name_seq() == "Bính"@,
        HeavenlyStem::Dinh.name_seq() == "Đinh"@,
        HeavenlyStem::Mau.name_seq() == "Mậu"@,
        HeavenlyStem::Ky.name_seq() == "Kỷ"@,
        HeavenlyStem::Canh.name_seq() == "Canh"@,
        HeavenlyStem::Tan.name_seq() == "Tân"@,
        HeavenlyStem::Nham.name_seq() == "Nhâm"@,
        HeavenlyStem::Quy.name_seq() == "Quý"@,
{
}

/// Tên tiếng Việt của 12 Địa Chi.
pub proof fn lemma_bang_name_seq_earthlybranch()
    ensures
        EarthlyBranch::Ty.name_seq() == "Tý"@,
        EarthlyBranch::Suu.name_seq() == "Sửu"@,
        EarthlyBranch::Dan.name_seq() == "Dần"@,
        EarthlyBranch::Mao.name_seq() == "Mão"@,
        EarthlyBranch::Thin.name_seq() == "Thìn"@,
        EarthlyBranch::Ty2.name_seq() == "Tỵ"@,
        EarthlyBranch::Ngo.name_seq() == "Ngọ"@,
        EarthlyBranch::Mui.name_seq() == "Mùi"@,
        EarthlyBranch::Than.name_seq() == "Thân"@,
        EarthlyBranch::Dau.name_seq() == "Dậu"@,
        EarthlyBranch::Tuat.name_seq() == "Tuất"@,
        EarthlyBranch::Hoi.name_seq() == "Hợi"@,
{
}

/// Tên tiếng Việt của Ngũ Hành.
pub proof fn lemma_bang_name_seq_nguhanh()
    ensures
        NguHanh::Kim.name_seq() == "Kim"@,
        NguHanh::Moc.name_seq() == "Mộc"@,
        NguHanh::Thuy.name_seq() == "Thủy"@,
        NguHanh::Hoa.name_seq() == "Hỏa"@,
        NguHanh::Tho.name_seq() == "Thổ"@,
{
}

} // verus!
