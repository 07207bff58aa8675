//! Thập Thần (Ten Gods): quan hệ Ngũ Hành + âm dương giữa Nhật Chủ và một Can.

use vstd::prelude::*;

use crate::canchi::{nguhanh_of_stem, spec_nguhanh_of_stem, HeavenlyStem, NguHanh};

verus! {

/// Mười Thần.
#[derive(Debug, Clone, Copy, PartialEq, Eq, Structural, Hash)]
pub enum TenGod {
    /// Tỷ Kiên — cùng hành, cùng âm dương.
    TyKien,
    /// Kiếp Tài — cùng hành, khác âm dương.
    KiepTai,
    /// Thực Thần — Nhật Chủ sinh, cùng âm dương.
    ThucThan,
    /// Thương Quan — Nhật Chủ sinh, khác âm dương.
    ThuongQuan,
    /// Thiên Tài — Nhật Chủ khắc, cùng âm dương.
    ThienTai,
    /// Chính Tài — Nhật Chủ khắc, khác âm dương.
    ChinhTai,
    /// Thất Sát — khắc Nhật Chủ, cùng âm dương.
    ThatSat,
    /// Chính Quan — khắc Nhật Chủ, khác âm dương.
    ChinhQuan,
    /// Thiên Ấn — sinh Nhật Chủ, cùng âm dương.
    ThienAn,
    /// Chính Ấn — sinh Nhật Chủ, khác âm dương.
    ChinhAn,
}

impl TenGod {
    /// Tên tiếng Việt.
    pub open spec fn name_seq(self) -> Seq<char> {
        match self {
            TenGod::TyKien => "Tỷ Kiên"@,
            TenGod::KiepTai => "Kiếp Tài"@,
            TenGod::ThucThan => "Thực Thần"@,
            TenGod::ThuongQuan => "Thương Quan"@,
            TenGod::ThienTai => "Thiên Tài"@,
            TenGod::ChinhTai => "Chính Tài"@,
            TenGod::ThatSat => "Thất Sát"@,
            TenGod::ChinhQuan => "Chính Quan"@,
            TenGod::ThienAn => "Thiên Ấn"@,
            TenGod::ChinhAn => "Chính Ấn"@,
        }
    }

    /// Tên tiếng Việt.
    pub fn name_vn(self) -> (r: &'static str)
        ensures
            r@ == self.name_seq(),
    {
        match self {
            TenGod::TyKien => "Tỷ Kiên",
            TenGod::KiepTai => "Kiếp Tài",
            TenGod::ThucThan => "Thực Thần",
            TenGod::ThuongQuan => "Thương Quan",
            TenGod::ThienTai => "Thiên Tài",
            TenGod::ChinhTai => "Chính Tài",
            TenGod::ThatSat => "Thất Sát",
            TenGod::ChinhQuan => "Chính Quan",
            TenGod::ThienAn => "Thiên Ấn",
            TenGod::ChinhAn => "Chính Ấn",
        }
    }
}

/// Vị trí của hành trên vòng Tương Sinh: Mộc → Hỏa → Thổ → Kim → Thủy → Mộc.
pub open spec fn sinh_pos(h: NguHanh) -> int {
    match h {
        NguHanh::Moc => 0,
        NguHanh::Hoa => 1,
        NguHanh::Tho => 2,
        NguHanh::Kim => 3,
        NguHanh::Thuy => 4,
    }
}

/// `a` sinh `b`: `b` đứng ngay sau `a` trên vòng Tương Sinh.
pub open spec fn spec_sinh(a: NguHanh, b: NguHanh) -> bool {
    sinh_pos(b) == (sinh_pos(a) + 1) % 5
}

/// `a` khắc `b`: `b` đứng cách `a` hai bước trên vòng Tương Sinh.
pub open spec fn spec_khac(a: NguHanh, b: NguHanh) -> bool {
    sinh_pos(b) == (sinh_pos(a) + 2) % 5
}

/// Can dương: Giáp, Bính, Mậu, Canh, Nhâm (chỉ số chẵn).
pub open spec fn spec_is_yang(s: HeavenlyStem) -> bool {
    s.idx() % 2 == 0
}

/// Thập Thần của Can `can` so với Nhật Chủ `nhat`.
pub open spec fn spec_ten_god_of(nhat: HeavenlyStem, can: HeavenlyStem) -> TenGod {
    let a = spec_nguhanh_of_stem(nhat);
    let b = spec_nguhanh_of_stem(can);
    let same = spec_is_yang(nhat) == spec_is_yang(can);
    if a == b {
        if same { TenGod::TyKien } else { TenGod::KiepTai }
    } else if spec_sinh(a, b) {
        if same { TenGod::ThucThan } else { TenGod::ThuongQuan }
    } else if spec_sinh(b, a) {
        if same { TenGod::ThienAn } else { TenGod::ChinhAn }
    } else if spec_khac(a, b) {
        if same { TenGod::ThienTai } else { TenGod::ChinhTai }
    } else {
        if same { TenGod::ThatSat } else { TenGod::ChinhQuan }
    }
}

/// Can dương (Giáp, Bính, Mậu, Canh, Nhâm).
pub fn is_yang_stem(stem: HeavenlyStem) -> (r: bool)
    ensures
        r == spec_is_yang(stem),
{
    match stem {
        HeavenlyStem::Giap | HeavenlyStem::Binh | HeavenlyStem::Mau | HeavenlyStem::Canh
        | HeavenlyStem::Nham => true,
        _ => false,
    }
}

/// Tương Sinh: Mộc sinh Hỏa, Hỏa sinh Thổ, Thổ sinh Kim, Kim sinh Thủy, Thủy sinh Mộc.
pub fn sinh(a: NguHanh, b: NguHanh) -> (r: bool)
    ensures
        r == spec_sinh(a, b),
{
    match (a, b) {
        (NguHanh::Moc, NguHanh::Hoa) | (NguHanh::Hoa, NguHanh::Tho) | (NguHanh::Tho, NguHanh::Kim)
        | (NguHanh::Kim, NguHanh::Thuy) | (NguHanh::Thuy, NguHanh::Moc) => true,
        _ => false,
    }
}

/// Tương Khắc: Mộc khắc Thổ, Thổ khắc Thủy, Thủy khắc Hỏa, Hỏa khắc Kim, Kim khắc Mộc.
pub fn khac(a: NguHanh, b: NguHanh) -> (r: bool)
    ensures
        r == spec_khac(a, b),
{
    match (a, b) {
        (NguHanh::Moc, NguHanh::Tho) | (NguHanh::Tho, NguHanh::Thuy) | (NguHanh::Thuy, NguHanh::Hoa)
        | (NguHanh::Hoa, NguHanh::Kim) | (NguHanh::Kim, NguHanh::Moc) => true,
        _ => false,
    }
}

/// Hai hành khác nhau luôn có đúng một trong bốn quan hệ: `a` sinh `b`, `b` sinh
/// `a`, `a` khắc `b`, `b` khắc `a`.
pub proof fn lemma_five_phases_relations(a: NguHanh, b: NguHanh)
    ensures
        a != b ==> {
            let rels = seq![spec_sinh(a, b), spec_sinh(b, a), spec_khac(a, b), spec_khac(b, a)];
            (rels[0] || rels[1] || rels[2] || rels[3]) && (rels[0] ==> !rels[1] && !rels[2]
                && !rels[3]) && (rels[1] ==> !rels[2] && !rels[3]) && (rels[2] ==> !rels[3])
        },
{
}

/// Thập Thần của Can `can` so với Nhật Chủ `nhat_chu`.
pub fn ten_god_of(nhat_chu: HeavenlyStem, can: HeavenlyStem) -> (r: TenGod)
    ensures
        r == spec_ten_god_of(nhat_chu, can),
{
    let nhat_hanh = nguhanh_of_stem(nhat_chu);
    let can_hanh = nguhanh_of_stem(can);
    let same_polarity = is_yang_stem(nhat_chu) == is_yang_stem(can);

    if nhat_hanh == can_hanh {
        if same_polarity {
            TenGod::TyKien
        } else {
            TenGod::KiepTai
        }
    } else if sinh(nhat_hanh, can_hanh) {
        if same_polarity {
            TenGod::ThucThan
        } else {
            TenGod::ThuongQuan
        }
    } else if sinh(can_hanh, nhat_hanh) {
        if same_polarity {
            TenGod::ThienAn
        } else {
            TenGod::ChinhAn
        }
    } else if khac(nhat_hanh, can_hanh) {
        if same_polarity {
            TenGod::ThienTai
        } else {
            TenGod::ChinhTai
        }
    } else {
        // Bốn quan hệ còn lại đã loại, chỉ còn: Can khắc Nhật Chủ.
        assert(spec_khac(can_hanh, nhat_hanh)) by {
            lemma_five_phases_relations(nhat_hanh, can_hanh);
        }
        if same_polarity {
            TenGod::ThatSat
        } else {
            TenGod::ChinhQuan
        }
    }
}

/// Vòng Tương Sinh và Tương Khắc theo bảng: Mộc sinh Hỏa, Hỏa sinh Thổ, Thổ sinh
/// Kim, Kim sinh Thủy, Thủy sinh Mộc; Mộc khắc Thổ, Thổ khắc Thủy, Thủy khắc Hỏa,
/// Hỏa khắc Kim, Kim khắc Mộc.
pub proof fn lemma_bang_sinh_khac(a: NguHanh, b: NguHanh)
    ensures
        spec_sinh(a, b) <==> ((a == NguHanh::Moc && b == NguHanh::Hoa) || (a == NguHanh::Hoa && b
            == NguHanh::Tho) || (a == NguHanh::Tho && b == NguHanh::Kim) || (a == NguHanh::Kim && b
            == NguHanh::Thuy) || (a == NguHanh::Thuy && b == NguHanh::Moc)),
        spec_khac(a, b) <==> ((a == NguHanh::Moc && b == NguHanh::Tho) || (a == NguHanh::Tho && b
            == NguHanh::Thuy) || (a == NguHanh::Thuy && b == NguHanh::Hoa) || (a == NguHanh::Hoa && b
            == NguHanh::Kim) || (a == NguHanh::Kim && b == NguHanh::Moc)),
{
}

/// Thập Thần của Can `can` so với Nhật Chủ `nhat` theo quan hệ ngũ hành của hai
/// Can và việc cùng hay khác âm dương:
/// - cùng hành: Tỷ Kiên (cùng âm dương) / Kiếp Tài;
/// - Nhật Chủ sinh Can: Thực Thần / Thương Quan;
/// - Can sinh Nhật Chủ: Thiên Ấn / Chính Ấn;
/// - Nhật Chủ khắc Can: Thiên Tài / Chính Tài;
/// - Can khắc Nhật Chủ: Thất Sát / Chính Quan.
pub proof fn lemma_thap_than_theo_quan_he(nhat: HeavenlyStem, can: HeavenlyStem)
    ensures
        ({
            let a = spec_nguhanh_of_stem(nhat);
            let b = spec_nguhanh_of_stem(can);
            let same = (nhat.idx() % 2) == (can.idx() % 2);
            let t = spec_ten_god_of(nhat, can);
            &&& (t == TenGod::TyKien <==> a == b && same)
            &&& (t == TenGod::KiepTai <==> a == b && !same)
            &&& (t == TenGod::ThucThan <==> spec_sinh(a, b) && same)
            &&& (t == TenGod::ThuongQuan <==> spec_sinh(a, b) && !same)
            &&& (t == TenGod::ThienAn <==> spec_sinh(b, a) && same)
            &&& (t == TenGod::ChinhAn <==> spec_sinh(b, a) && !same)
            &&& (t == TenGod::ThienTai <==> spec_khac(a, b) && same)
            &&& (t == TenGod::ChinhTai <==> spec_khac(a, b) && !same)
            &&& (t == TenGod::ThatSat <==> spec_khac(b, a) && same)
            &&& (t == TenGod::ChinhQuan <==> spec_khac(b, a) && !same)
        }),
{
    let a = spec_nguhanh_of_stem(nhat);
    let b = spec_nguhanh_of_stem(can);
    lemma_five_phases_relations(a, b);
    lemma_bang_sinh_khac(a, b);
    lemma_bang_sinh_khac(b, a);
}

/// Tên tiếng Việt của Thập Thần.
pub proof fn lemma_bang_name_seq_tengod()
    ensures
        TenGod::TyKien.name_seq() == "Tỷ Kiên"@,
        TenGod::KiepTai.name_seq() == "Kiếp Tài"@,
        TenGod::ThucThan.name_seq() == "Thực Thần"@,
        TenGod::ThuongQuan.name_seq() == "Thương Quan"@,
        TenGod::ThienTai.name_seq() == "Thiên Tài"@,
        TenGod::ChinhTai.name_seq() == "Chính Tài"@,
        TenGod::ThatSat.name_seq() == "Thất Sát"@,
        TenGod::ChinhQuan.name_seq() == "Chính Quan"@,
        TenGod::ThienAn.name_seq() == "Thiên Ấn"@,
        TenGod::ChinhAn.name_seq() == "Chính Ấn"@,
{
}

} // verus!
