//! Ngày kiêng kỵ phổ thông: Tam Nương, Nguyệt Kỵ, Sát Chủ.

use vstd::prelude::*;

use crate::canchi::EarthlyBranch;
use crate::lich::LunarDate;
use crate::trach_nhat::types::KiengKy;

verus! {

/// Ngày Tam Nương (âm lịch), mọi tháng.
pub const NGAY_TAM_NUONG: [u8; 6] = [3, 7, 13, 18, 22, 27];

/// Ngày Nguyệt Kỵ (âm lịch), mọi tháng.
pub const NGAY_NGUYET_KY: [u8; 3] = [5, 14, 23];

/// Ngày Tam Nương.
pub open spec fn tam_nuong_days() -> Seq<u8> {
    seq![3u8, 7, 13, 18, 22, 27]
}

/// Ngày Nguyệt Kỵ.
pub open spec fn nguyet_ky_days() -> Seq<u8> {
    seq![5u8, 14, 23]
}

/// Bảng Sát Chủ: các chỉ số Chi ngày phạm Sát Chủ của tháng âm `m` (1..12).
pub open spec fn sat_chu_row(m: int) -> Seq<u8> {
    if m == 1 {
        seq![0u8, 5]
    } else if m == 2 {
        seq![0u8, 1, 3]
    } else if m == 3 {
        seq![1u8, 6, 7]
    } else if m == 4 {
        seq![3u8, 9, 10]
    } else if m == 5 {
        seq![0u8, 4, 8]
    } else if m == 6 {
        seq![4u8, 9, 10]
    } else if m == 7 {
        seq![1u8, 6, 11]
    } else if m == 8 {
        seq![1u8, 3, 4]
    } else if m == 9 {
        seq![0u8, 1, 6]
    } else if m == 10 {
        seq![3u8, 4, 9]
    } else if m == 11 {
        seq![2u8, 6, 7]
    } else {
        seq![4u8, 9]
    }
}

/// Bảng Sát Chủ theo tháng âm (1..12): các chỉ số Chi ngày phạm Sát Chủ,
/// tăng dần.
pub fn bang_sat_chu() -> (r: Vec<Vec<u8>>)
    ensures
        r.len() == 12,
        forall|i: int| 0 <= i < 12 ==> #[trigger] r@[i]@ == sat_chu_row(i + 1),
{
    let r = vec![
        vec![0u8, 5],
        vec![0u8, 1, 3],
        vec![1u8, 6, 7],
        vec![3u8, 9, 10],
        vec![0u8, 4, 8],
        vec![4u8, 9, 10],
        vec![1u8, 6, 11],
        vec![1u8, 3, 4],
        vec![0u8, 1, 6],
        vec![3u8, 4, 9],
        vec![2u8, 6, 7],
        vec![4u8, 9],
    ];
    assert forall|i: int| 0 <= i < 12 implies #[trigger] r@[i]@ == sat_chu_row(i + 1) by {
        assert(r@[i]@ =~= sat_chu_row(i + 1));
    }
    r
}

/// Ngày Tam Nương (3, 7, 13, 18, 22, 27 âm lịch).
pub fn la_tam_nuong(lunar: LunarDate) -> (r: bool)
    ensures
        r == tam_nuong_days().contains(lunar.day),
{
    let d = lunar.day;
    let r = d == 3 || d == 7 || d == 13 || d == 18 || d == 22 || d == 27;
    proof {
        let s = tam_nuong_days();
        if r {
            let i = if d == 3 { 0int } else if d == 7 { 1 } else if d == 13 { 2 } else if d == 18 { 3 } else if d == 22 { 4 } else { 5 };
            assert(s[i] == d);
        } else {
            assert forall|i: int| 0 <= i < 6 implies s[i] != d by {}
        }
    }
    r
}

/// Ngày Nguyệt Kỵ (5, 14, 23 âm lịch).
pub fn la_nguyet_ky(lunar: LunarDate) -> (r: bool)
    ensures
        r == nguyet_ky_days().contains(lunar.day),
{
    let d = lunar.day;
    let r = d == 5 || d == 14 || d == 23;
    proof {
        let s = nguyet_ky_days();
        if r {
            let i = if d == 5 { 0int } else if d == 14 { 1 } else { 2 };
            assert(s[i] == d);
        } else {
            assert forall|i: int| 0 <= i < 3 implies s[i] != d by {}
        }
    }
    r
}

/// Ngày Sát Chủ: Chi ngày thuộc hàng của tháng âm trong bảng Sát Chủ (tháng
/// ngoài 1..12 thì không phạm).
pub fn la_sat_chu(lunar: LunarDate, chi_ngay: EarthlyBranch) -> (r: bool)
    ensures
        r == (1 <= lunar.month <= 12 && sat_chu_row(lunar.month as int).contains(chi_ngay.idx() as u8)),
{
    if lunar.month < 1 || lunar.month > 12 {
        return false;
    }
    let bang = bang_sat_chu();
    let row = &bang[(lunar.month - 1) as usize];
    let c = chi_ngay.index();
    let mut i: usize = 0;
    while i < row.len()
        invariant
            i <= row.len(),
            row@ == sat_chu_row(lunar.month as int),
            1 <= lunar.month <= 12,
            c == chi_ngay.idx(),
            forall|j: int| 0 <= j < i ==> row@[j] != c,
        decreases row.len() - i,
    {
        if row[i] == c {
            proof {
                assert(chi_ngay.idx() < 12);
                assert(chi_ngay.idx() as u8 == c);
                assert(row@[i as int] == chi_ngay.idx() as u8);
                assert(sat_chu_row(lunar.month as int).contains(chi_ngay.idx() as u8));
            }
            return true;
        }
        i = i + 1;
    }
    false
}

/// Các kiêng kỵ của ngày, theo thứ tự Tam Nương, Nguyệt Kỵ, Sát Chủ.
pub open spec fn spec_kieng_ky(lunar: LunarDate, chi_ngay: EarthlyBranch) -> Seq<KiengKy> {
    let a = if tam_nuong_days().contains(lunar.day) { seq![KiengKy::TamNuong] } else { Seq::empty() };
    let b = if nguyet_ky_days().contains(lunar.day) { seq![KiengKy::NguyetKy] } else { Seq::empty() };
    let c = if 1 <= lunar.month <= 12 && sat_chu_row(lunar.month as int).contains(chi_ngay.idx() as u8) {
        seq![KiengKy::SatChu]
    } else {
        Seq::empty()
    };
    a + b + c
}

/// Danh sách kiêng kỵ của ngày (có thể rỗng, có thể nhiều mục).
pub fn kieng_ky_cua_ngay(lunar: LunarDate, chi_ngay: EarthlyBranch) -> (r: Vec<KiengKy>)
    ensures
        r@ == spec_kieng_ky(lunar, chi_ngay),
{
    let mut out: Vec<KiengKy> = Vec::new();
    if la_tam_nuong(lunar) {
        out.push(KiengKy::TamNuong);
    }
    if la_nguyet_ky(lunar) {
        out.push(KiengKy::NguyetKy);
    }
    if la_sat_chu(lunar, chi_ngay) {
        out.push(KiengKy::SatChu);
    }
    assert(out@ =~= spec_kieng_ky(lunar, chi_ngay));
    out
}

/// Các kiêng kỵ của ngày theo bảng cố định:
/// - Tam Nương: ngày âm 3, 7, 13, 18, 22, 27;
/// - Nguyệt Kỵ: ngày âm 5, 14, 23;
/// - Sát Chủ theo tháng âm và Chi ngày: tháng 1 Tý, Tỵ; tháng 2 Tý, Sửu, Mão;
///   tháng 3 Sửu, Ngọ, Mùi; tháng 4 Mão, Dậu, Tuất; tháng 5 Tý, Thìn, Thân;
///   tháng 6 Thìn, Dậu, Tuất; tháng 7 Sửu, Ngọ, Hợi; tháng 8 Sửu, Mão, Thìn;
///   tháng 9 Tý, Sửu, Ngọ; tháng 10 Mão, Thìn, Dậu; tháng 11 Dần, Ngọ, Mùi;
///   tháng 12 Thìn, Dậu.
#[verifier::spinoff_prover]
pub proof fn lemma_bang_kieng_ky(lunar: LunarDate, b: EarthlyBranch)
    ensures
        ({
            let r = spec_kieng_ky(lunar, b);
            let d = lunar.day;
            let m = lunar.month;
            &&& r.contains(KiengKy::TamNuong) <==> (d == 3 || d == 7 || d == 13 || d == 18 || d == 22
                || d == 27)
            &&& r.contains(KiengKy::NguyetKy) <==> (d == 5 || d == 14 || d == 23)
            &&& r.contains(KiengKy::SatChu) <==> {
            ||| (m == 1 && (b == EarthlyBranch::Ty || b == EarthlyBranch::Ty2))
            ||| (m == 2 && (b == EarthlyBranch::Ty || b == EarthlyBranch::Suu || b == EarthlyBranch::Mao))
            ||| (m == 3 && (b == EarthlyBranch::Suu || b == EarthlyBranch::Ngo || b == EarthlyBranch::Mui))
            ||| (m == 4 && (b == EarthlyBranch::Mao || b == EarthlyBranch::Dau || b == EarthlyBranch::Tuat))
            ||| (m == 5 && (b == EarthlyBranch::Ty || b == EarthlyBranch::Thin || b == EarthlyBranch::Than))
            ||| (m == 6 && (b == EarthlyBranch::Thin || b == EarthlyBranch::Dau || b == EarthlyBranch::Tuat))
            ||| (m == 7 && (b == EarthlyBranch::Suu || b == EarthlyBranch::Ngo || b == EarthlyBranch::Hoi))
            ||| (m == 8 && (b == EarthlyBranch::Suu || b == EarthlyBranch::Mao || b == EarthlyBranch::Thin))
            ||| (m == 9 && (b == EarthlyBranch::Ty || b == EarthlyBranch::Suu || b == EarthlyBranch::Ngo))
            ||| (m == 10 && (b == EarthlyBranch::Mao || b == EarthlyBranch::Thin || b == EarthlyBranch::Dau))
            ||| (m == 11 && (b == EarthlyBranch::Dan || b == EarthlyBranch::Ngo || b == EarthlyBranch::Mui))
            ||| (m == 12 && (b == EarthlyBranch::Thin || b == EarthlyBranch::Dau))
            }
        }),
{
    let r = spec_kieng_ky(lunar, b);
    let d = lunar.day;
    let m = lunar.month as int;
    let tn = tam_nuong_days();
    let nk = nguyet_ky_days();
    assert(tn.contains(d) <==> (d == 3 || d == 7 || d == 13 || d == 18 || d == 22 || d == 27)) by {
        if d == 3 || d == 7 || d == 13 || d == 18 || d == 22 || d == 27 {
            let i = if d == 3 { 0int } else if d == 7 { 1 } else if d == 13 { 2 } else if d == 18 { 3 } else if d == 22 { 4 } else { 5 };
            assert(tn[i] == d);
        }
    }
    assert(nk.contains(d) <==> (d == 5 || d == 14 || d == 23)) by {
        if d == 5 || d == 14 || d == 23 {
            let i = if d == 5 { 0int } else if d == 14 { 1 } else { 2 };
            assert(nk[i] == d);
        }
    }
    let c = b.idx() as u8;
    let sc = 1 <= m <= 12 && sat_chu_row(m).contains(c);
    if 1 <= m <= 12 {
        let row = sat_chu_row(m);
        assert forall|i: int| 0 <= i < row.len() implies #[trigger] row[i] == c ==> row.contains(c) by {}
    }
    let a = if tn.contains(d) { seq![KiengKy::TamNuong] } else { Seq::empty() };
    let bb = if nk.contains(d) { seq![KiengKy::NguyetKy] } else { Seq::empty() };
    let cc = if sc { seq![KiengKy::SatChu] } else { Seq::<KiengKy>::empty() };
    assert(r == a + bb + cc);
    assert(r.contains(KiengKy::TamNuong) <==> tn.contains(d)) by {
        if tn.contains(d) {
            assert(r[0] == KiengKy::TamNuong);
        }
    }
    assert(r.contains(KiengKy::NguyetKy) <==> nk.contains(d)) by {
        if nk.contains(d) {
            assert(r[a.len() as int] == KiengKy::NguyetKy);
        }
    }
    assert(r.contains(KiengKy::SatChu) <==> sc) by {
        if sc {
            assert(r[(a.len() + bb.len()) as int] == KiengKy::SatChu);
        }
    }
    lemma_bang_sat_chu(m, b);
}

/// Hàng `m` của bảng Sát Chủ chứa Chi `b` đúng như bảng tra theo tháng.
#[verifier::spinoff_prover]
proof fn lemma_bang_sat_chu(m: int, b: EarthlyBranch)
    ensures
        (1 <= m <= 12 && sat_chu_row(m).contains(b.idx() as u8)) <==> {
            ||| (m == 1 && (b == EarthlyBranch::Ty || b == EarthlyBranch::Ty2))
            ||| (m == 2 && (b == EarthlyBranch::Ty || b == EarthlyBranch::Suu || b == EarthlyBranch::Mao))
            ||| (m == 3 && (b == EarthlyBranch::Suu || b == EarthlyBranch::Ngo || b == EarthlyBranch::Mui))
            ||| (m == 4 && (b == EarthlyBranch::Mao || b == EarthlyBranch::Dau || b == EarthlyBranch::Tuat))
            ||| (m == 5 && (b == EarthlyBranch::Ty || b == EarthlyBranch::Thin || b == EarthlyBranch::Than))
            ||| (m == 6 && (b == EarthlyBranch::Thin || b == EarthlyBranch::Dau || b == EarthlyBranch::Tuat))
            ||| (m == 7 && (b == EarthlyBranch::Suu || b == EarthlyBranch::Ngo || b == EarthlyBranch::Hoi))
            ||| (m == 8 && (b == EarthlyBranch::Suu || b == EarthlyBranch::Mao || b == EarthlyBranch::Thin))
            ||| (m == 9 && (b == EarthlyBranch::Ty || b == EarthlyBranch::Suu || b == EarthlyBranch::Ngo))
            ||| (m == 10 && (b == EarthlyBranch::Mao || b == EarthlyBranch::Thin || b == EarthlyBranch::Dau))
            ||| (m == 11 && (b == EarthlyBranch::Dan || b == EarthlyBranch::Ngo || b == EarthlyBranch::Mui))
            ||| (m == 12 && (b == EarthlyBranch::Thin || b == EarthlyBranch::Dau))
        },
{
    let c = b.idx() as u8;
    assert(0 <= b.idx() < 12);
    if 1 <= m <= 12 {
        let row = sat_chu_row(m);
        if row.contains(c) {
            let i = choose|i: int| 0 <= i < row.len() && row[i] == c;
            assert(row[i] == c);
        } else {
            assert forall|i: int| 0 <= i < row.len() implies row[i] != c by {}
        }
    }
}

} // verus!
