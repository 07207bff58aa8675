//! An 14 chính tinh: chòm Tử Vi và chòm Thiên Phủ.

use vstd::prelude::*;

use crate::canchi::{branch_of, EarthlyBranch};
use crate::modulo::rem_euclid_i64;
use crate::tuvi::palaces::{dich_cung, spec_dich_cung};
use crate::tuvi::stars::sao::Sao;
use crate::tuvi::types::{placed_at, same_but_stars, same_frame, TuViChart, TuViError};

verus! {

/// Số bước nhảy (từ cung Dần) khi tìm Tử Vi: bội nhỏ nhất của số Cục không nhỏ
/// hơn ngày sinh là `cuc_so × (bước + 1)`.
pub open spec fn tu_vi_steps(cuc_so: int, ngay_sinh: int) -> int {
    if ngay_sinh <= cuc_so {
        0
    } else {
        (ngay_sinh - 1) / cuc_so
    }
}

/// Chỉ số cung (0..11) của sao Tử Vi theo số Cục và ngày sinh âm: từ Dần tiến
/// theo số lần cộng Cục, rồi lùi (phần bù lẻ) hoặc tiến (phần bù chẵn) đúng phần
/// bù giữa bội Cục và ngày sinh.
pub open spec fn spec_find_tu_vi(cuc_so: int, ngay_sinh: int) -> int {
    let n = tu_vi_steps(cuc_so, ngay_sinh);
    let bu = cuc_so * (n + 1) - ngay_sinh;
    let lech = if bu % 2 == 1 { -bu } else { bu };
    (2 + n + lech) % 12
}

/// Cung (chỉ số 0..11) của sao Tử Vi.
pub fn find_tu_vi(cuc_so: i64, ngay_sinh: i64) -> (r: u8)
    requires
        1 <= cuc_so <= 1000,
        -1000 <= ngay_sinh <= 1000,
    ensures
        r == spec_find_tu_vi(cuc_so as int, ngay_sinh as int),
        r < 12,
{
    let mut cung_dan: i64 = 2;
    let cuc_ban_dau = cuc_so;
    let mut cuc = cuc_so;
    while cuc < ngay_sinh
        invariant
            1 <= cuc_ban_dau <= 1000,
            cuc_ban_dau == cuc_so,
            -1000 <= ngay_sinh <= 1000,
            2 <= cung_dan,
            cuc == cuc_so * (cung_dan - 1),
            cuc_so * (cung_dan - 2) < ngay_sinh || cung_dan == 2,
            cung_dan <= 1002,
        decreases ngay_sinh + cuc_so - cuc,
    {
        proof {
            let k = cung_dan - 1;
            assert(cuc_so * k < 1000 ==> k < 1000) by (nonlinear_arith)
                requires
                    cuc_so >= 1,
            ;
            assert(cuc_so * (k + 1) == cuc_so * k + cuc_so) by (nonlinear_arith);
        }
        cuc = cuc + cuc_ban_dau;
        cung_dan = cung_dan + 1;
    }
    proof {
        let n = cung_dan - 2;
        if ngay_sinh > cuc_so {
            assert(cuc_so * (n + 1) == cuc_so * n + cuc_so) by (nonlinear_arith);
            assert(n >= 1) by (nonlinear_arith)
                requires
                    cuc_so * (n + 1) >= ngay_sinh,
                    ngay_sinh > cuc_so,
                    n >= 0,
            ;
            let r0 = ngay_sinh - 1 - cuc_so * n;
            assert(cuc_so * n < ngay_sinh);
            assert(cuc_so * (n + 1) >= ngay_sinh);
            assert(cuc_so * (n + 1) == cuc_so * n + cuc_so) by (nonlinear_arith);
            vstd::arithmetic::div_mod::lemma_fundamental_div_mod_converse(
                ngay_sinh - 1,
                cuc_so as int,
                n,
                r0,
            );
        } else {
            assert(n == 0) by (nonlinear_arith)
                requires
                    cuc_so * n < ngay_sinh || n == 0,
                    ngay_sinh <= cuc_so,
                    cuc_so >= 1,
                    n >= 0,
            ;
        }
    }
    let mut sai_lech = cuc - ngay_sinh;
    if sai_lech % 2 == 1 {
        sai_lech = -sai_lech;
    }
    rem_euclid_i64(cung_dan + sai_lech, 12) as u8
}

/// Cung Thiên Phủ: đối xứng với Tử Vi qua trục Dần–Thân (tổng chỉ số ≡ 4).
pub open spec fn thien_phu_of(tu_vi: int) -> int {
    (4 - tu_vi) % 12
}

/// Vị trí (sao, cung) của 14 chính tinh, theo thứ tự an: chòm Tử Vi (Tử Vi,
/// Liêm Trinh +4, Thiên Đồng +7, Vũ Khúc +8, Thái Dương +9, Thiên Cơ +11) rồi chòm
/// Thiên Phủ (Thiên Phủ, Thái Âm +1, Tham Lang +2, Cự Môn +3, Thiên Tướng +4,
/// Thiên Lương +5, Thất Sát +6, Phá Quân +10).
#[verifier::opaque]
pub open spec fn chinh_tinh_placements(cuc_so: int, ngay_sinh: int) -> Seq<(Sao, EarthlyBranch)> {
    let tv = EarthlyBranch::at(spec_find_tu_vi(cuc_so, ngay_sinh));
    let tp = EarthlyBranch::at(thien_phu_of(spec_find_tu_vi(cuc_so, ngay_sinh)));
    seq![
        (Sao::TuVi, tv),
        (Sao::LiemTrinh, spec_dich_cung(tv, 4)),
        (Sao::ThienDong, spec_dich_cung(tv, 7)),
        (Sao::VuKhuc, spec_dich_cung(tv, 8)),
        (Sao::ThaiDuong, spec_dich_cung(tv, 9)),
        (Sao::ThienCo, spec_dich_cung(tv, 11)),
        (Sao::ThienPhu, tp),
        (Sao::ThaiAm, spec_dich_cung(tp, 1)),
        (Sao::ThamLang, spec_dich_cung(tp, 2)),
        (Sao::CuMon, spec_dich_cung(tp, 3)),
        (Sao::ThienTuong, spec_dich_cung(tp, 4)),
        (Sao::ThienLuong, spec_dich_cung(tp, 5)),
        (Sao::ThatSat, spec_dich_cung(tp, 6)),
        (Sao::PhaQuan, spec_dich_cung(tp, 10)),
    ]
}

/// Danh sách vị trí 14 chính tinh.
fn chinh_tinh_list(cuc_so: i64, ngay_sinh: i64) -> (r: Vec<(Sao, EarthlyBranch)>)
    requires
        1 <= cuc_so <= 1000,
        -1000 <= ngay_sinh <= 1000,
    ensures
        r@ == chinh_tinh_placements(cuc_so as int, ngay_sinh as int),
{
    let tv_idx = find_tu_vi(cuc_so, ngay_sinh);
    let tv = branch_of(tv_idx);
    let tp_idx = rem_euclid_i64(4 - tv_idx as i64, 12);
    let tp = branch_of(tp_idx as u8);
    let r = vec![
        (Sao::TuVi, tv),
        (Sao::LiemTrinh, dich_cung(tv, 4)),
        (Sao::ThienDong, dich_cung(tv, 7)),
        (Sao::VuKhuc, dich_cung(tv, 8)),
        (Sao::ThaiDuong, dich_cung(tv, 9)),
        (Sao::ThienCo, dich_cung(tv, 11)),
        (Sao::ThienPhu, tp),
        (Sao::ThaiAm, dich_cung(tp, 1)),
        (Sao::ThamLang, dich_cung(tp, 2)),
        (Sao::CuMon, dich_cung(tp, 3)),
        (Sao::ThienTuong, dich_cung(tp, 4)),
        (Sao::ThienLuong, dich_cung(tp, 5)),
        (Sao::ThatSat, dich_cung(tp, 6)),
        (Sao::PhaQuan, dich_cung(tp, 10)),
    ];
    assert(r@ =~= chinh_tinh_placements(cuc_so as int, ngay_sinh as int)) by {
        reveal(chinh_tinh_placements);
    }
    r
}

/// An 14 chính tinh vào lá số (theo số Cục và ngày sinh âm của lá số): mỗi sao
/// vào cung mang Chi của nó, các cung được tìm theo Chi nên thứ tự cung tuỳ ý.
///
/// Số Cục phải dương: với Cục 0 phép tìm cung Tử Vi không dừng.
pub fn an_chinh_tinh(chart: &mut TuViChart) -> (r: Result<(), TuViError>)
    requires
        old(chart).cung_rieng(),
        old(chart).cuc.so >= 1,
    ensures
        r is Ok,
        final(chart).cung_rieng(),
        old(chart).wf() ==> final(chart).wf(),
        same_frame(*final(chart), *old(chart)),
        forall|j: int|
            0 <= j < 12 ==> same_but_stars(#[trigger] final(chart).palaces@[j], old(chart).palaces@[j])
                && final(chart).palaces@[j].stars@ == old(chart).palaces@[j].stars@ + placed_at(
                chinh_tinh_placements(old(chart).cuc.so as int, old(chart).lunar.day as int),
                old(chart).palaces@[j].branch,
            ),
{
    let ngay_sinh_am = chart.lunar.day as i64;
    let cuc_so = chart.cuc.so as i64;
    let ps = chinh_tinh_list(cuc_so, ngay_sinh_am);
    chart.place_stars(&ps);
    Ok(())
}

/// Danh sách chính tinh có đúng 14 vị trí, sao thứ `i` có thứ tự an `i`.
pub proof fn lemma_chinh_tinh_shape(cuc_so: int, ngay_sinh: int)
    ensures
        chinh_tinh_placements(cuc_so, ngay_sinh).len() == 14,
        forall|i: int|
            0 <= i < 14 ==> #[trigger] chinh_tinh_placements(cuc_so, ngay_sinh)[i].0.placement_pos() == i,
{
    reveal(chinh_tinh_placements);
    let ps = chinh_tinh_placements(cuc_so, ngay_sinh);
    assert(ps[0].0.placement_pos() == 0);
    assert(ps[1].0.placement_pos() == 1);
    assert(ps[2].0.placement_pos() == 2);
    assert(ps[3].0.placement_pos() == 3);
    assert(ps[4].0.placement_pos() == 4);
    assert(ps[5].0.placement_pos() == 5);
    assert(ps[6].0.placement_pos() == 6);
    assert(ps[7].0.placement_pos() == 7);
    assert(ps[8].0.placement_pos() == 8);
    assert(ps[9].0.placement_pos() == 9);
    assert(ps[10].0.placement_pos() == 10);
    assert(ps[11].0.placement_pos() == 11);
    assert(ps[12].0.placement_pos() == 12);
    assert(ps[13].0.placement_pos() == 13);
}

/// Thiên Phủ và Tử Vi đối xứng qua trục Dần–Thân: tổng chỉ số hai cung ≡ 4 (mod 12).
pub proof fn lemma_thien_phu_opposite_tu_vi(cuc_so: int, ngay_sinh: int)
    ensures
        ({
            let ps = chinh_tinh_placements(cuc_so, ngay_sinh);
            &&& ps[0].0 == Sao::TuVi
            &&& ps[6].0 == Sao::ThienPhu
            &&& (ps[0].1.idx() + ps[6].1.idx()) % 12 == 4
        }),
{
    reveal(chinh_tinh_placements);
    let t = spec_find_tu_vi(cuc_so, ngay_sinh);
    let p = thien_phu_of(t);
    crate::canchi::lemma_branch_at_idx(t, EarthlyBranch::Ty);
    crate::canchi::lemma_branch_at_idx(p, EarthlyBranch::Ty);
    crate::modulo::lemma_mod12_near(4 - t);
    crate::modulo::lemma_mod12_near(t + p);
}

/// Số bước tìm Tử Vi là số `k` nhỏ nhất không âm có `(k + 1) · Cục ≥ ngày sinh`.
proof fn lemma_tu_vi_steps_nho_nhat(so: int, d: int, k: int)
    requires
        1 <= so,
        0 <= k,
        (k + 1) * so >= d,
        k == 0 || k * so < d,
    ensures
        tu_vi_steps(so, d) == k,
{
    if d <= so {
        if k >= 1 {
            assert(k * so >= so) by (nonlinear_arith)
                requires
                    k >= 1,
                    so >= 1,
            ;
        }
    } else {
        assert(k >= 1) by {
            if k == 0 {
                assert((0int + 1) * so == so);
            }
        }
        assert((k + 1) * so == k * so + so) by (nonlinear_arith);
        let r0 = d - 1 - so * k;
        assert(so * k == k * so) by (nonlinear_arith);
        assert(0 <= r0 < so);
        vstd::arithmetic::div_mod::lemma_fundamental_div_mod_converse(d - 1, so, k, r0);
    }
}

/// Vị trí 14 chính tinh theo số Cục `so` và ngày sinh âm `d`: gọi `k` là số nhỏ
/// nhất không âm có `(k + 1) · so ≥ d` và `e = (k + 1) · so − d` là phần bù; Tử Vi
/// ở cung `T = 2 + k − e` (phần bù lẻ) hoặc `2 + k + e` (phần bù chẵn), mod 12.
/// Chòm Tử Vi: Liêm Trinh T+4, Thiên Đồng T+7, Vũ Khúc T+8, Thái Dương T+9, Thiên
/// Cơ T+11. Thiên Phủ ở `F = 4 − T`; Thái Âm F+1, Tham Lang F+2, Cự Môn F+3, Thiên
/// Tướng F+4, Thiên Lương F+5, Thất Sát F+6, Phá Quân F+10.
#[verifier::spinoff_prover]
#[verifier::rlimit(50)]
pub proof fn lemma_bang_chinh_tinh(so: int, d: int, k: int)
    requires
        1 <= so,
        0 <= k,
        (k + 1) * so >= d,
        k == 0 || k * so < d,
    ensures
        ({
            let ps = chinh_tinh_placements(so, d);
            let e = (k + 1) * so - d;
            let t = (2 + k + (if e % 2 == 1 { -e } else { e })) % 12;
            let f = (16 - t) % 12;
            &&& ps.len() == 14
            &&& ps[0] == (Sao::TuVi, EarthlyBranch::at(t))
            &&& ps[1] == (Sao::LiemTrinh, EarthlyBranch::at((t + 4) % 12))
            &&& ps[2] == (Sao::ThienDong, EarthlyBranch::at((t + 7) % 12))
            &&& ps[3] == (Sao::VuKhuc, EarthlyBranch::at((t + 8) % 12))
            &&& ps[4] == (Sao::ThaiDuong, EarthlyBranch::at((t + 9) % 12))
            &&& ps[5] == (Sao::ThienCo, EarthlyBranch::at((t + 11) % 12))
            &&& ps[6] == (Sao::ThienPhu, EarthlyBranch::at(f))
            &&& ps[7] == (Sao::ThaiAm, EarthlyBranch::at((f + 1) % 12))
            &&& ps[8] == (Sao::ThamLang, EarthlyBranch::at((f + 2) % 12))
            &&& ps[9] == (Sao::CuMon, EarthlyBranch::at((f + 3) % 12))
            &&& ps[10] == (Sao::ThienTuong, EarthlyBranch::at((f + 4) % 12))
            &&& ps[11] == (Sao::ThienLuong, EarthlyBranch::at((f + 5) % 12))
            &&& ps[12] == (Sao::ThatSat, EarthlyBranch::at((f + 6) % 12))
            &&& ps[13] == (Sao::PhaQuan, EarthlyBranch::at((f + 10) % 12))
        }),
{
    lemma_tu_vi_steps_nho_nhat(so, d, k);
    let t = spec_find_tu_vi(so, d);
    let f = thien_phu_of(t);
    assert(f == (16 - t) % 12);
    let tv = EarthlyBranch::at(t);
    let tp = EarthlyBranch::at(f);
    crate::canchi::lemma_branch_at_idx(t, tv);
    crate::canchi::lemma_branch_at_idx(f, tp);
    assert(tv.idx() == t && tp.idx() == f);
    reveal(chinh_tinh_placements);
}

} // verus!
