//! 12 Trực (Kiến Trừ): Trực của ngày theo Chi ngày và Chi tháng tiết khí.

use vstd::prelude::*;

use crate::bat_tu::tiet_khi::{spec_tiet_month_index, tiet_month_branch_index};
use crate::canchi::{spec_day_can_chi, CanChi};
use crate::trach_nhat::types::{Truc, TrucRating};

verus! {

/// Chỉ số Chi (0..11) của tháng tiết khí có kinh độ Mặt Trời `sun_deg`.
pub open spec fn chi_thang_idx(sun_deg: int) -> int {
    (spec_tiet_month_index(sun_deg) + 1) % 12
}

/// Trực của ngày: khoảng cách từ Chi tháng tiết khí tới Chi ngày (Kiến là ngày
/// cùng Chi với tháng).
pub open spec fn spec_truc_of_day(day: CanChi, sun_deg: int) -> Truc {
    Truc::at((day.branch.idx() + 12 - chi_thang_idx(sun_deg)) % 12)
}

/// Trực của ngày có Can–Chi `day`, khi kinh độ Mặt Trời cuối ngày là `sun_deg` độ.
pub fn truc_of_day(day: CanChi, sun_deg: u32) -> (r: Truc)
    requires
        sun_deg <= 360,
    ensures
        r == spec_truc_of_day(day, sun_deg as int),
{
    let chi_thang = tiet_month_branch_index(sun_deg);
    let idx = (day.branch.index() + 12 - chi_thang) % 12;
    match Truc::from_index(idx) {
        Some(t) => t,
        None => Truc::Kien,
    }
}

/// Trong cùng một tháng tiết khí, Trực tiến đúng một bước mỗi ngày.
pub proof fn lemma_truc_tien_mot_buoc(jd: int, sun_deg: int)
    requires
        0 <= sun_deg <= 360,
    ensures
        spec_truc_of_day(spec_day_can_chi(jd + 1), sun_deg).idx() == (spec_truc_of_day(
            spec_day_can_chi(jd),
            sun_deg,
        ).idx() + 1) % 12,
{
    let b0 = (jd + 1) % 12;
    let b1 = (jd + 2) % 12;
    let c = chi_thang_idx(sun_deg);
    crate::canchi::lemma_branch_at_idx(b0, crate::canchi::EarthlyBranch::Ty);
    crate::canchi::lemma_branch_at_idx(b1, crate::canchi::EarthlyBranch::Ty);
    assert(0 <= c < 12);
    crate::modulo::lemma_mod12_near(b0 + 1);
    assert(b1 == (b0 + 1) % 12) by {
        vstd::arithmetic::div_mod::lemma_add_mod_noop(jd + 1, 1, 12);
    }
    let x0 = (b0 + 12 - c) % 12;
    let x1 = (b1 + 12 - c) % 12;
    crate::modulo::lemma_mod12_near(b0 + 12 - c);
    crate::modulo::lemma_mod12_near(b1 + 12 - c);
    crate::modulo::lemma_mod12_near(x0 + 1);
}

/// "Trùng Trực": qua mốc giao tiết, Chi tháng tiết khí tăng một đúng lúc Chi
/// ngày cũng tăng một, nên ngày giao tiết lặp lại Trực của hôm trước.
pub proof fn lemma_trung_truc(jd: int, deg_truoc: int, deg_sau: int)
    requires
        0 <= deg_truoc <= 360,
        0 <= deg_sau <= 360,
        chi_thang_idx(deg_sau) == (chi_thang_idx(deg_truoc) + 1) % 12,
    ensures
        spec_truc_of_day(spec_day_can_chi(jd + 1), deg_sau) == spec_truc_of_day(
            spec_day_can_chi(jd),
            deg_truoc,
        ),
{
    let b0 = (jd + 1) % 12;
    let b1 = (jd + 2) % 12;
    let c0 = chi_thang_idx(deg_truoc);
    let c1 = chi_thang_idx(deg_sau);
    crate::canchi::lemma_branch_at_idx(b0, crate::canchi::EarthlyBranch::Ty);
    crate::canchi::lemma_branch_at_idx(b1, crate::canchi::EarthlyBranch::Ty);
    assert(0 <= c0 < 12);
    assert(b1 == (b0 + 1) % 12) by {
        vstd::arithmetic::div_mod::lemma_add_mod_noop(jd + 1, 1, 12);
    }
    crate::modulo::lemma_mod12_near(b0 + 1);
    crate::modulo::lemma_mod12_near(c0 + 1);
    crate::modulo::lemma_mod12_near(b0 + 12 - c0);
    crate::modulo::lemma_mod12_near(b1 + 12 - c1);
}

/// 12 Trực theo bảng: tháng tiết khí thứ `m` (Lập Xuân mở tháng 1, mỗi tháng 30°
/// kinh độ Mặt Trời) có Chi `m + 1` (tháng 1 là Dần); ngày cùng Chi với tháng là
/// Kiến, rồi Trừ, Mãn, Bình, Định, Chấp, Phá, Nguy, Thành, Thu, Khai, Bế theo Chi
/// ngày tiến thuận. Trừ, Định, Thành, Khai tốt; Phá, Nguy, Bế xấu; còn lại trung
/// bình.
pub proof fn lemma_bang_truc(day: CanChi, sun_deg: int)
    requires
        0 <= sun_deg <= 360,
    ensures
        ({
            let m = (sun_deg + 45) % 360 / 30 + 1;
            let chi_thang = (m + 1) % 12;
            let d = (day.branch.idx() + 12 - chi_thang) % 12;
            let t = spec_truc_of_day(day, sun_deg);
            &&& 1 <= m <= 12
            &&& t == seq![Truc::Kien, Truc::Tru, Truc::Man, Truc::Binh, Truc::Dinh, Truc::Chap, Truc::Pha, Truc::Nguy, Truc::Thanh, Truc::Thu, Truc::Khai, Truc::Be][d]
            &&& (t.spec_danh_gia() == TrucRating::Tot <==> (d == 1 || d == 4 || d == 8 || d == 10))
            &&& (t.spec_danh_gia() == TrucRating::Xau <==> (d == 6 || d == 7 || d == 11))
        }),
{
    let m = (sun_deg + 45) % 360 / 30 + 1;
    let d = (day.branch.idx() + 12 - (m + 1) % 12) % 12;
    assert(0 <= d < 12);
    if d == 0 {} else if d == 1 {} else if d == 2 {} else if d == 3 {} else if d == 4 {}
    else if d == 5 {} else if d == 6 {} else if d == 7 {} else if d == 8 {} else if d == 9 {}
    else if d == 10 {} else {}
}

} // verus!
