//! Đánh giá một ngày: Can Chi, tiết khí, Hoàng Đạo / Hắc Đạo, giờ tốt / xấu,
//! Trực, kiêng kỵ.
//!
//! Ngày âm và kinh độ Mặt Trời cuối ngày (độ nguyên) là kết quả tính thiên văn
//! bằng số thực, nằm ngoài thư viện, và được truyền vào cùng ngày dương.

use vstd::prelude::*;

use crate::bat_tu::tiet_khi::{
    current_tiet_khi, spec_tiet_khi_index, tiet_khi_name, tiet_month_branch_index,
};
use crate::canchi::{
    branch_of, spec_day_can_chi, spec_month_can_chi, spec_year_can_chi, EarthlyBranch,
};
use crate::lich::{
    day_can_chi, in_range, is_invalid_with, is_out_of_range_with, month_can_chi, msg_bad_month,
    msg_out_of_range, year_can_chi, LunarDate, LunarError, SolarDate,
};
use crate::text::push_str;
use crate::trach_nhat::hoang_dao::{
    self, cac_gio_trong_ngay, lemma_sau_gio_hoang_dao, so_gio_hoang_dao, spec_hour_range,
    spec_than_tai,
};
use crate::trach_nhat::kieng_ky::{kieng_ky_cua_ngay, spec_kieng_ky};
use crate::trach_nhat::truc::{chi_thang_idx, spec_truc_of_day, truc_of_day};
use crate::trach_nhat::types::{DayAssessment, HourRange};

verus! {

/// Các khung giờ tốt (`tot`) hoặc xấu (`!tot`) của `s`, giữ thứ tự.
pub open spec fn select_gio(s: Seq<HourRange>, tot: bool) -> Seq<HourRange>
    decreases s.len(),
{
    if s.len() == 0 {
        Seq::empty()
    } else if s.last().than.spec_is_hoang_dao() == tot {
        select_gio(s.drop_last(), tot).push(s.last())
    } else {
        select_gio(s.drop_last(), tot)
    }
}

/// Tách các khung giờ tốt (hoặc xấu), giữ thứ tự.
fn loc_gio(gio: &Vec<HourRange>, tot: bool) -> (r: Vec<HourRange>)
    ensures
        r@ == select_gio(gio@, tot),
{
    let mut out: Vec<HourRange> = Vec::new();
    let mut i: usize = 0;
    while i < gio.len()
        invariant
            i <= gio.len(),
            out@ == select_gio(gio@.subrange(0, i as int), tot),
        decreases gio.len() - i,
    {
        proof {
            assert(gio@.subrange(0, i as int + 1).drop_last() =~= gio@.subrange(0, i as int));
        }
        if gio[i].is_hoang_dao() == tot {
            out.push(gio[i]);
        }
        i = i + 1;
    }
    proof {
        assert(gio@.subrange(0, gio.len() as int) =~= gio@);
    }
    out
}

/// `a` là kết quả đánh giá đúng của ngày `date` (ngày âm `lunar`, kinh độ Mặt
/// Trời cuối ngày `sun_deg`).
pub open spec fn assessment_is(a: DayAssessment, date: SolarDate, lunar: LunarDate, sun_deg: int) -> bool {
    let d = spec_day_can_chi(date.jd());
    let y = spec_year_can_chi(lunar.year as int);
    let m = spec_month_can_chi(y.stem, lunar.month as int);
    &&& a.solar_date == date
    &&& a.lunar_date == lunar
    &&& a.day_can_chi == d
    &&& a.year_can_chi == y
    &&& a.month_can_chi == m
    &&& a.tiet_khi@ == tiet_khi_name(spec_tiet_khi_index(sun_deg))
    &&& a.hoang_dao_hac_dao.than == spec_than_tai(m.branch, d.branch)
    &&& a.hoang_dao_hac_dao.is_hoang_dao == a.hoang_dao_hac_dao.than.spec_is_hoang_dao()
    &&& a.cac_gio.len() == 12
    &&& forall|i: int| 0 <= i < 12 ==> #[trigger] a.cac_gio@[i] == spec_hour_range(d.branch, i)
    &&& a.gio_hoang_dao@ == select_gio(a.cac_gio@, true)
    &&& a.gio_hac_dao@ == select_gio(a.cac_gio@, false)
    &&& a.truc == spec_truc_of_day(d, sun_deg)
    &&& a.kieng_ky@ == spec_kieng_ky(lunar, d.branch)
}

/// Đánh giá ngày dương `date`.
///
/// Lỗi, theo thứ tự kiểm tra: năm dương ngoài 1900–2100 (`OutOfRange`); năm âm
/// ngoài 1900–2100 (`OutOfRange`); tháng âm ngoài 1..=12 (`InvalidLunarDate`).
pub fn danh_gia_ngay(date: SolarDate, lunar: LunarDate, sun_deg: u32) -> (r: Result<DayAssessment, LunarError>)
    requires
        date.valid(),
        sun_deg <= 360,
    ensures
        !in_range(date.year as int) ==> (r matches Err(e) && is_out_of_range_with(
            e,
            msg_out_of_range(date.year as int),
        )),
        in_range(date.year as int) && !in_range(lunar.year as int) ==> (r matches Err(e)
            && is_out_of_range_with(e, msg_out_of_range(lunar.year as int))),
        in_range(date.year as int) && in_range(lunar.year as int) && !(1 <= lunar.month <= 12) ==> (
        r matches Err(e) && is_invalid_with(e, msg_bad_month(lunar.month as int))),
        in_range(date.year as int) && in_range(lunar.year as int) && 1 <= lunar.month <= 12 ==> (
        r matches Ok(a) && assessment_is(a, date, lunar, sun_deg as int)),
{
    if let Err(e) = crate::lich::check_range(date.year) {
        return Err(e);
    }
    let day_cc = day_can_chi(date)?;
    let year_cc = year_can_chi(lunar.year)?;
    let month_cc = month_can_chi(year_cc.stem, lunar.month)?;

    let cac_gio = cac_gio_trong_ngay(day_cc);
    let gio_hoang_dao = loc_gio(&cac_gio, true);
    let gio_hac_dao = loc_gio(&cac_gio, false);

    let (_, tiet_khi) = current_tiet_khi(sun_deg);
    Ok(
        DayAssessment {
            solar_date: date,
            lunar_date: lunar,
            day_can_chi: day_cc,
            month_can_chi: month_cc,
            year_can_chi: year_cc,
            tiet_khi,
            hoang_dao_hac_dao: hoang_dao::danh_gia_ngay(day_cc, month_cc.branch),
            cac_gio,
            gio_hoang_dao,
            gio_hac_dao,
            truc: truc_of_day(day_cc, sun_deg),
            kieng_ky: kieng_ky_cua_ngay(lunar, day_cc.branch),
        },
    )
}

/// Chi tháng tiết khí của ngày có kinh độ Mặt Trời cuối ngày `sun_deg` độ.
pub fn chi_thang_tiet_khi(sun_deg: u32) -> (r: EarthlyBranch)
    requires
        sun_deg <= 360,
    ensures
        r == EarthlyBranch::at(chi_thang_idx(sun_deg as int)),
{
    branch_of(tiet_month_branch_index(sun_deg))
}

/// Thông điệp khi khoảng ngày bị ngược.
pub open spec fn msg_bad_range(from: SolarDate, to: SolarDate) -> Seq<char> {
    "khoảng ngày không hợp lệ: "@ + from.iso_seq() + " > "@ + to.iso_seq()
}

/// Các ngày liên tiếp từ `from` đến `to` (cả hai đầu); lỗi `InvalidLunarDate`
/// nếu `to` trước `from`.
pub fn khoang_ngay(from: SolarDate, to: SolarDate) -> (r: Result<Vec<SolarDate>, LunarError>)
    requires
        from.valid(),
        to.valid(),
        to.year < 262143,
    ensures
        !from.le(to) ==> (r matches Err(e) && is_invalid_with(e, msg_bad_range(from, to))),
        from.le(to) ==> (r matches Ok(v) && v.len() >= 1 && v@[0] == from && v@.last() == to
            && forall|i: int| 0 <= i < v.len() - 1 ==> #[trigger] v@[i + 1] == v@[i].spec_succ()),
{
    if !from.le_exec(&to) {
        let mut s = String::from_str("khoảng ngày không hợp lệ: ");
        let a = from.to_iso_string();
        let b = to.to_iso_string();
        push_str(&mut s, a.as_str());
        push_str(&mut s, " > ");
        push_str(&mut s, b.as_str());
        return Err(LunarError::InvalidLunarDate(s));
    }
    let mut out: Vec<SolarDate> = Vec::new();
    let mut d = from;
    out.push(d);
    while !(d == to)
        invariant
            from.valid(),
            to.valid(),
            to.year < 262143,
            d.valid(),
            d.le(to),
            out.len() >= 1,
            out@[0] == from,
            out@.last() == d,
            forall|i: int| 0 <= i < out.len() - 1 ==> #[trigger] out@[i + 1] == out@[i].spec_succ(),
        decreases to.ordinal() - d.ordinal(),
    {
        let n = d.succ();
        proof {
            assert(n.le(to)) by {
                if !n.le(to) {
                    assert(d.le(to) && d != to);
                }
            }
        }
        out.push(n);
        d = n;
    }
    Ok(out)
}

/// Mỗi ngày có đúng 6 khung giờ Hoàng Đạo và 6 khung giờ Hắc Đạo, không khung
/// nào vừa tốt vừa xấu.
pub proof fn lemma_gio_tot_xau(a: DayAssessment, date: SolarDate, lunar: LunarDate, sun_deg: int)
    requires
        assessment_is(a, date, lunar, sun_deg),
    ensures
        a.gio_hoang_dao.len() == 6,
        a.gio_hac_dao.len() == 6,
        forall|i: int| 0 <= i < 6 ==> (#[trigger] a.gio_hoang_dao@[i]).than.spec_is_hoang_dao(),
        forall|i: int| 0 <= i < 6 ==> !(#[trigger] a.gio_hac_dao@[i]).than.spec_is_hoang_dao(),
{
    let b = a.day_can_chi.branch;
    lemma_sau_gio_hoang_dao(b);
    lemma_select_count(a.cac_gio@, b, 12);
    assert(a.cac_gio@.subrange(0, 12) =~= a.cac_gio@);
    lemma_select_all(a.cac_gio@, true);
    lemma_select_all(a.cac_gio@, false);
}

/// Độ dài các khung tốt / xấu trong `n` khung đầu khớp số giờ Hoàng Đạo.
proof fn lemma_select_count(s: Seq<HourRange>, b: EarthlyBranch, n: int)
    requires
        0 <= n <= s.len(),
        s.len() == 12,
        forall|i: int| 0 <= i < 12 ==> #[trigger] s[i] == spec_hour_range(b, i),
    ensures
        select_gio(s.subrange(0, n), true).len() == so_gio_hoang_dao(b, n),
        select_gio(s.subrange(0, n), false).len() == n - so_gio_hoang_dao(b, n),
    decreases n,
{
    if n > 0 {
        lemma_select_count(s, b, n - 1);
        assert(s.subrange(0, n).drop_last() =~= s.subrange(0, n - 1));
        assert(s.subrange(0, n).last() == s[n - 1]);
    }
}

/// Mọi phần tử của danh sách đã lọc đều thỏa điều kiện lọc.
proof fn lemma_select_all(s: Seq<HourRange>, tot: bool)
    ensures
        forall|i: int|
            0 <= i < select_gio(s, tot).len() ==> (#[trigger] select_gio(s, tot)[i]).than.spec_is_hoang_dao()
                == tot,
    decreases s.len(),
{
    if s.len() > 0 {
        lemma_select_all(s.drop_last(), tot);
    }
}

} // verus!
