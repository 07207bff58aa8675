//! Phần số nguyên của lịch thiên văn Hồ Ngọc Đức (UTC+7).
//!
//! Julian Day Number (JD nguyên, trưa UTC của ngày dương lịch) và phép đổi
//! ngược, cùng phần ráp ngày âm từ các mốc sóc. Các mốc sóc (ngày bắt đầu tháng
//! âm, ngày bắt đầu tháng 11 âm, vị trí tháng nhuận) là kết quả tính thiên văn
//! bằng số thực, nằm ngoài thư viện; các hàm ở đây nhận chúng làm đối số.

use vstd::prelude::*;

use crate::modulo::{floor_div_i64, rem_euclid_i64};

verus! {

/// Thương của phép chia nguyên cắt về 0 (phép `/` của Rust trên số có dấu),
/// với số chia dương.
pub open spec fn chia_cat(a: int, b: int) -> int {
    if a >= 0 {
        a / b
    } else {
        -((-a) / b)
    }
}

/// Thương cắt về 0 không lớn hơn số bị chia về trị tuyệt đối.
proof fn lemma_chia_cat_bien(a: int, b: int)
    requires
        b >= 1,
    ensures
        a >= 0 ==> 0 <= chia_cat(a, b) <= a,
        a < 0 ==> a <= chia_cat(a, b) <= 0,
{
    if a >= 0 {
        assert(0 <= a / b <= a) by (nonlinear_arith)
            requires
                a >= 0,
                b >= 1,
        ;
    } else {
        let n = -a;
        assert(0 <= n / b <= n) by (nonlinear_arith)
            requires
                n >= 0,
                b >= 1,
        ;
    }
}

/// Phép `/` của Rust trên `i64` với số chia dương.
fn chia_cat_i64(a: i64, b: i64) -> (r: i64)
    requires
        b > 0,
        a > i64::MIN,
    ensures
        r == chia_cat(a as int, b as int),
{
    if a >= 0 {
        a / b
    } else {
        -((-a) / b)
    }
}

/// Julian Day Number tại trưa UTC của ngày `dd/mm/yy`: lịch Gregory từ
/// 15/10/1582 (JD 2299161), lịch Julius trước đó. Các phép chia cắt về 0.
pub open spec fn spec_jd_from_date(dd: int, mm: int, yy: int) -> int {
    let a = chia_cat(14 - mm, 12);
    let y = yy + 4800 - a;
    let m = mm + 12 * a - 3;
    let jd = dd + chia_cat(153 * m + 2, 5) + 365 * y + chia_cat(y, 4) - chia_cat(y, 100) + chia_cat(y, 400) - 32045;
    if jd < 2299161 {
        dd + chia_cat(153 * m + 2, 5) + 365 * y + chia_cat(y, 4) - 32083
    } else {
        jd
    }
}

/// Julian Day Number của ngày `dd/mm/yy` (mọi giá trị trong giới hạn tính
/// toán ±10¹², kể cả tháng ngoài 1..12 theo đúng công thức).
pub fn jd_from_date(dd: i64, mm: i64, yy: i64) -> (r: i64)
    requires
        -1_000_000_000_000 <= mm <= 1_000_000_000_000,
        -1_000_000_000_000 <= yy <= 1_000_000_000_000,
        -1_000_000_000_000 <= dd <= 1_000_000_000_000,
    ensures
        r == spec_jd_from_date(dd as int, mm as int, yy as int),
{
    let a = chia_cat_i64(14 - mm, 12);
    proof {
        lemma_chia_cat_bien(14 - mm, 12);
    }
    let y = yy + 4800 - a;
    let m = mm + 12 * a - 3;
    proof {
        lemma_chia_cat_bien(153 * m + 2, 5);
    }
    let q = chia_cat_i64(153 * m + 2, 5);
    proof {
        lemma_chia_cat_bien(y as int, 4);
        lemma_chia_cat_bien(y as int, 100);
        lemma_chia_cat_bien(y as int, 400);
    }
    let y4 = chia_cat_i64(y, 4);
    let y100 = chia_cat_i64(y, 100);
    let y400 = chia_cat_i64(y, 400);
    let mut jd = dd + q + 365 * y + y4 - y100 + y400 - 32045;
    if jd < 2299161 {
        jd = dd + q + 365 * y + y4 - 32083;
    }
    jd
}

/// Ngày dương `(ngày, tháng, năm)` của Julian Day Number `jd` (thuật toán ngược
/// của `spec_jd_from_date`, mọi phép chia lấy phần nguyên dưới).
pub open spec fn spec_jd_to_date(jd: int) -> (int, int, int) {
    let b = if jd > 2299160 { (4 * (jd + 32044) + 3) / 146097 } else { 0 };
    let c = if jd > 2299160 { (jd + 32044) - (b * 146097) / 4 } else { jd + 32082 };
    let d = (4 * c + 3) / 1461;
    let e = c - (1461 * d) / 4;
    let m = (5 * e + 2) / 153;
    let day = e - (153 * m + 2) / 5 + 1;
    let month = m + 3 - 12 * (m / 10);
    let year = b * 100 + d - 4800 + m / 10;
    (day, month, year)
}

/// Đổi Julian Day Number ra `(ngày, tháng, năm)` dương lịch.
pub fn jd_to_date(jd: i64) -> (r: (i64, i64, i64))
    requires
        -1_000_000_000_000 <= jd <= 1_000_000_000_000,
    ensures
        r.0 == spec_jd_to_date(jd as int).0,
        r.1 == spec_jd_to_date(jd as int).1,
        r.2 == spec_jd_to_date(jd as int).2,
{
    let b: i64;
    let c: i64;
    if jd > 2299160 {
        let a = jd + 32044;
        b = floor_div_i64(4 * a + 3, 146097);
        assert(0 <= b <= 30_000_000_000) by (nonlinear_arith)
            requires
                b == (4 * a + 3) / 146097,
                0 <= a <= 1_000_000_100_000,
        ;
        c = a - floor_div_i64(b * 146097, 4);
        assert(0 <= c < 146097) by {
            vstd::arithmetic::div_mod::lemma_fundamental_div_mod(4 * a + 3, 146097);
            vstd::arithmetic::div_mod::lemma_fundamental_div_mod(b * 146097, 4);
        }
    } else {
        b = 0;
        c = jd + 32082;
    }
    let d = floor_div_i64(4 * c + 3, 1461);
    assert(-3_000_000_000_000 <= d <= 3_000_000_000_000) by (nonlinear_arith)
        requires
            d == (4 * c + 3) / 1461,
            -1_000_000_100_000 <= c <= 1_000_000_100_000,
    ;
    let e = c - floor_div_i64(1461 * d, 4);
    assert(0 <= e < 1461) by {
        vstd::arithmetic::div_mod::lemma_fundamental_div_mod(4 * c + 3, 1461);
        vstd::arithmetic::div_mod::lemma_fundamental_div_mod(1461 * d, 4);
    }
    let m = (5 * e + 2) / 153;
    let day = e - (153 * m + 2) / 5 + 1;
    let month = m + 3 - 12 * (m / 10);
    let year = b * 100 + d - 4800 + m / 10;
    (day, month, year)
}

/// Ngày âm dạng thô (số nguyên 64 bit), trước khi đóng gói thành `LunarDate`.
#[derive(Debug, Clone, Copy, PartialEq, Eq, Structural)]
pub struct LunarRaw {
    pub day: i64,
    pub month: i64,
    pub year: i64,
    pub leap: bool,
}

/// Ngày âm của ngày có JD `day_number`, biết:
/// - `month_start`: JD ngày sóc mở đầu tháng âm chứa ngày đó;
/// - `a11`, `b11`: JD ngày bắt đầu tháng 11 âm của hai năm liên tiếp bao quanh
///   `month_start` (`a11` trước, `b11` sau), với `b11` là tháng 11 của năm
///   `frame_year`;
/// - `leap_offset`: vị trí (tính từ tháng 11 `a11`) của tháng không chứa trung
///   khí, chỉ dùng khi khoảng `a11..b11` có 13 tháng (dài hơn 365 ngày).
pub open spec fn spec_lunar_from_frame(
    day_number: int,
    month_start: int,
    frame_year: int,
    a11: int,
    b11: int,
    leap_offset: int,
) -> LunarRaw {
    let diff = (month_start - a11) / 29;
    let shifted = b11 - a11 > 365 && diff >= leap_offset;
    let m0 = if shifted { diff + 10 } else { diff + 11 };
    let month = if m0 > 12 { m0 - 12 } else { m0 };
    let year = if month >= 11 && diff < 4 { frame_year - 1 } else { frame_year };
    LunarRaw {
        day: (day_number - month_start + 1) as i64,
        month: month as i64,
        year: year as i64,
        leap: shifted && diff == leap_offset,
    }
}

/// Các mốc đủ nhỏ để mọi phép tính trên JD không tràn số.
pub open spec fn jd_in_bounds(x: int) -> bool {
    -1_000_000_000_000 <= x <= 1_000_000_000_000
}

/// Ráp ngày âm từ các mốc sóc (phần số nguyên của phép đổi Dương → Âm).
pub fn lunar_from_frame(
    day_number: i64,
    month_start: i64,
    frame_year: i64,
    a11: i64,
    b11: i64,
    leap_offset: i64,
) -> (r: LunarRaw)
    requires
        jd_in_bounds(day_number as int),
        jd_in_bounds(month_start as int),
        jd_in_bounds(a11 as int),
        jd_in_bounds(b11 as int),
        jd_in_bounds(frame_year as int),
        jd_in_bounds(leap_offset as int),
    ensures
        r == spec_lunar_from_frame(
            day_number as int,
            month_start as int,
            frame_year as int,
            a11 as int,
            b11 as int,
            leap_offset as int,
        ),
{
    let lunar_day = day_number - month_start + 1;
    let diff = floor_div_i64(month_start - a11, 29);
    let mut lunar_leap = false;
    let mut lunar_month = diff + 11;
    if b11 - a11 > 365 {
        if diff >= leap_offset {
            lunar_month = diff + 10;
            if diff == leap_offset {
                lunar_leap = true;
            }
        }
    }
    if lunar_month > 12 {
        lunar_month = lunar_month - 12;
    }
    let mut lunar_year = frame_year;
    if lunar_month >= 11 && diff < 4 {
        lunar_year = lunar_year - 1;
    }
    LunarRaw { day: lunar_day, month: lunar_month, year: lunar_year, leap: lunar_leap }
}

/// Năm có tháng 11 âm là mốc `b11` của khung chứa tháng bắt đầu ở `month_start`:
/// nếu tháng 11 âm của năm dương `solar_year` (JD `m11_of_solar_year`) chưa tới
/// sau `month_start` thì khung là năm đó, ngược lại là năm sau.
pub fn lunar_frame_year(solar_year: i64, month_start: i64, m11_of_solar_year: i64) -> (r: i64)
    requires
        solar_year < i64::MAX,
    ensures
        r == if m11_of_solar_year >= month_start { solar_year as int } else { solar_year + 1 },
{
    if m11_of_solar_year >= month_start {
        solar_year
    } else {
        solar_year + 1
    }
}

/// Năm dương có tháng 11 âm là mốc đầu (`a11`) của khung chứa tháng âm `mm`
/// năm `yy`: tháng 11, 12 thuộc khung bắt đầu từ tháng 11 của chính năm `yy`,
/// các tháng khác thuộc khung bắt đầu từ tháng 11 của năm trước.
pub fn lunar_to_solar_frame_year(mm: i64, yy: i64) -> (r: i64)
    requires
        yy > i64::MIN,
    ensures
        r == if mm < 11 { yy - 1 } else { yy as int },
{
    if mm < 11 {
        yy - 1
    } else {
        yy
    }
}

/// Số tháng (tính từ tháng 11 `a11`) của tháng âm `mm` (nhuận nếu `leap`) trong
/// khung `a11..b11`; `leap_off` là vị trí tháng nhuận của khung.
pub open spec fn spec_lunar_month_offset(mm: int, leap: bool, a11: int, b11: int, leap_off: int) -> int {
    let off0 = if mm - 11 < 0 { mm - 11 + 12 } else { mm - 11 };
    if b11 - a11 > 365 {
        let lm0 = leap_off - 2;
        let leap_month = if lm0 < 0 { lm0 + 12 } else { lm0 };
        if leap && leap_month != mm {
            off0
        } else if leap || off0 >= leap_off {
            off0 + 1
        } else {
            off0
        }
    } else {
        off0
    }
}

/// Vị trí của tháng âm trong khung tháng 11 → tháng 11 (phần số nguyên của phép
/// đổi Âm → Dương; JD ngày đầu tháng là ngày sóc thứ `k + offset`).
pub fn lunar_month_offset(mm: i64, leap: bool, a11: i64, b11: i64, leap_off: i64) -> (r: i64)
    requires
        -1000 <= mm <= 1000,
        jd_in_bounds(a11 as int),
        jd_in_bounds(b11 as int),
        -1000 <= leap_off <= 1000,
    ensures
        r == spec_lunar_month_offset(mm as int, leap, a11 as int, b11 as int, leap_off as int),
{
    let mut off = mm - 11;
    if off < 0 {
        off = off + 12;
    }
    if b11 - a11 > 365 {
        let mut leap_month = leap_off - 2;
        if leap_month < 0 {
            leap_month = leap_month + 12;
        }
        if leap && leap_month != mm {
        } else if leap || off >= leap_off {
            off = off + 1;
        }
    }
    off
}

// ===========================================================================
// Luật
// ===========================================================================

/// Đổi Âm → Dương lấy lại đúng vị trí tháng mà phép đổi Dương → Âm đã đọc ra:
/// với tháng thứ `diff` (tính từ tháng 11 `a11`) của một khung, ngày âm ráp từ
/// khung ([`spec_lunar_from_frame`]) cho vị trí tháng
/// ([`spec_lunar_month_offset`]) đúng bằng `diff`.
///
/// Khung thường có 12 tháng (`diff` 0..11); khung có tháng nhuận có 13 tháng
/// (`diff` 0..12) với tháng nhuận ở vị trí `leap_off` (1..12). Ngoại lệ duy nhất:
/// tháng 12 nhuận (`leap_off == 2`, `diff == 2`), khi phép đổi Âm → Dương tính
/// tháng nhuận là 0 thay vì 12 nên không nhận ra tháng đó.
pub proof fn lemma_vi_tri_thang_khu_nguoc(
    day_number: int,
    month_start: int,
    frame_year: int,
    a11: int,
    b11: int,
    leap_off: int,
    diff: int,
)
    requires
        diff == (month_start - a11) / 29,
        b11 - a11 > 365 ==> 0 <= diff <= 12 && 1 <= leap_off <= 12 && !(leap_off == 2 && diff == 2),
        b11 - a11 <= 365 ==> 0 <= diff <= 11,
    ensures
        ({
            let raw = spec_lunar_from_frame(day_number, month_start, frame_year, a11, b11, leap_off);
            spec_lunar_month_offset(raw.month as int, raw.leap, a11, b11, leap_off) == diff
        }),
{
}

/// Năm âm đổi ở tháng Giêng: trong một khung tháng 11 âm `a11 .. b11` (12 tháng,
/// hoặc 13 tháng khi có tháng nhuận ở vị trí 1..12), tháng bắt đầu ở
/// `month_start` là tháng 1..12; các tháng 11, 12 (kể cả nhuận) đầu khung thuộc
/// năm âm `frame_year − 1`, các tháng 1..10 thuộc năm `frame_year`.
pub proof fn lemma_nam_am_doi_o_thang_gieng(
    day_number: int,
    month_start: int,
    frame_year: int,
    a11: int,
    b11: int,
    leap_offset: int,
)
    requires
        a11 <= month_start <= b11 - 29,
        b11 - a11 <= 385,
        b11 - a11 > 365 ==> 1 <= leap_offset <= 12,
        jd_in_bounds(frame_year),
    ensures
        ({
            let r = spec_lunar_from_frame(day_number, month_start, frame_year, a11, b11, leap_offset);
            let k = (month_start - a11) / 29;
            let nhuan = b11 - a11 > 365;
            &&& 1 <= r.month <= 12
            &&& r.month >= 11 ==> r.year == frame_year - 1
            &&& r.month <= 10 ==> r.year == frame_year
            &&& r.day == (day_number - month_start + 1) as i64
            &&& r.leap == (nhuan && k == leap_offset)
            &&& r.month == (if nhuan && k >= leap_offset { (k + 9) % 12 + 1 } else { (k + 10) % 12 + 1 })
        }),
{
    let diff = (month_start - a11) / 29;
    assert(0 <= diff);
    if b11 - a11 > 365 {
        assert(diff <= 12);
    } else {
        assert(diff <= 11);
    }
    let shifted = b11 - a11 > 365 && diff >= leap_offset;
    let m0 = if shifted { diff + 10 } else { diff + 11 };
    let month = if m0 > 12 { m0 - 12 } else { m0 };
    let year = if month >= 11 && diff < 4 { frame_year - 1 } else { frame_year };
    assert(1 <= month <= 12);
    assert(month >= 11 ==> diff < 4);
    assert(month <= 10 ==> year == frame_year);
    let r = spec_lunar_from_frame(day_number, month_start, frame_year, a11, b11, leap_offset);
    assert(r.month == month && r.year == year);
    assert(month == (if shifted { (diff + 9) % 12 + 1 } else { (diff + 10) % 12 + 1 }));
}

} // verus!
