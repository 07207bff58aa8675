//! Lập lá số Tử Vi và Bát Tự cho vài ngày sinh, đối chiếu kết quả đã biết.

use tinhban::bat_tu::{lap_bat_tu, BatTuError};
use tinhban::trach_nhat::{danh_gia_ngay, khoang_ngay};
use tinhban::tuvi::{lap_la_so, Gender, Sao, SaoCategory};
use tinhban::{BirthMoment, EarthlyBranch, HeavenlyStem, LunarDate, LunarError, SolarDate};

/// Tiết khí (Lập Xuân … Tiểu Hàn) của năm Bát Tự 1991 và 1989, theo phép tính
/// thiên văn của ứng dụng.
const TIET_1991: [i64; 12] = [
    2448292, 2448322, 2448352, 2448383, 2448414, 2448445, 2448477, 2448508, 2448539, 2448569,
    2448598, 2448628,
];
const TIET_1989: [i64; 12] = [
    2447562, 2447591, 2447622, 2447652, 2447683, 2447715, 2447746, 2447777, 2447808, 2447838,
    2447868, 2447897,
];

fn ngay(y: i32, m: u8, d: u8) -> SolarDate {
    SolarDate::new(y, m, d).unwrap()
}

#[test]
fn lap_bat_tu_smoke_does_not_panic_for_a_safe_birth() {
    // 24/10/1991 — giữa tháng 10, rất xa biên tiết.
    let birth = BirthMoment { solar_date: ngay(1991, 10, 24), hour: 7, minute: 0 };
    let chart = lap_bat_tu(birth, Gender::Nam, 2448292, 2448657, &TIET_1991).unwrap();
    assert_eq!(
        (chart.year_pillar.stem(), chart.year_pillar.branch()),
        (HeavenlyStem::Tan, EarthlyBranch::Mui),
        "expected Tân Mùi for Oct 24 1991",
    );
    assert_eq!(chart.nguhanh_count.total(), 8);
}

#[test]
fn lap_bat_tu_year_prior_to_lap_xuan_returns_previous_year() {
    // 10/01/1990 (~4 tuần trước Lập Xuân 1990) → năm Bát Tự 1989 (Kỷ Tỵ).
    let birth = BirthMoment { solar_date: ngay(1990, 1, 10), hour: 10, minute: 0 };
    let chart = lap_bat_tu(birth, Gender::Nu, 2447927, 2448292, &TIET_1989).unwrap();
    assert_eq!(
        (chart.year_pillar.stem(), chart.year_pillar.branch()),
        (HeavenlyStem::Ky, EarthlyBranch::Ty2),
        "expected Kỷ Tỵ for Jan 10 1990 (pre-Lập Xuân 1990)",
    );
}

#[test]
fn nguhanh_count_for_safe_chart_has_total_eight() {
    let birth = BirthMoment { solar_date: ngay(1991, 10, 24), hour: 7, minute: 0 };
    let chart = lap_bat_tu(birth, Gender::Nam, 2448292, 2448657, &TIET_1991).unwrap();
    assert_eq!(chart.nguhanh_count.total(), 8);
}

#[test]
fn lap_bat_tu_gio_sai_va_nam_ngoai_pham_vi() {
    let birth = BirthMoment { solar_date: ngay(1991, 10, 24), hour: 24, minute: 0 };
    assert!(matches!(
        lap_bat_tu(birth, Gender::Nam, 2448292, 2448657, &TIET_1991),
        Err(BatTuError::Lunar(LunarError::InvalidLunarDate(_)))
    ));
    let birth = BirthMoment { solar_date: ngay(2101, 1, 1), hour: 1, minute: 0 };
    assert!(matches!(
        lap_bat_tu(birth, Gender::Nam, 0, 0, &TIET_1991),
        Err(BatTuError::OutOfRange(_))
    ));
}

fn chinh_tinh_count(c: &tinhban::tuvi::TuViChart) -> usize {
    c.palaces
        .iter()
        .map(|p| p.stars.iter().filter(|s| s.category() == SaoCategory::ChinhTinh).count())
        .sum()
}

#[test]
fn lap_la_so_smoke_does_not_panic() {
    let birth = BirthMoment { solar_date: ngay(1991, 10, 24), hour: 7, minute: 30 };
    let lunar = LunarDate { day: 17, month: 9, year: 1991, is_leap_month: false };
    let chart = lap_la_so(birth, lunar, Gender::Nam).unwrap();
    assert_eq!(chart.palaces.len(), 12);
    assert_eq!(chinh_tinh_count(&chart), 14, "expected 14 chính tinh");
    assert_eq!(chart.palaces.iter().filter(|p| p.is_than).count(), 1);
    assert_eq!(chart.palaces.iter().filter(|p| p.is_menh).count(), 1);
}

#[test]
fn chinh_tinh_count_is_14_for_any_chart() {
    let birth = BirthMoment { solar_date: ngay(2024, 2, 10), hour: 12, minute: 0 };
    let lunar = LunarDate { day: 1, month: 1, year: 2024, is_leap_month: false };
    let chart = lap_la_so(birth, lunar, Gender::Nam).unwrap();
    assert_eq!(chinh_tinh_count(&chart), 14);
}

#[test]
fn thien_phu_is_opposite_of_tu_vi_via_suu_mui_axis() {
    let birth = BirthMoment { solar_date: ngay(1991, 10, 24), hour: 7, minute: 30 };
    let lunar = LunarDate { day: 17, month: 9, year: 1991, is_leap_month: false };
    let chart = lap_la_so(birth, lunar, Gender::Nam).unwrap();
    for p in chart.palaces.iter() {
        if p.has_star(Sao::TuVi) {
            let tuvi = p.branch.index() as i64;
            for q in chart.palaces.iter() {
                if q.has_star(Sao::ThienPhu) {
                    let thienphu = q.branch.index() as i64;
                    assert_eq!(
                        (tuvi + thienphu).rem_euclid(12),
                        4,
                        "Tử Vi ({tuvi}) + Thiên Phủ ({thienphu}) ≡ 4 mod 12"
                    );
                }
            }
        }
    }
}

#[test]
fn khoang_ngay_tra_du_so_ngay() {
    let a = ngay(2024, 3, 1);
    let b = ngay(2024, 3, 31);
    let v = khoang_ngay(a, b).unwrap();
    assert_eq!(v.len(), 31);
    assert_eq!(v[0], a);
    assert_eq!(v[30], b);
}

#[test]
fn khoang_nguoc_bao_loi() {
    let a = ngay(2024, 3, 10);
    let b = ngay(2024, 3, 1);
    assert!(khoang_ngay(a, b).is_err());
}

#[test]
fn ngoai_pham_vi_bao_loi() {
    // Âm lịch và kinh độ Mặt Trời cuối ngày 31/12/1899 theo phép tính của ứng dụng.
    let lunar = LunarDate { day: 29, month: 11, year: 1899, is_leap_month: false };
    let d = ngay(1899, 12, 31);
    assert!(matches!(danh_gia_ngay(d, lunar, 279), Err(LunarError::OutOfRange(_))));
}

#[test]
fn gio_tot_va_xau_phu_kin_12_khung() {
    let lunar = LunarDate { day: 6, month: 2, year: 2024, is_leap_month: false };
    let a = danh_gia_ngay(ngay(2024, 3, 15), lunar, 355).unwrap();
    assert_eq!(a.cac_gio.len(), 12);
    assert_eq!(a.gio_hoang_dao.len(), 6);
    assert_eq!(a.gio_hac_dao.len(), 6);
    assert!(a.gio_hoang_dao.iter().all(|g| !a.gio_hac_dao.contains(g)));
}
