//! Đổi lịch Dương ↔ Âm (phần số nguyên) và Julian Day.

use tinhban::astronomy::{jd_from_date, jd_to_date, LunarRaw};
use tinhban::lich::solar_of_jd;
use tinhban::{lunar_to_solar, solar_to_lunar, LunarDate, LunarError, SolarDate};

fn ngay(y: i32, m: u8, d: u8) -> SolarDate {
    SolarDate::new(y, m, d).unwrap()
}

/// Mốc sóc của tháng Giêng Giáp Thìn 2024 theo phép tính thiên văn của ứng
/// dụng: tháng bắt đầu JD 2460351 (10/2/2024), khung tháng 11 âm 2460292 →
/// 2460646 của năm 2024, không có tháng nhuận.
fn s2l_2024(d: SolarDate) -> Result<LunarDate, LunarError> {
    solar_to_lunar(d, 2460351, 2024, 2460292, 2460646, 0)
}

#[test]
fn tet_solar_to_lunar_returns_day1_month1() {
    let lunar = s2l_2024(ngay(2024, 2, 10)).unwrap();
    assert_eq!(lunar, LunarDate { day: 1, month: 1, year: 2024, is_leap_month: false });
}

#[test]
fn tet_lunar_to_solar_returns_inverse() {
    let lunar = LunarDate { day: 1, month: 1, year: 2024, is_leap_month: false };
    let roundtrip = LunarRaw { day: 1, month: 1, year: 2024, leap: false };
    assert_eq!(lunar_to_solar(lunar, 2460351, roundtrip).unwrap(), ngay(2024, 2, 10));
}

#[test]
fn leap_day_in_solar_leap_year_2024_feb29() {
    let d = ngay(2024, 2, 29);
    let lunar = s2l_2024(d).unwrap();
    assert_eq!(lunar, LunarDate { day: 20, month: 1, year: 2024, is_leap_month: false });
    let roundtrip = LunarRaw { day: 20, month: 1, year: 2024, leap: false };
    assert_eq!(lunar_to_solar(lunar, d.to_jd(), roundtrip).unwrap(), d);
}

#[test]
fn out_of_range_solar_year_1899_returns_error() {
    let d = ngay(1899, 12, 31);
    assert_eq!(
        solar_to_lunar(d, 2414992, 1899, 2414637, 2414992, 0).unwrap_err(),
        LunarError::OutOfRange("năm 1899 ngoài phạm vi hỗ trợ 1900–2100".into())
    );
}

#[test]
fn out_of_range_solar_year_2101_returns_error() {
    let d = ngay(2101, 1, 1);
    assert!(matches!(solar_to_lunar(d, 0, 2101, 0, 0, 0).unwrap_err(), LunarError::OutOfRange(_)));
}

#[test]
fn invalid_lunar_month_13_returns_error() {
    let lunar = LunarDate { day: 1, month: 13, year: 2024, is_leap_month: false };
    let rt = LunarRaw { day: 1, month: 1, year: 2025, leap: false };
    let err = lunar_to_solar(lunar, 2460700, rt).unwrap_err();
    assert!(matches!(err, LunarError::InvalidLunarDate(_)));
}

#[test]
fn invalid_leap_month_when_year_has_no_leap_returns_error() {
    // 2024 (Giáp Thìn) không có tháng nhuận → "1/1 nhuận 2024" là invalid: đổi
    // ngược ngày tìm được không ra tháng nhuận.
    let lunar = LunarDate { day: 1, month: 1, year: 2024, is_leap_month: true };
    let rt = LunarRaw { day: 1, month: 1, year: 2024, leap: false };
    let err = lunar_to_solar(lunar, 2460351, rt).unwrap_err();
    assert_eq!(
        err,
        LunarError::InvalidLunarDate(
            "ngày âm 1/1/2024 (nhuận) không tồn tại (năm 2024 không có tháng 1 nhuận)".into()
        )
    );
}

#[test]
fn invalid_day_31_returns_error() {
    let lunar = LunarDate { day: 31, month: 1, year: 2024, is_leap_month: false };
    let rt = LunarRaw { day: 1, month: 2, year: 2024, leap: false };
    let err = lunar_to_solar(lunar, 2460381, rt).unwrap_err();
    assert_eq!(
        err,
        LunarError::InvalidLunarDate("ngày âm phải nằm trong 1..=30, nhận được 31".into())
    );
}

#[test]
fn solar_dec_31_belongs_to_previous_lunar_year() {
    // 31/12/2023: tháng 11 âm Quý Mão bắt đầu 13/12/2023 (JD 2460292); khung
    // 2459908 → 2460292 có tháng nhuận ở vị trí 3.
    let lunar = solar_to_lunar(ngay(2023, 12, 31), 2460292, 2023, 2459908, 2460292, 3).unwrap();
    assert_eq!(lunar, LunarDate { day: 19, month: 11, year: 2023, is_leap_month: false });
}

#[test]
fn jd_khu_nguoc_qua_cac_moc() {
    for (y, m, d) in [(1583, 1, 1), (1900, 2, 28), (2000, 2, 29), (2023, 12, 31), (2100, 3, 1)] {
        let s = ngay(y, m, d);
        let jd = s.to_jd();
        assert_eq!(jd_to_date(jd), (d as i64, m as i64, y as i64));
        assert_eq!(solar_of_jd(jd).unwrap(), s);
        assert_eq!(s.succ().to_jd(), jd + 1);
    }
    assert_eq!(jd_from_date(1, 1, 2000), 2451545);
    assert_eq!(jd_from_date(15, 10, 1582), 2299161);
}

#[test]
fn jd_from_date_ngoai_mien_thuong_dung() {
    // 1/1/4713 TCN (năm thiên văn −4712) là JD 0 của lịch Julius.
    assert_eq!(jd_from_date(1, 1, -4712), 0);
    // Trước đó công thức vẫn tính (phép chia cắt về 0).
    assert_eq!(jd_from_date(1, 1, -5000), -105191);
    // Tháng ngoài 1..12 đi theo đúng công thức: tháng 14/2024 là tháng 2/2025.
    assert_eq!(jd_from_date(1, 14, 2024), 2460708);
    assert_eq!(jd_from_date(1, 2, 2025), 2460708);
}
