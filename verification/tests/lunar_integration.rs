//! Can–Chi có kiểm tra phạm vi: năm, tháng, ngày, giờ, Ngũ Hành.

use tinhban::{
    can_chi_display, day_can_chi, hour_can_chi, month_can_chi, nguhanh_of_branch,
    nguhanh_of_stem, year_can_chi, EarthlyBranch, HeavenlyStem, LunarError, NguHanh, SolarDate,
};

/// Ngày `offset` ngày sau `start`.
fn plus_days(start: SolarDate, offset: i64) -> SolarDate {
    let mut d = start;
    for _ in 0..offset {
        d = d.succ();
    }
    d
}

#[test]
fn year_can_chi_well_known_anchors() {
    // Sanity check: những năm thường thấy trong văn hoá Việt Nam.
    let cases: &[(i32, &str)] = &[
        (2024, "Giáp Thìn"),
        (2025, "Ất Tỵ"),
        (2026, "Bính Ngọ"),
        (2000, "Canh Thìn"),
        (1996, "Bính Tý"),
        (1900, "Canh Tý"),
    ];
    for &(y, expected) in cases {
        let cc = year_can_chi(y).unwrap();
        let s = can_chi_display(cc);
        assert_eq!(s, expected, "year {}", y);
    }
}

#[test]
fn month_can_chi_branch_is_correct_12month_sequence() {
    // Dần, Mão, Thìn, Tỵ, Ngọ, Mùi, Thân, Dậu, Tuất, Hợi, Tý, Sửu.
    let branches = [
        EarthlyBranch::Dan,
        EarthlyBranch::Mao,
        EarthlyBranch::Thin,
        EarthlyBranch::Ty2,
        EarthlyBranch::Ngo,
        EarthlyBranch::Mui,
        EarthlyBranch::Than,
        EarthlyBranch::Dau,
        EarthlyBranch::Tuat,
        EarthlyBranch::Hoi,
        EarthlyBranch::Ty,
        EarthlyBranch::Suu,
    ];
    for (i, b) in branches.iter().enumerate() {
        let cc = month_can_chi(HeavenlyStem::Giap, (i + 1) as u8).unwrap();
        assert_eq!(cc.branch, *b, "month {}", i + 1);
    }
}

#[test]
fn month_can_chi_ngu_thu_don_with_year_2024() {
    // Năm Giáp Thìn (= 2024): month 1 = Bính Dần.
    let cc = month_can_chi(HeavenlyStem::Giap, 1).unwrap();
    assert_eq!(&can_chi_display(cc), "Bính Dần");
    // month 2: stem = Bính + 1 = Đinh, branch = Mão
    let cc = month_can_chi(HeavenlyStem::Giap, 2).unwrap();
    assert_eq!(&can_chi_display(cc), "Đinh Mão");
}

#[test]
fn hour_can_chi_branch_sequence() {
    // Test 24 giờ: 23 → Tý, 0 → Tý, 1-2 → Sửu, ....
    let cases: &[(u8, EarthlyBranch)] = &[
        (0, EarthlyBranch::Ty),
        (1, EarthlyBranch::Suu),
        (2, EarthlyBranch::Suu),
        (3, EarthlyBranch::Dan),
        (4, EarthlyBranch::Dan),
        (5, EarthlyBranch::Mao),
        (6, EarthlyBranch::Mao),
        (7, EarthlyBranch::Thin),
        (8, EarthlyBranch::Thin),
        (9, EarthlyBranch::Ty2),
        (10, EarthlyBranch::Ty2),
        (11, EarthlyBranch::Ngo),
        (12, EarthlyBranch::Ngo),
        (13, EarthlyBranch::Mui),
        (14, EarthlyBranch::Mui),
        (15, EarthlyBranch::Than),
        (16, EarthlyBranch::Than),
        (17, EarthlyBranch::Dau),
        (18, EarthlyBranch::Dau),
        (19, EarthlyBranch::Tuat),
        (20, EarthlyBranch::Tuat),
        (21, EarthlyBranch::Hoi),
        (22, EarthlyBranch::Hoi),
        (23, EarthlyBranch::Ty),
    ];
    for &(h, b) in cases {
        let cc = hour_can_chi(HeavenlyStem::Giap, h).unwrap();
        assert_eq!(cc.branch, b, "hour {}", h);
    }
}

#[test]
fn hour_can_chi_ngu_thu_don_thoi() {
    // Ngày Giáp → giờ Tý Giáp Tý; ngày Ất → Bính Tý; ... (đối chiếu bảng Ngũ Thử Độn Thời)
    let table: &[(HeavenlyStem, HeavenlyStem)] = &[
        (HeavenlyStem::Giap, HeavenlyStem::Giap),
        (HeavenlyStem::Ky, HeavenlyStem::Giap),
        (HeavenlyStem::At, HeavenlyStem::Binh),
        (HeavenlyStem::Canh, HeavenlyStem::Binh),
        (HeavenlyStem::Binh, HeavenlyStem::Mau),
        (HeavenlyStem::Tan, HeavenlyStem::Mau),
        (HeavenlyStem::Dinh, HeavenlyStem::Canh),
        (HeavenlyStem::Nham, HeavenlyStem::Canh),
        (HeavenlyStem::Mau, HeavenlyStem::Nham),
        (HeavenlyStem::Quy, HeavenlyStem::Nham),
    ];
    for &(day_stem, ty_stem) in table {
        let cc = hour_can_chi(day_stem, 23).unwrap(); // 23h luôn là Tý
        assert_eq!(cc.branch, EarthlyBranch::Ty);
        assert_eq!(cc.stem, ty_stem);
    }
}

#[test]
fn nguhanh_of_stem_complete_table() {
    let table: &[(HeavenlyStem, NguHanh)] = &[
        (HeavenlyStem::Giap, NguHanh::Moc),
        (HeavenlyStem::At, NguHanh::Moc),
        (HeavenlyStem::Binh, NguHanh::Hoa),
        (HeavenlyStem::Dinh, NguHanh::Hoa),
        (HeavenlyStem::Mau, NguHanh::Tho),
        (HeavenlyStem::Ky, NguHanh::Tho),
        (HeavenlyStem::Canh, NguHanh::Kim),
        (HeavenlyStem::Tan, NguHanh::Kim),
        (HeavenlyStem::Nham, NguHanh::Thuy),
        (HeavenlyStem::Quy, NguHanh::Thuy),
    ];
    for &(stem, expected) in table {
        assert_eq!(nguhanh_of_stem(stem), expected);
    }
}

#[test]
fn nguhanh_of_branch_complete_table() {
    let table: &[(EarthlyBranch, NguHanh)] = &[
        (EarthlyBranch::Ty, NguHanh::Thuy),
        (EarthlyBranch::Suu, NguHanh::Tho),
        (EarthlyBranch::Dan, NguHanh::Moc),
        (EarthlyBranch::Mao, NguHanh::Moc),
        (EarthlyBranch::Thin, NguHanh::Tho),
        (EarthlyBranch::Ty2, NguHanh::Hoa),
        (EarthlyBranch::Ngo, NguHanh::Hoa),
        (EarthlyBranch::Mui, NguHanh::Tho),
        (EarthlyBranch::Than, NguHanh::Kim),
        (EarthlyBranch::Dau, NguHanh::Kim),
        (EarthlyBranch::Tuat, NguHanh::Tho),
        (EarthlyBranch::Hoi, NguHanh::Thuy),
    ];
    for &(b, expected) in table {
        assert_eq!(
            nguhanh_of_branch(b),
            expected,
            "branch {:?} expected {:?}",
            b,
            expected
        );
    }
}

#[test]
fn out_of_range_year_can_chi_returns_error() {
    assert!(matches!(
        year_can_chi(1899).unwrap_err(),
        LunarError::OutOfRange(_)
    ));
    assert!(matches!(
        year_can_chi(2101).unwrap_err(),
        LunarError::OutOfRange(_)
    ));
}

#[test]
fn hour_chi_wraps_at_23h_into_next_day_branch() {
    // 23h Dương lịch của bất kỳ ngày nào thuộc giờ Tý của ngày hôm sau theo trad tiếng Việt.
    // (theo传统的 "giờ Tý" begin 23h)
    let cc_23 = hour_can_chi(HeavenlyStem::Giap, 23).unwrap();
    let cc_0 = hour_can_chi(HeavenlyStem::Giap, 0).unwrap();
    assert_eq!(cc_23.branch, EarthlyBranch::Ty);
    assert_eq!(cc_0.branch, EarthlyBranch::Ty);
    assert_eq!(cc_23.stem, cc_0.stem, "giờ 23 và 0 thuộc cùng giờ Tý");
}

#[test]
fn hour_can_chi_out_of_range_returns_error() {
    assert!(matches!(
        hour_can_chi(HeavenlyStem::Giap, 24).unwrap_err(),
        LunarError::InvalidLunarDate(_)
    ));
}

#[test]
fn day_can_chi_60_cycle_consistency() {
    // Hai ngày cách nhau 60 ngày Dương lịch必有 cùng Can–Chi (chu kỳ 60 Giáp Tý).
    let start = SolarDate::new(2024, 1, 1).unwrap();
    for offset in 0..400 {
        let d1 = plus_days(start, offset);
        let d2 = plus_days(start, offset + 60);
        let c1 = day_can_chi(d1).unwrap();
        let c2 = day_can_chi(d2).unwrap();
        assert_eq!(c1, c2, "day {:?} vs {:?}+60 should match Can–Chi", d1, d2);
    }
}

#[test]
fn day_can_chi_consecutive_days_advance_by_one_step() {
    let start = SolarDate::new(2024, 5, 5).unwrap();
    for offset in 0..60 {
        let d1 = plus_days(start, offset);
        let d2 = plus_days(start, offset + 1);
        let c1 = day_can_chi(d1).unwrap();
        let c2 = day_can_chi(d2).unwrap();
        // Stem advances by 1 (mod 10), branch by 1 (mod 12).
        let expected_stem = HeavenlyStem::from_index((c1.stem.index() + 1) % 10).unwrap();
        let expected_branch =
            EarthlyBranch::from_index((c1.branch.index() + 1) % 12).unwrap();
        assert_eq!(c2.stem, expected_stem, "day {:?} → {:?} stem", d1, d2);
        assert_eq!(c2.branch, expected_branch, "day {:?} → {:?} branch", d1, d2);
    }
}
