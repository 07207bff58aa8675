//! Đối chiếu Bát Tự với bộ lá số mẫu (5 lá số + 2 ca sát Lập Xuân): Tứ Trụ
//! phải khớp chỉ số Can/Chi đã biết.
//!
//! Mốc tiết khí của từng ca (Lập Xuân năm sinh, Lập Xuân năm sau, 12 tiết của
//! năm Bát Tự) là kết quả phép tính thiên văn của ứng dụng, ghi sẵn ở đây.

use tinhban::bat_tu::{lap_bat_tu, BatTuChart};
use tinhban::tuvi::Gender;
use tinhban::{BirthMoment, EarthlyBranch, HeavenlyStem, SolarDate};

#[allow(dead_code)]
struct RefBtCase {
    label: &'static str,
    birth: (i32, u8, u8, u8),
    bt_year: i32,
    bt_month_1: u8,
    year_can_idx: u8,
    year_chi_idx: u8,
    month_can_idx: u8,
    month_chi_idx: u8,
    day_can_idx: u8,
    day_chi_idx: u8,
    hour_can_idx: u8,
    hour_chi_idx: u8,
    lap_xuan: (i64, i64),
    tiet: [i64; 12],
}

const REF_BT_CASES: &[RefBtCase] = &[
    RefBtCase {
        label: "case1",
        birth: (1991, 10, 24, 7),
        bt_year: 1991,
        bt_month_1: 9,
        year_can_idx: 7, year_chi_idx: 7,
        month_can_idx: 4, month_chi_idx: 10,
        day_can_idx: 3, day_chi_idx: 3,
        hour_can_idx: 0, hour_chi_idx: 4,
        lap_xuan: (2448292, 2448657),
        tiet: [2448292, 2448322, 2448352, 2448383, 2448414, 2448445, 2448477, 2448508, 2448539, 2448569, 2448598, 2448628],
    },
    RefBtCase {
        label: "case2",
        birth: (2026, 2, 17, 12),
        bt_year: 2026,
        bt_month_1: 1,
        year_can_idx: 2, year_chi_idx: 6,
        month_can_idx: 6, month_chi_idx: 2,
        day_can_idx: 8, day_chi_idx: 10,
        hour_can_idx: 2, hour_chi_idx: 6,
        lap_xuan: (2461076, 2461441),
        tiet: [2461076, 2461105, 2461136, 2461166, 2461197, 2461229, 2461260, 2461291, 2461322, 2461352, 2461382, 2461411],
    },
    RefBtCase {
        label: "case3",
        birth: (2024, 2, 10, 0),
        bt_year: 2024,
        bt_month_1: 1,
        year_can_idx: 0, year_chi_idx: 4,
        month_can_idx: 2, month_chi_idx: 2,
        day_can_idx: 0, day_chi_idx: 4,
        hour_can_idx: 0, hour_chi_idx: 0,
        lap_xuan: (2460345, 2460710),
        tiet: [2460345, 2460375, 2460405, 2460436, 2460467, 2460498, 2460530, 2460561, 2460592, 2460622, 2460651, 2460681],
    },
    RefBtCase {
        label: "case4",
        birth: (1990, 1, 29, 9),
        bt_year: 1989,
        bt_month_1: 12,
        year_can_idx: 5, year_chi_idx: 5,
        month_can_idx: 3, month_chi_idx: 1,
        day_can_idx: 0, day_chi_idx: 6,
        hour_can_idx: 5, hour_chi_idx: 5,
        lap_xuan: (2447927, 2448292),
        tiet: [2447562, 2447591, 2447622, 2447652, 2447683, 2447715, 2447746, 2447777, 2447808, 2447838, 2447868, 2447897],
    },
    RefBtCase {
        label: "case5",
        birth: (2000, 5, 5, 15),
        bt_year: 2000,
        bt_month_1: 4,
        year_can_idx: 6, year_chi_idx: 4,
        month_can_idx: 7, month_chi_idx: 5,
        day_can_idx: 9, day_chi_idx: 11,
        hour_can_idx: 6, hour_chi_idx: 8,
        lap_xuan: (2451579, 2451945),
        tiet: [2451579, 2451609, 2451639, 2451670, 2451701, 2451733, 2451764, 2451795, 2451826, 2451856, 2451886, 2451915],
    },
    RefBtCase {
        label: "case6",
        birth: (1991, 2, 6, 14),
        bt_year: 1991,
        bt_month_1: 1,
        year_can_idx: 7, year_chi_idx: 7,
        month_can_idx: 6, month_chi_idx: 2,
        day_can_idx: 3, day_chi_idx: 7,
        hour_can_idx: 3, hour_chi_idx: 7,
        lap_xuan: (2448292, 2448657),
        tiet: [2448292, 2448322, 2448352, 2448383, 2448414, 2448445, 2448477, 2448508, 2448539, 2448569, 2448598, 2448628],
    },
    RefBtCase {
        label: "case7",
        birth: (1990, 2, 1, 8),
        bt_year: 1989,
        bt_month_1: 12,
        year_can_idx: 5, year_chi_idx: 5,
        month_can_idx: 3, month_chi_idx: 1,
        day_can_idx: 3, day_chi_idx: 9,
        hour_can_idx: 0, hour_chi_idx: 4,
        lap_xuan: (2447927, 2448292),
        tiet: [2447562, 2447591, 2447622, 2447652, 2447683, 2447715, 2447746, 2447777, 2447808, 2447838, 2447868, 2447897],
    },
];

fn lap(case: &RefBtCase) -> BatTuChart {
    let (y, m, d, hour) = case.birth;
    let birth = BirthMoment { solar_date: SolarDate::new(y, m, d).unwrap(), hour, minute: 0 };
    match lap_bat_tu(birth, Gender::Nam, case.lap_xuan.0, case.lap_xuan.1, &case.tiet) {
        Ok(c) => c,
        Err(e) => panic!("case {}: lap_bat_tu failed: {:?}", case.label, e),
    }
}

fn case_named(label: &str) -> &'static RefBtCase {
    REF_BT_CASES.iter().find(|c| c.label == label).unwrap()
}

#[test]
fn all_reference_bt_cases_match_can_chi_indices() {
    let mut total_failures = 0;
    let mut total_checks = 0;
    for case in REF_BT_CASES {
        let chart = lap(case);
        let expected = [
            ("year", case.year_can_idx, case.year_chi_idx, &chart.year_pillar),
            ("month", case.month_can_idx, case.month_chi_idx, &chart.month_pillar),
            ("day", case.day_can_idx, case.day_chi_idx, &chart.day_pillar),
            ("hour", case.hour_can_idx, case.hour_chi_idx, &chart.hour_pillar),
        ];
        for (pillar_name, can_idx, chi_idx, pillar) in expected {
            let exp_can = HeavenlyStem::from_index(can_idx).unwrap();
            let exp_chi = EarthlyBranch::from_index(chi_idx).unwrap();
            total_checks += 2;
            if pillar.can_chi.stem != exp_can {
                total_failures += 1;
                println!(
                    "FAIL case {} {}: Can got {:?}, expected {:?}",
                    case.label, pillar_name, pillar.can_chi.stem, exp_can
                );
            }
            if pillar.can_chi.branch != exp_chi {
                total_failures += 1;
                println!(
                    "FAIL case {} {}: Chi got {:?}, expected {:?}",
                    case.label, pillar_name, pillar.can_chi.branch, exp_chi
                );
            }
        }
        assert_eq!(chart.nguhanh_count.total(), 8, "case {}: nguhanh count total must be 8", case.label);
    }
    assert_eq!(total_failures, 0, "{}/{} Tứ Trụ Can/Chi không khớp", total_failures, total_checks);
}

#[test]
fn lap_xuan_pre_birth_year_returns_previous_bt_year() {
    // case4: 29/01/1990 → năm Bát Tự 1989 (trước Lập Xuân 1990).
    let chart = lap(case_named("case4"));
    assert_eq!(chart.year_pillar.branch(), EarthlyBranch::Ty2);
}

#[test]
fn lap_xuan_edge_case_one_day_post_returns_next_year() {
    // case6: 06/02/1991, sau Lập Xuân 1991 → năm Bát Tự 1991 Tân Mùi.
    let chart = lap(case_named("case6"));
    assert_eq!(chart.year_pillar.stem(), HeavenlyStem::Tan, "case6: BT year=1991, Can=Tân");
    assert_eq!(chart.year_pillar.branch(), EarthlyBranch::Mui, "case6: BT Chi=Mùi");
}

#[test]
fn lap_xuan_edge_case_three_days_pre_returns_previous_bt_year() {
    // case7: 01/02/1990, 3 ngày trước Lập Xuân 1990 → năm Bát Tự 1989 Kỷ Tỵ.
    let chart = lap(case_named("case7"));
    assert_eq!(chart.year_pillar.stem(), HeavenlyStem::Ky, "case7: BT year=1989");
    assert_eq!(chart.year_pillar.branch(), EarthlyBranch::Ty2, "case7: BT Chi=Tỵ");
}

#[test]
fn nhat_chu_is_day_pillar_stem() {
    for case in REF_BT_CASES {
        let chart = lap(case);
        assert_eq!(chart.nhat_chu(), chart.day_pillar.can_chi.stem, "case {}", case.label);
    }
}

#[test]
fn day_pillar_ten_god_is_none() {
    for case in REF_BT_CASES {
        let chart = lap(case);
        assert!(chart.day_pillar.ten_god.is_none(), "case {}", case.label);
    }
}

#[test]
fn non_day_pillars_have_ten_god() {
    for case in REF_BT_CASES {
        let chart = lap(case);
        assert!(
            chart.year_pillar.ten_god.is_some()
                && chart.month_pillar.ten_god.is_some()
                && chart.hour_pillar.ten_god.is_some(),
            "case {}: trụ Năm/Tháng/Giờ phải có Thập Thần",
            case.label
        );
    }
}

#[test]
fn hidden_stems_attached_to_each_pillar() {
    for case in REF_BT_CASES {
        let chart = lap(case);
        for (i, p) in [&chart.year_pillar, &chart.month_pillar, &chart.day_pillar, &chart.hour_pillar]
            .iter()
            .enumerate()
        {
            assert!(!p.hidden_stems.is_empty(), "case {}: pillar[{}] phải có ≥ 1 can tàng", case.label, i);
            assert!(p.hidden_stems.len() <= 3, "case {}: pillar[{}] không quá 3 can tàng", case.label, i);
        }
    }
}
