//! Bát Tự của những ngày sinh nằm sát (phần lớn là đúng trên) mốc giao tiết:
//! Tứ Trụ phải khớp lịch tiết khí của Đài Thiên văn Hồng Kông (quy về giờ Việt
//! Nam). Và Tử Vi, vốn chỉ dựa vào ngày Âm lịch và giờ sinh, không đổi cung
//! Mệnh khi bước qua mốc Lập Xuân.
//!
//! Mốc tiết khí của từng ca là kết quả phép tính thiên văn của ứng dụng, ghi
//! sẵn ở đây.

use tinhban::bat_tu::{lap_bat_tu, BatTuChart};
use tinhban::tuvi::{lap_la_so, Gender};
use tinhban::{solar_to_lunar, BirthMoment, EarthlyBranch, HeavenlyStem, SolarDate};

#[allow(dead_code)]
struct BoundaryCase {
    label: &'static str,
    birth: (i32, u8, u8, u8),
    bt_year: i32,
    bt_month: u8,
    year_can: u8,
    year_chi: u8,
    month_can: u8,
    month_chi: u8,
    day_can: u8,
    day_chi: u8,
    hour_can: u8,
    hour_chi: u8,
    lap_xuan: (i64, i64),
    tiet: [i64; 12],
}

const BOUNDARY_CASES: &[BoundaryCase] = &[
    BoundaryCase {
        label: "lx_1980_dung_ngay",
        birth: (1980, 2, 4, 10),
        bt_year: 1980, bt_month: 1,
        year_can: 6, year_chi: 8,
        month_can: 4, month_chi: 2,
        day_can: 3, day_chi: 7,
        hour_can: 1, hour_chi: 5,
        lap_xuan: (2444274, 2444640),
        tiet: [2444274, 2444304, 2444334, 2444365, 2444396, 2444428, 2444459, 2444490, 2444521, 2444551, 2444581, 2444610],
    },
    BoundaryCase {
        label: "lx_1980_truoc_1n",
        birth: (1980, 2, 3, 10),
        bt_year: 1979, bt_month: 12,
        year_can: 5, year_chi: 7,
        month_can: 3, month_chi: 1,
        day_can: 2, day_chi: 6,
        hour_can: 9, hour_chi: 5,
        lap_xuan: (2444274, 2444640),
        tiet: [2443909, 2443939, 2443969, 2444000, 2444031, 2444063, 2444094, 2444125, 2444156, 2444186, 2444216, 2444245],
    },
    BoundaryCase {
        label: "lx_1991_dung_ngay",
        birth: (1991, 2, 4, 10),
        bt_year: 1991, bt_month: 1,
        year_can: 7, year_chi: 7,
        month_can: 6, month_chi: 2,
        day_can: 1, day_chi: 5,
        hour_can: 7, hour_chi: 5,
        lap_xuan: (2448292, 2448657),
        tiet: [2448292, 2448322, 2448352, 2448383, 2448414, 2448445, 2448477, 2448508, 2448539, 2448569, 2448598, 2448628],
    },
    BoundaryCase {
        label: "lx_2000_dung_ngay",
        birth: (2000, 2, 4, 10),
        bt_year: 2000, bt_month: 1,
        year_can: 6, year_chi: 4,
        month_can: 4, month_chi: 2,
        day_can: 8, day_chi: 4,
        hour_can: 1, hour_chi: 5,
        lap_xuan: (2451579, 2451945),
        tiet: [2451579, 2451609, 2451639, 2451670, 2451701, 2451733, 2451764, 2451795, 2451826, 2451856, 2451886, 2451915],
    },
    BoundaryCase {
        label: "lx_2024_dung_ngay",
        birth: (2024, 2, 4, 10),
        bt_year: 2024, bt_month: 1,
        year_can: 0, year_chi: 4,
        month_can: 2, month_chi: 2,
        day_can: 4, day_chi: 10,
        hour_can: 3, hour_chi: 5,
        lap_xuan: (2460345, 2460710),
        tiet: [2460345, 2460375, 2460405, 2460436, 2460467, 2460498, 2460530, 2460561, 2460592, 2460622, 2460651, 2460681],
    },
    BoundaryCase {
        label: "lx_2024_truoc_1n",
        birth: (2024, 2, 3, 10),
        bt_year: 2023, bt_month: 12,
        year_can: 9, year_chi: 3,
        month_can: 1, month_chi: 1,
        day_can: 3, day_chi: 9,
        hour_can: 1, hour_chi: 5,
        lap_xuan: (2460345, 2460710),
        tiet: [2459980, 2460010, 2460040, 2460071, 2460102, 2460133, 2460165, 2460196, 2460226, 2460256, 2460286, 2460316],
    },
    BoundaryCase {
        label: "lx_2025_dung_ngay",
        birth: (2025, 2, 3, 10),
        bt_year: 2025, bt_month: 1,
        year_can: 1, year_chi: 5,
        month_can: 4, month_chi: 2,
        day_can: 9, day_chi: 3,
        hour_can: 3, hour_chi: 5,
        lap_xuan: (2460710, 2461076),
        tiet: [2460710, 2460740, 2460770, 2460801, 2460832, 2460864, 2460895, 2460926, 2460957, 2460987, 2461017, 2461046],
    },
    BoundaryCase {
        label: "lx_2025_truoc_1n",
        birth: (2025, 2, 2, 10),
        bt_year: 2024, bt_month: 12,
        year_can: 0, year_chi: 4,
        month_can: 3, month_chi: 1,
        day_can: 8, day_chi: 2,
        hour_can: 1, hour_chi: 5,
        lap_xuan: (2460710, 2461076),
        tiet: [2460345, 2460375, 2460405, 2460436, 2460467, 2460498, 2460530, 2460561, 2460592, 2460622, 2460651, 2460681],
    },
    BoundaryCase {
        label: "tieu_han_2010",
        birth: (2010, 1, 5, 14),
        bt_year: 2009, bt_month: 12,
        year_can: 5, year_chi: 1,
        month_can: 3, month_chi: 1,
        day_can: 1, day_chi: 3,
        hour_can: 9, hour_chi: 7,
        lap_xuan: (2455232, 2455597),
        tiet: [2454866, 2454896, 2454926, 2454957, 2454988, 2455020, 2455051, 2455082, 2455113, 2455143, 2455173, 2455202],
    },
    BoundaryCase {
        label: "thanh_minh_2020",
        birth: (2020, 4, 4, 14),
        bt_year: 2020, bt_month: 3,
        year_can: 6, year_chi: 0,
        month_can: 6, month_chi: 4,
        day_can: 3, day_chi: 1,
        hour_can: 3, hour_chi: 7,
        lap_xuan: (2458884, 2459249),
        tiet: [2458884, 2458914, 2458944, 2458975, 2459006, 2459037, 2459069, 2459100, 2459131, 2459161, 2459190, 2459220],
    },
    BoundaryCase {
        label: "bach_lo_1985",
        birth: (1985, 9, 7, 14),
        bt_year: 1985, bt_month: 8,
        year_can: 1, year_chi: 1,
        month_can: 1, month_chi: 9,
        day_can: 5, day_chi: 9,
        hour_can: 7, hour_chi: 7,
        lap_xuan: (2446101, 2446466),
        tiet: [2446101, 2446130, 2446161, 2446191, 2446223, 2446254, 2446285, 2446316, 2446347, 2446377, 2446407, 2446436],
    },
];

#[test]
fn bat_tu_gan_bien_tiet_khi_khop_dai_thien_van_hong_kong() {
    let mut loi: Vec<String> = Vec::new();
    for c in BOUNDARY_CASES {
        let (y, m, d, h) = c.birth;
        let birth = BirthMoment { solar_date: SolarDate::new(y, m, d).unwrap(), hour: h, minute: 0 };
        let chart: BatTuChart = match lap_bat_tu(birth, Gender::Nam, c.lap_xuan.0, c.lap_xuan.1, &c.tiet) {
            Ok(x) => x,
            Err(e) => {
                loi.push(format!("{}: lap_bat_tu lỗi: {:?}", c.label, e));
                continue;
            }
        };
        let mut chk = |ten: &str, thuc: (u8, u8), mong: (u8, u8)| {
            if thuc != mong {
                loi.push(format!(
                    "{} ({}-{:02}-{:02}): trụ {ten} = ({}, {}) nhưng HKO cho ({}, {})",
                    c.label, y, m, d, thuc.0, thuc.1, mong.0, mong.1
                ));
            }
        };
        let p = &chart.year_pillar.can_chi;
        chk("Năm", (p.stem.index(), p.branch.index()), (c.year_can, c.year_chi));
        let p = &chart.month_pillar.can_chi;
        chk("Tháng", (p.stem.index(), p.branch.index()), (c.month_can, c.month_chi));
        let p = &chart.day_pillar.can_chi;
        chk("Ngày", (p.stem.index(), p.branch.index()), (c.day_can, c.day_chi));
        let p = &chart.hour_pillar.can_chi;
        chk("Giờ", (p.stem.index(), p.branch.index()), (c.hour_can, c.hour_chi));
    }
    assert!(loi.is_empty(), "{} case biên sai:\n  - {}", loi.len(), loi.join("\n  - "));
}

/// 3/2/2024 và 4/2/2024 nằm hai bên mốc Lập Xuân 2024 (4/2): Bát Tự đổi trụ
/// Năm, còn cung Mệnh của Tử Vi (chỉ theo tháng Âm lịch và giờ) giữ nguyên.
#[test]
fn tuvi_khong_doi_cung_menh_qua_moc_lap_xuan() {
    // Khung tháng Âm lịch quanh Tết Giáp Thìn: tháng Chạp bắt đầu JD 2460321,
    // khung tháng 11 âm 2460292 → 2460646, không có tháng nhuận.
    let lam = |d: u8| {
        let date = SolarDate::new(2024, 2, d).unwrap();
        let lunar = solar_to_lunar(date, 2460321, 2024, 2460292, 2460646, 0).unwrap();
        lap_la_so(BirthMoment { solar_date: date, hour: 10, minute: 0 }, lunar, Gender::Nam)
            .expect("lập được lá số")
    };
    let truoc = lam(3);
    let sau = lam(4);
    assert_eq!(truoc.lunar.month, sau.lunar.month, "hai ngày phải cùng tháng Âm");
    assert_eq!(
        truoc.menh_branch, sau.menh_branch,
        "cung Mệnh không được đổi khi bước qua mốc Lập Xuân"
    );

    // Tiết khí năm Bát Tự 2023 và 2024.
    let tiet_2023: [i64; 12] = [
        2459980, 2460010, 2460040, 2460071, 2460102, 2460133, 2460165, 2460196, 2460226, 2460256,
        2460286, 2460316,
    ];
    let tiet_2024: [i64; 12] = [
        2460345, 2460375, 2460405, 2460436, 2460467, 2460498, 2460530, 2460561, 2460592, 2460622,
        2460651, 2460681,
    ];
    let bt = |d: u8, tiet: &[i64; 12]| {
        let birth = BirthMoment { solar_date: SolarDate::new(2024, 2, d).unwrap(), hour: 10, minute: 0 };
        lap_bat_tu(birth, Gender::Nam, 2460345, 2460710, tiet).unwrap()
    };
    assert_eq!(bt(3, &tiet_2023).year_pillar.can_chi.stem, HeavenlyStem::Quy);
    assert_eq!(bt(3, &tiet_2023).year_pillar.can_chi.branch, EarthlyBranch::Mao);
    assert_eq!(bt(4, &tiet_2024).year_pillar.can_chi.stem, HeavenlyStem::Giap);
    assert_eq!(bt(4, &tiet_2024).year_pillar.can_chi.branch, EarthlyBranch::Thin);
}
