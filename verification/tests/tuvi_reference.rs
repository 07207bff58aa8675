//! Đối chiếu Tử Vi với 5 lá số mẫu (10 ca: nam/nữ × 5 ngày sinh) lập bởi
//! `lasotuvi`: ngày Âm lịch, cung Mệnh/Thân và vị trí 27 sao phải khớp.
//!
//! Khung tháng Âm lịch của từng ngày sinh (`frame`: ngày sóc đầu tháng, năm của
//! khung, hai mốc tháng 11 âm, vị trí tháng nhuận) là kết quả phép tính thiên
//! văn của ứng dụng, ghi sẵn ở đây; ngày Âm lịch thì do thư viện tính.

use tinhban::tuvi::{lap_la_so, Gender, Sao, TuViChart};
use tinhban::{solar_to_lunar, BirthMoment, EarthlyBranch, SolarDate};

struct RefCase {
    label: &'static str,
    birth: (i32, u8, u8, u8),
    gender: Gender,
    frame: (i64, i64, i64, i64, i64),
    lunar_day: u8,
    lunar_month: u8,
    lunar_year: i32,
    menh_branch: u8,
    than_branch: u8,
    sao_positions: &'static [(&'static str, u8)],
}

const REF_CASES: &[RefCase] = &[
    RefCase {
        label: "case1_nam",
        birth: (1991, 10, 24, 7),
        gender: Gender::Nam,
        frame: (2448538, 1991, 2448243, 2448597, 0),
        lunar_day: 17, lunar_month: 9, lunar_year: 1991,
        menh_branch: 6,
        than_branch: 2,
        sao_positions: &[("CuMon", 4), ("DaLa", 8), ("DaoHoa", 0), ("HoaTinh", 5), ("HuuBat", 2), ("KinhDuong", 10), ("LiemTrinh", 7), ("LinhTinh", 2), ("LocTon", 9), ("PhaQuan", 11), ("TaPhu", 0), ("ThaiAm", 2), ("ThaiDuong", 0), ("ThamLang", 3), ("ThatSat", 7), ("ThienCo", 2), ("ThienDong", 10), ("ThienKhoi", 6), ("ThienLuong", 6), ("ThienMa", 5), ("ThienPhu", 1), ("ThienTuong", 5), ("ThienViet", 2), ("TuVi", 3), ("VanKhuc", 8), ("VanXuong", 6), ("VuKhuc", 11)],
    },
    RefCase {
        label: "case1_nu",
        birth: (1991, 10, 24, 7),
        gender: Gender::Nu,
        frame: (2448538, 1991, 2448243, 2448597, 0),
        lunar_day: 17, lunar_month: 9, lunar_year: 1991,
        menh_branch: 6,
        than_branch: 2,
        sao_positions: &[("CuMon", 4), ("DaLa", 8), ("DaoHoa", 0), ("HoaTinh", 1), ("HuuBat", 2), ("KinhDuong", 10), ("LiemTrinh", 7), ("LinhTinh", 6), ("LocTon", 9), ("PhaQuan", 11), ("TaPhu", 0), ("ThaiAm", 2), ("ThaiDuong", 0), ("ThamLang", 3), ("ThatSat", 7), ("ThienCo", 2), ("ThienDong", 10), ("ThienKhoi", 6), ("ThienLuong", 6), ("ThienMa", 5), ("ThienPhu", 1), ("ThienTuong", 5), ("ThienViet", 2), ("TuVi", 3), ("VanKhuc", 8), ("VanXuong", 6), ("VuKhuc", 11)],
    },
    RefCase {
        label: "case2_nam",
        birth: (2026, 2, 17, 12),
        gender: Gender::Nam,
        frame: (2461089, 2026, 2461030, 2461384, 0),
        lunar_day: 1, lunar_month: 1, lunar_year: 2026,
        menh_branch: 8,
        than_branch: 8,
        sao_positions: &[("CuMon", 10), ("DaLa", 4), ("DaoHoa", 3), ("HoaTinh", 7), ("HuuBat", 10), ("KinhDuong", 6), ("LiemTrinh", 1), ("LinhTinh", 9), ("LocTon", 5), ("PhaQuan", 5), ("TaPhu", 4), ("ThaiAm", 8), ("ThaiDuong", 6), ("ThamLang", 9), ("ThatSat", 1), ("ThienCo", 8), ("ThienDong", 4), ("ThienKhoi", 11), ("ThienLuong", 0), ("ThienMa", 8), ("ThienPhu", 7), ("ThienTuong", 11), ("ThienViet", 9), ("TuVi", 9), ("VanKhuc", 10), ("VanXuong", 4), ("VuKhuc", 5)],
    },
    RefCase {
        label: "case2_nu",
        birth: (2026, 2, 17, 12),
        gender: Gender::Nu,
        frame: (2461089, 2026, 2461030, 2461384, 0),
        lunar_day: 1, lunar_month: 1, lunar_year: 2026,
        menh_branch: 8,
        than_branch: 8,
        sao_positions: &[("CuMon", 10), ("DaLa", 4), ("DaoHoa", 3), ("HoaTinh", 7), ("HuuBat", 10), ("KinhDuong", 6), ("LiemTrinh", 1), ("LinhTinh", 9), ("LocTon", 5), ("PhaQuan", 5), ("TaPhu", 4), ("ThaiAm", 8), ("ThaiDuong", 6), ("ThamLang", 9), ("ThatSat", 1), ("ThienCo", 8), ("ThienDong", 4), ("ThienKhoi", 11), ("ThienLuong", 0), ("ThienMa", 8), ("ThienPhu", 7), ("ThienTuong", 11), ("ThienViet", 9), ("TuVi", 9), ("VanKhuc", 10), ("VanXuong", 4), ("VuKhuc", 5)],
    },
    RefCase {
        label: "case3_nam",
        birth: (2024, 2, 10, 0),
        gender: Gender::Nam,
        frame: (2460351, 2024, 2460292, 2460646, 0),
        lunar_day: 1, lunar_month: 1, lunar_year: 2024,
        menh_branch: 2,
        than_branch: 2,
        sao_positions: &[("CuMon", 10), ("DaLa", 1), ("DaoHoa", 9), ("HoaTinh", 2), ("HuuBat", 10), ("KinhDuong", 3), ("LiemTrinh", 1), ("LinhTinh", 10), ("LocTon", 2), ("PhaQuan", 5), ("TaPhu", 4), ("ThaiAm", 8), ("ThaiDuong", 6), ("ThamLang", 9), ("ThatSat", 1), ("ThienCo", 8), ("ThienDong", 4), ("ThienKhoi", 1), ("ThienLuong", 0), ("ThienMa", 2), ("ThienPhu", 7), ("ThienTuong", 11), ("ThienViet", 7), ("TuVi", 9), ("VanKhuc", 4), ("VanXuong", 10), ("VuKhuc", 5)],
    },
    RefCase {
        label: "case3_nu",
        birth: (2024, 2, 10, 0),
        gender: Gender::Nu,
        frame: (2460351, 2024, 2460292, 2460646, 0),
        lunar_day: 1, lunar_month: 1, lunar_year: 2024,
        menh_branch: 2,
        than_branch: 2,
        sao_positions: &[("CuMon", 10), ("DaLa", 1), ("DaoHoa", 9), ("HoaTinh", 2), ("HuuBat", 10), ("KinhDuong", 3), ("LiemTrinh", 1), ("LinhTinh", 10), ("LocTon", 2), ("PhaQuan", 5), ("TaPhu", 4), ("ThaiAm", 8), ("ThaiDuong", 6), ("ThamLang", 9), ("ThatSat", 1), ("ThienCo", 8), ("ThienDong", 4), ("ThienKhoi", 1), ("ThienLuong", 0), ("ThienMa", 2), ("ThienPhu", 7), ("ThienTuong", 11), ("ThienViet", 7), ("TuVi", 9), ("VanKhuc", 4), ("VanXuong", 10), ("VuKhuc", 5)],
    },
    RefCase {
        label: "case4_nam",
        birth: (1990, 1, 29, 9),
        gender: Gender::Nam,
        frame: (2447919, 1990, 2447859, 2448243, 7),
        lunar_day: 3, lunar_month: 1, lunar_year: 1990,
        menh_branch: 9,
        than_branch: 7,
        sao_positions: &[("CuMon", 5), ("DaLa", 7), ("DaoHoa", 3), ("HoaTinh", 6), ("HuuBat", 10), ("KinhDuong", 9), ("LiemTrinh", 6), ("LinhTinh", 10), ("LocTon", 8), ("PhaQuan", 0), ("TaPhu", 4), ("ThaiAm", 3), ("ThaiDuong", 11), ("ThamLang", 4), ("ThatSat", 8), ("ThienCo", 1), ("ThienDong", 9), ("ThienKhoi", 7), ("ThienLuong", 7), ("ThienMa", 8), ("ThienPhu", 2), ("ThienTuong", 6), ("ThienViet", 1), ("TuVi", 2), ("VanKhuc", 9), ("VanXuong", 5), ("VuKhuc", 10)],
    },
    RefCase {
        label: "case4_nu",
        birth: (1990, 1, 29, 9),
        gender: Gender::Nu,
        frame: (2447919, 1990, 2447859, 2448243, 7),
        lunar_day: 3, lunar_month: 1, lunar_year: 1990,
        menh_branch: 9,
        than_branch: 7,
        sao_positions: &[("CuMon", 5), ("DaLa", 7), ("DaoHoa", 3), ("HoaTinh", 8), ("HuuBat", 10), ("KinhDuong", 9), ("LiemTrinh", 6), ("LinhTinh", 8), ("LocTon", 8), ("PhaQuan", 0), ("TaPhu", 4), ("ThaiAm", 3), ("ThaiDuong", 11), ("ThamLang", 4), ("ThatSat", 8), ("ThienCo", 1), ("ThienDong", 9), ("ThienKhoi", 7), ("ThienLuong", 7), ("ThienMa", 8), ("ThienPhu", 2), ("ThienTuong", 6), ("ThienViet", 1), ("TuVi", 2), ("VanKhuc", 9), ("VanXuong", 5), ("VuKhuc", 10)],
    },
    RefCase {
        label: "case5_nam",
        birth: (2000, 5, 5, 15),
        gender: Gender::Nam,
        frame: (2451669, 2000, 2451521, 2451875, 0),
        lunar_day: 2, lunar_month: 4, lunar_year: 2000,
        menh_branch: 9,
        than_branch: 1,
        sao_positions: &[("CuMon", 5), ("DaLa", 7), ("DaoHoa", 9), ("HoaTinh", 10), ("HuuBat", 7), ("KinhDuong", 9), ("LiemTrinh", 6), ("LinhTinh", 2), ("LocTon", 8), ("PhaQuan", 0), ("TaPhu", 7), ("ThaiAm", 3), ("ThaiDuong", 11), ("ThamLang", 4), ("ThatSat", 8), ("ThienCo", 1), ("ThienDong", 9), ("ThienKhoi", 7), ("ThienLuong", 7), ("ThienMa", 2), ("ThienPhu", 2), ("ThienTuong", 6), ("ThienViet", 1), ("TuVi", 2), ("VanKhuc", 0), ("VanXuong", 2), ("VuKhuc", 10)],
    },
    RefCase {
        label: "case5_nu",
        birth: (2000, 5, 5, 15),
        gender: Gender::Nu,
        frame: (2451669, 2000, 2451521, 2451875, 0),
        lunar_day: 2, lunar_month: 4, lunar_year: 2000,
        menh_branch: 9,
        than_branch: 1,
        sao_positions: &[("CuMon", 5), ("DaLa", 7), ("DaoHoa", 9), ("HoaTinh", 6), ("HuuBat", 7), ("KinhDuong", 9), ("LiemTrinh", 6), ("LinhTinh", 6), ("LocTon", 8), ("PhaQuan", 0), ("TaPhu", 7), ("ThaiAm", 3), ("ThaiDuong", 11), ("ThamLang", 4), ("ThatSat", 8), ("ThienCo", 1), ("ThienDong", 9), ("ThienKhoi", 7), ("ThienLuong", 7), ("ThienMa", 2), ("ThienPhu", 2), ("ThienTuong", 6), ("ThienViet", 1), ("TuVi", 2), ("VanKhuc", 0), ("VanXuong", 2), ("VuKhuc", 10)],
    },
];

fn lap(case: &RefCase) -> TuViChart {
    let (y, m, d, hour) = case.birth;
    let date = SolarDate::new(y, m, d).unwrap();
    let (ms, fy, a11, b11, lo) = case.frame;
    let lunar = solar_to_lunar(date, ms, fy, a11, b11, lo).unwrap();
    match lap_la_so(BirthMoment { solar_date: date, hour, minute: 0 }, lunar, case.gender) {
        Ok(c) => c,
        Err(e) => panic!("case {} failed lap_la_so: {:?}", case.label, e),
    }
}

fn parse_sao(name: &str) -> Option<Sao> {
    Some(match name {
        "TuVi" => Sao::TuVi,
        "ThienCo" => Sao::ThienCo,
        "ThaiDuong" => Sao::ThaiDuong,
        "VuKhuc" => Sao::VuKhuc,
        "ThienDong" => Sao::ThienDong,
        "LiemTrinh" => Sao::LiemTrinh,
        "ThienPhu" => Sao::ThienPhu,
        "ThaiAm" => Sao::ThaiAm,
        "ThamLang" => Sao::ThamLang,
        "CuMon" => Sao::CuMon,
        "ThienTuong" => Sao::ThienTuong,
        "ThienLuong" => Sao::ThienLuong,
        "ThatSat" => Sao::ThatSat,
        "PhaQuan" => Sao::PhaQuan,
        "TaPhu" => Sao::TaPhu,
        "HuuBat" => Sao::HuuBat,
        "VanXuong" => Sao::VanXuong,
        "VanKhuc" => Sao::VanKhuc,
        "ThienKhoi" => Sao::ThienKhoi,
        "ThienViet" => Sao::ThienViet,
        "LocTon" => Sao::LocTon,
        "KinhDuong" => Sao::KinhDuong,
        "DaLa" => Sao::DaLa,
        "HoaTinh" => Sao::HoaTinh,
        "LinhTinh" => Sao::LinhTinh,
        "ThienMa" => Sao::ThienMa,
        "DaoHoa" => Sao::DaoHoa,
        _ => return None,
    })
}

#[test]
fn all_10_reference_cases_match_lasotuvi() {
    let mut total_failures = 0usize;
    let mut total_checks = 0usize;
    for case in REF_CASES {
        let chart = lap(case);
        assert_eq!(
            (chart.lunar.day, chart.lunar.month, chart.lunar.year),
            (case.lunar_day, case.lunar_month, case.lunar_year),
            "case {} lunar date mismatch",
            case.label
        );
        assert_eq!(chart.menh_branch.index(), case.menh_branch, "case {}: menh_branch", case.label);
        assert_eq!(chart.than_branch.index(), case.than_branch, "case {}: than_branch", case.label);
        for (sao_name, expected_chi_0) in case.sao_positions {
            let sao = parse_sao(sao_name).unwrap_or_else(|| panic!("case {}: unknown sao {sao_name}", case.label));
            let expected_branch = EarthlyBranch::from_index(*expected_chi_0).unwrap();
            let found = chart.palaces.iter().any(|p| p.branch == expected_branch && p.has_star(sao));
            total_checks += 1;
            if !found {
                total_failures += 1;
                println!("FAIL: case {} expected {} at chi_0={}", case.label, sao_name, expected_chi_0);
            }
        }
    }
    assert_eq!(total_failures, 0, "{}/{} vị trí sao sai", total_failures, total_checks);
}

#[test]
fn each_palace_has_a_name() {
    for case in REF_CASES {
        let chart = lap(case);
        assert_eq!(chart.palaces.iter().filter(|p| p.is_menh).count(), 1, "case {}: menh_count", case.label);
        assert_eq!(chart.palaces.iter().filter(|p| p.is_than).count(), 1, "case {}: than_count", case.label);
    }
}

#[test]
fn sao_total_at_least_27_for_all_cases() {
    for case in REF_CASES {
        let chart = lap(case);
        let total = chart.palaces.iter().map(|p| p.stars.len()).sum::<usize>();
        assert!(total >= 27, "case {}: total sao count {} < 27", case.label, total);
    }
}

#[test]
fn kinh_da_la_around_loc_ton() {
    for case in REF_CASES {
        let chart = lap(case);
        let cung_cua = |sao: Sao| chart.palaces.iter().find(|p| p.has_star(sao)).map(|p| p.branch).unwrap();
        let loc_ton = cung_cua(Sao::LocTon).index() as i64;
        let kinh = cung_cua(Sao::KinhDuong).index() as i64;
        let da = cung_cua(Sao::DaLa).index() as i64;
        assert_eq!((kinh - loc_ton).rem_euclid(12), 1, "case {}: Kình Dương = Lộc Tồn + 1", case.label);
        assert_eq!((loc_ton - da).rem_euclid(12), 1, "case {}: Đà La = Lộc Tồn - 1", case.label);
    }
}

#[test]
fn birthmoment_basic_construction() {
    let bm = BirthMoment { solar_date: SolarDate::new(2024, 2, 10).unwrap(), hour: 10, minute: 30 };
    // Khung tháng Giêng Giáp Thìn 2024 theo phép tính thiên văn của ứng dụng.
    let lunar = solar_to_lunar(bm.solar_date, 2460351, 2024, 2460292, 2460646, 0).unwrap();
    assert_eq!(lunar.day, 1);
    assert_eq!(lunar.month, 1);
    assert_eq!(lunar.year, 2024);
}
