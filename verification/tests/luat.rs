//! Các luật của thư viện, thử trên giá trị cụ thể.

use tinhban::astronomy::{lunar_from_frame, lunar_month_offset};
use tinhban::canchi::day_can_chi;
use tinhban::hien_thi::o_luoi;
use tinhban::trach_nhat::truc::truc_of_day;
use tinhban::tuvi::{lap_la_so, Gender, Sao};
use tinhban::{BirthMoment, EarthlyBranch, LunarDate, SolarDate};

const CHI: [EarthlyBranch; 12] = [
    EarthlyBranch::Ty,
    EarthlyBranch::Suu,
    EarthlyBranch::Dan,
    EarthlyBranch::Mao,
    EarthlyBranch::Thin,
    EarthlyBranch::Ty2,
    EarthlyBranch::Ngo,
    EarthlyBranch::Mui,
    EarthlyBranch::Than,
    EarthlyBranch::Dau,
    EarthlyBranch::Tuat,
    EarthlyBranch::Hoi,
];

#[test]
fn dia_ban_di_quanh_vien_theo_thu_tu_chi() {
    let mut da_gap = Vec::new();
    for i in 0..12 {
        let (r, c) = o_luoi(CHI[i]);
        let (r2, c2) = o_luoi(CHI[(i + 1) % 12]);
        assert!(r == 1 || r == 4 || c == 1 || c == 4, "ô ({r}, {c}) phải nằm trên viền");
        assert_eq!((r as i32 - r2 as i32).abs() + (c as i32 - c2 as i32).abs(), 1);
        assert!(!da_gap.contains(&(r, c)));
        da_gap.push((r, c));
    }
}

#[test]
fn trung_truc_o_ngay_giao_tiet() {
    // Ngày JD 2460374 (4/3/2024) cuối ngày kinh độ 344° (còn tháng Dần), ngày
    // hôm sau 345° (sang tháng Mão): Trực lặp lại.
    let jd = 2460374;
    let hom_nay = truc_of_day(day_can_chi(jd), 344);
    let mai = truc_of_day(day_can_chi(jd + 1), 345);
    assert_eq!(hom_nay, mai);
    // Trong cùng tháng tiết khí thì Trực tiến một bước.
    let kia = truc_of_day(day_can_chi(jd + 2), 346);
    assert_eq!((mai.index() + 1) % 12, kia.index());
}

#[test]
fn vi_tri_thang_doi_nguoc_dung() {
    // Khung tháng 11 âm 2022 → 2023 có tháng nhuận ở vị trí 3.
    let (a11, b11, nhuan) = (2459908, 2460292, 3);
    for diff in 0..=12i64 {
        let month_start = a11 + 29 * diff + diff / 2;
        let raw = lunar_from_frame(month_start, month_start, 2023, a11, b11, nhuan);
        assert_eq!(lunar_month_offset(raw.month, raw.leap, a11, b11, nhuan), diff, "diff {diff}");
    }
}

fn la_so_1991() -> tinhban::tuvi::TuViChart {
    let birth = BirthMoment { solar_date: SolarDate::new(1991, 10, 24).unwrap(), hour: 7, minute: 30 };
    let lunar = LunarDate { day: 17, month: 9, year: 1991, is_leap_month: false };
    lap_la_so(birth, lunar, Gender::Nam).unwrap()
}

#[test]
fn moi_sao_o_dung_mot_cung() {
    let chart = la_so_1991();
    for s in Sao::all() {
        let so_cung = chart.palaces.iter().filter(|p| p.has_star(s)).count();
        assert_eq!(so_cung, 1, "{s:?} phải ở đúng một cung");
    }
    let tong: usize = chart.palaces.iter().map(|p| p.stars.len()).sum();
    assert_eq!(tong, 27);
}

#[test]
fn moi_cung_mot_trang_thai_truong_sinh() {
    let chart = la_so_1991();
    assert!(chart.palaces.iter().all(|p| p.truong_sinh.len() == 1));
}

#[test]
fn kinh_duong_da_la_ke_loc_ton() {
    let chart = la_so_1991();
    let vi_tri = |s: Sao| chart.palaces.iter().find(|p| p.has_star(s)).unwrap().branch.index() as i64;
    let loc = vi_tri(Sao::LocTon);
    assert_eq!(vi_tri(Sao::KinhDuong), (loc + 1).rem_euclid(12));
    assert_eq!(vi_tri(Sao::DaLa), (loc - 1).rem_euclid(12));
}

#[test]
fn la_so_chi_theo_ngay_am_gio_va_gioi_tinh() {
    let lunar = LunarDate { day: 24, month: 12, year: 2023, is_leap_month: false };
    let lam = |d: u8| {
        let birth = BirthMoment { solar_date: SolarDate::new(2024, 2, d).unwrap(), hour: 10, minute: 0 };
        lap_la_so(birth, lunar, Gender::Nu).unwrap()
    };
    let a = lam(3);
    let b = lam(4);
    assert_eq!(a.cuc, b.cuc);
    assert_eq!(a.menh_branch, b.menh_branch);
    assert_eq!(a.than_branch, b.than_branch);
    assert_eq!(a.palaces.len(), b.palaces.len());
    for (p, q) in a.palaces.iter().zip(b.palaces.iter()) {
        assert_eq!(p.branch, q.branch);
        assert_eq!(p.stars, q.stars);
        assert_eq!(p.truong_sinh, q.truong_sinh);
        assert_eq!((p.is_menh, p.is_than), (q.is_menh, q.is_than));
    }
}

#[test]
fn jd_doi_ra_ngay_roi_doi_lai() {
    for j in [2299161i64, 2299200, 2299238, 2299239, 2415021, 2448554, 2460345, 2460708, 5373484] {
        let (d, m, y) = tinhban::astronomy::jd_to_date(j);
        assert_eq!(tinhban::astronomy::jd_from_date(d, m, y), j, "JD {j}");
    }
}

#[test]
fn muoi_hai_trang_thai_truong_sinh_khac_nhau() {
    let lunar = LunarDate { day: 17, month: 9, year: 1991, is_leap_month: false };
    let birth = BirthMoment { solar_date: SolarDate::new(1991, 10, 24).unwrap(), hour: 7, minute: 0 };
    for g in [Gender::Nam, Gender::Nu] {
        let c = lap_la_so(birth, lunar, g).unwrap();
        assert!(c.palaces.iter().all(|p| p.truong_sinh.len() == 1));
        let ts: std::collections::HashSet<_> = c.palaces.iter().map(|p| p.truong_sinh[0]).collect();
        assert_eq!(ts.len(), 12);
    }
}

#[test]
fn moi_sao_xuat_hien_dung_mot_lan() {
    let lunar = LunarDate { day: 1, month: 1, year: 2024, is_leap_month: false };
    let birth = BirthMoment { solar_date: SolarDate::new(2024, 2, 10).unwrap(), hour: 0, minute: 0 };
    let c = lap_la_so(birth, lunar, Gender::Nu).unwrap();
    let all: Vec<Sao> = c.palaces.iter().flat_map(|p| p.stars.iter().copied()).collect();
    assert_eq!(all.len(), 27);
    let set: std::collections::HashSet<Sao> = all.iter().copied().collect();
    assert_eq!(set.len(), 27);
    for p in c.palaces.iter() {
        let s: std::collections::HashSet<Sao> = p.stars.iter().copied().collect();
        assert_eq!(s.len(), p.stars.len());
    }
}
