//! Tử Vi: Cục, chính tinh, vòng Trường Sinh.

use tinhban::tuvi::cuc::{nap_am, tinh_cuc, Cuc};
use tinhban::tuvi::stars::chinh_tinh::an_chinh_tinh;
use tinhban::tuvi::stars::phu_tinh::an_phu_tinh;
use tinhban::tuvi::{lap_la_so, Gender, Palace, PalaceName, TuViChart};
use tinhban::tuvi::stars::chinh_tinh::find_tu_vi;
use tinhban::tuvi::{start_branch_of, truong_sinh_positions};
use tinhban::{EarthlyBranch, HeavenlyStem, NguHanh};

#[test]
fn cuc_so_in_2_to_6() {
    for stem_i in 0..10u8 {
        for chi_i in 0..12u8 {
            let menh = EarthlyBranch::from_index(chi_i).unwrap();
            let stem = HeavenlyStem::from_index(stem_i).unwrap();
            let cuc = tinh_cuc(menh, stem);
            assert!((2..=6).contains(&cuc.so), "cuc.so {} at menh={:?} stem={:?}", cuc.so, menh, stem);
        }
    }
}

#[test]
fn cuc_ten_is_hanh_plus_so() {
    let cuc = Cuc { so: 2, hanh: NguHanh::Thuy };
    assert_eq!(cuc.name_vn(), "Thủy nhị Cục");
    let cuc = Cuc { so: 6, hanh: NguHanh::Hoa };
    assert_eq!(cuc.name_vn(), "Hỏa lục Cục");
}

#[test]
fn find_tu_vi_returns_valid_index() {
    for cuc in [2, 3, 4, 5, 6] {
        for day in 1..=30 {
            let idx = find_tu_vi(cuc as i64, day as i64);
            assert!(idx < 12, "cuc={cuc} day={day} → idx {idx}");
        }
    }
    let _ = tinh_cuc;
    let _ = Cuc { so: 2, hanh: NguHanh::Thuy };
}

#[test]
fn start_branch_for_each_cuc() {
    assert_eq!(start_branch_of(6), EarthlyBranch::Dan);
    assert_eq!(start_branch_of(4), EarthlyBranch::Ty2);
    assert_eq!(start_branch_of(2), EarthlyBranch::Than);
    assert_eq!(start_branch_of(5), EarthlyBranch::Than);
    assert_eq!(start_branch_of(3), EarthlyBranch::Hoi);
}

#[test]
fn thuan_visits_all_12_branches_starting_from_start() {
    let pos = truong_sinh_positions(2, EarthlyBranch::Ty, false);
    assert_eq!(pos[0].1, EarthlyBranch::Than);
    assert_eq!(pos[1].1, EarthlyBranch::Dau);
    assert_eq!(pos[11].1, EarthlyBranch::Mui);
    // 12 vị trí khác nhau
    let mut branches: Vec<_> = pos.iter().map(|(_, b)| *b).collect();
    branches.sort_by_key(|b| b.index());
    assert_eq!(branches.len(), 12);
}

#[test]
fn nghich_visits_all_12_branches_in_reverse() {
    let pos = truong_sinh_positions(3, EarthlyBranch::Ty, true);
    assert_eq!(pos[0].1, EarthlyBranch::Hoi);
    assert_eq!(pos[1].1, EarthlyBranch::Tuat);
    assert_eq!(pos[11].1, EarthlyBranch::Ty);
}

#[test]
fn lap_la_so_nam_ngoai_pham_vi_tra_out_of_range() {
    let birth = tinhban::BirthMoment {
        solar_date: tinhban::SolarDate::new(2101, 3, 1).unwrap(),
        hour: 8,
        minute: 0,
    };
    let lunar = tinhban::LunarDate { day: 1, month: 2, year: 2101, is_leap_month: false };
    assert_eq!(
        tinhban::tuvi::lap_la_so(birth, lunar, tinhban::tuvi::Gender::Nam).unwrap_err(),
        tinhban::tuvi::TuViError::OutOfRange("năm 2101 ngoài phạm vi hỗ trợ 1900–2100".to_string())
    );
}

/// Lá số có 12 cung xếp theo thứ tự Chi Tý → Hợi (không theo thứ tự từ cung
/// Mệnh): an sao theo Chi vẫn đặt mỗi sao vào đúng cung như lá số đầy đủ.
#[test]
fn an_sao_tim_cung_theo_chi_voi_thu_tu_cung_tuy_y() {
    let birth = tinhban::BirthMoment {
        solar_date: tinhban::SolarDate::new(1991, 10, 24).unwrap(),
        hour: 7,
        minute: 0,
    };
    let lunar = tinhban::LunarDate { day: 17, month: 9, year: 1991, is_leap_month: false };
    let day_du = lap_la_so(birth, lunar, Gender::Nam).unwrap();
    let mut chart = TuViChart {
        birth,
        gender: Gender::Nam,
        lunar,
        cuc: day_du.cuc,
        palaces: (0u8..12)
            .map(|i| Palace::new(PalaceName::Menh, EarthlyBranch::from_index(i).unwrap()))
            .collect(),
        menh_branch: day_du.menh_branch,
        than_branch: day_du.than_branch,
    };
    assert!(an_chinh_tinh(&mut chart).is_ok());
    assert!(an_phu_tinh(&mut chart).is_ok());
    for p in chart.palaces.iter() {
        let q = day_du.palaces.iter().find(|q| q.branch == p.branch).unwrap();
        assert_eq!(p.stars, q.stars, "cung {:?}", p.branch);
    }
}

#[test]
fn nap_am_khop_bang_60_giap_ty() {
    // (Can, Chi, hành Nạp Âm): Hải Trung Kim, Thiên Hà Thủy, Đại Hải Thủy,
    // Tích Lịch Hỏa, Thạch Lựu Mộc, Bích Thượng Thổ.
    let bang = [
        (0u8, 0u8, NguHanh::Kim),
        (2, 6, NguHanh::Thuy),
        (9, 11, NguHanh::Thuy),
        (4, 0, NguHanh::Hoa),
        (7, 9, NguHanh::Moc),
        (6, 0, NguHanh::Tho),
    ];
    for (c, h, hanh) in bang {
        let can = HeavenlyStem::from_index(c).unwrap();
        let chi = EarthlyBranch::from_index(h).unwrap();
        assert_eq!(nap_am(chi, can), hanh, "Can {c} Chi {h}");
    }
}
