//! Bảng Can–Chi: Ngũ Thử Độn tháng và giờ, Ngũ Hành của Can và Chi.

use tinhban::canchi::{hour_can_chi, month_can_chi};
use tinhban::EarthlyBranch::{Dan, Dau, Hoi, Mao, Mui, Ngo, Suu, Than, Thin, Tuat, Ty, Ty2};
use tinhban::NguHanh::{Hoa, Kim, Moc, Tho, Thuy};
use tinhban::{nguhanh_of_branch, nguhanh_of_stem, EarthlyBranch, HeavenlyStem};

/// Bảng "Ngũ Thử Độn": tháng 1 → Can của tháng 1 theo Can của năm.
#[test]
fn ngu_thu_don_month_table_is_correct() {
    // (year stem, expected month-1 stem)
    let table = [
        (HeavenlyStem::Giap, HeavenlyStem::Binh),
        (HeavenlyStem::Ky, HeavenlyStem::Binh),
        (HeavenlyStem::At, HeavenlyStem::Mau),
        (HeavenlyStem::Canh, HeavenlyStem::Mau),
        (HeavenlyStem::Binh, HeavenlyStem::Canh),
        (HeavenlyStem::Tan, HeavenlyStem::Canh),
        (HeavenlyStem::Dinh, HeavenlyStem::Nham),
        (HeavenlyStem::Nham, HeavenlyStem::Nham),
        (HeavenlyStem::Mau, HeavenlyStem::Giap),
        (HeavenlyStem::Quy, HeavenlyStem::Giap),
    ];
    for (year_stem, m1_stem) in table {
        let cc = month_can_chi(year_stem, 1);
        assert_eq!(
            cc.stem, m1_stem,
            "năm Can {:?} → tháng 1 phải có Can {:?} (nhận {:?})",
            year_stem, m1_stem, cc.stem
        );
        assert_eq!(cc.branch, EarthlyBranch::Dan, "tháng 1 → Dần");
    }
}

/// Bảng "Ngũ Thử Độn thời": giờ Tý của ngày có Can → Can của giờ Tý.
#[test]
fn ngu_thu_don_hour_table_is_correct() {
    let table = [
        (HeavenlyStem::Giap, HeavenlyStem::Giap),
        (HeavenlyStem::Ky, HeavenlyStem::Giap),
        (HeavenlyStem::At, HeavenlyStem::Binh),
        (HeavenlyStem::Canh, HeavenlyStem::Binh),
        (HeavenlyStem::Binh, HeavenlyStem::Mau),
        (HeavenlyStem::Tan, HeavenlyStem::Mau),
        (HeavenlyStem::Dinh, HeavenlyStem::Canh),
        (HeavenlyStem::Nham, HeavenlyStem::Canh),
        (HeavenlyStem::Mau, HeavenlyStem::Nham),
        (HeavenlyStem::Quy, HeavenlyStem::Nham),
    ];
    for (day_stem, ty_stem) in table {
        let cc = hour_can_chi(day_stem, 23); // 23h → giờ Tý
        assert_eq!(
            cc.stem, ty_stem,
            "ngày Can {:?} → giờ Tý phải có Can {:?}",
            day_stem, ty_stem
        );
        assert_eq!(cc.branch, EarthlyBranch::Ty, "hour=23 → Tý");
        let cc0 = hour_can_chi(day_stem, 0); // 0h vẫn Tý
        assert_eq!(cc0.branch, EarthlyBranch::Ty);
        assert_eq!(cc0.stem, ty_stem);
    }
}

/// Ngũ hành của 10 Can.
#[test]
fn nguhanh_stem_table() {
    let table = [
        (HeavenlyStem::Giap, Moc),
        (HeavenlyStem::At, Moc),
        (HeavenlyStem::Binh, Hoa),
        (HeavenlyStem::Dinh, Hoa),
        (HeavenlyStem::Mau, Tho),
        (HeavenlyStem::Ky, Tho),
        (HeavenlyStem::Canh, Kim),
        (HeavenlyStem::Tan, Kim),
        (HeavenlyStem::Nham, Thuy),
        (HeavenlyStem::Quy, Thuy),
    ];
    for (stem, expected) in table {
        assert_eq!(nguhanh_of_stem(stem), expected);
    }
}

/// Ngũ hành của 12 Chi.
#[test]
fn nguhanh_branch_table() {
    let table = [
        (Ty, Thuy),
        (Suu, Tho),
        (Dan, Moc),
        (Mao, Moc),
        (Thin, Tho),
        (Ty2, Hoa),
        (Ngo, Hoa),
        (Mui, Tho),
        (Than, Kim),
        (Dau, Kim),
        (Tuat, Tho),
        (Hoi, Thuy),
    ];
    for (branch, expected) in table {
        assert_eq!(
            nguhanh_of_branch(branch),
            expected,
            "branch {:?} → hành {:?}",
            branch,
            expected
        );
    }
}

/// Mỗi tháng âm phải ứng với đúng Địa Chi.
#[test]
fn month_branch_sequence() {
    // Tháng 1 → Dần, tháng 2 → Mão, ..., tháng 11 → Tý, tháng 12 → Sửu
    let expected_branches = [
        EarthlyBranch::Dan,
        EarthlyBranch::Mao,
        EarthlyBranch::Thin,
        EarthlyBranch::Ty2,
        EarthlyBranch::Ngo,
        EarthlyBranch::Mui,
        EarthlyBranch::Than,
        EarthlyBranch::Dau,
        EarthlyBranch::Tuat,
        EarthlyBranch::Hoi,
        EarthlyBranch::Ty,
        EarthlyBranch::Suu,
    ];
    for (m, chi) in (1..=12u8).zip(expected_branches.iter().copied()) {
        let cc = month_can_chi(HeavenlyStem::Giap, m);
        assert_eq!(cc.branch, chi, "month {}", m);
    }
}

/// Giờ Địa Chi phải ứng với đúng song-tiếng.
#[test]
fn hour_branch_sequence() {
    // (hour, chi):
    // 23→Tý, 0→Tý, 1–2→Sửu, 3–4→Dần, 5–6→Mão, 7–8→Thìn,
    // 9–10→Tỵ, 11–12→Ngọ, 13–14→Mùi, 15–16→Thân, 17–18→Dậu,
    // 19–20→Tuất, 21–22→Hợi
    let cases: [(u8, EarthlyBranch); 24] = [
        (0, EarthlyBranch::Ty),
        (1, EarthlyBranch::Suu),
        (2, EarthlyBranch::Suu),
        (3, EarthlyBranch::Dan),
        (4, EarthlyBranch::Dan),
        (5, EarthlyBranch::Mao),
        (6, EarthlyBranch::Mao),
        (7, EarthlyBranch::Thin),
        (8, EarthlyBranch::Thin),
        (9, EarthlyBranch::Ty2),
        (10, EarthlyBranch::Ty2),
        (11, EarthlyBranch::Ngo),
        (12, EarthlyBranch::Ngo),
        (13, EarthlyBranch::Mui),
        (14, EarthlyBranch::Mui),
        (15, EarthlyBranch::Than),
        (16, EarthlyBranch::Than),
        (17, EarthlyBranch::Dau),
        (18, EarthlyBranch::Dau),
        (19, EarthlyBranch::Tuat),
        (20, EarthlyBranch::Tuat),
        (21, EarthlyBranch::Hoi),
        (22, EarthlyBranch::Hoi),
        (23, EarthlyBranch::Ty),
    ];
    for (h, chi) in cases {
        let cc = hour_can_chi(HeavenlyStem::Giap, h);
        assert_eq!(cc.branch, chi, "hour {}", h);
    }
}
