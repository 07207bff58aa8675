//! Trạch Nhật: Hoàng Đạo / Hắc Đạo, giờ tốt, 12 Trực, kiêng kỵ.

use tinhban::astronomy::jd_from_date;
use tinhban::canchi::day_can_chi;
use tinhban::trach_nhat::hoang_dao::{cac_gio_trong_ngay, khoi_thanh_long};
use tinhban::trach_nhat::kieng_ky::{bang_sat_chu, kieng_ky_cua_ngay, la_nguyet_ky, la_tam_nuong};
use tinhban::trach_nhat::truc::truc_of_day;
use tinhban::trach_nhat::{KiengKy, Truc};
use tinhban::EarthlyBranch::{Dan, Dau, Hoi, Mao, Mui, Ngo, Suu, Than, Thin, Tuat, Ty, Ty2};
use tinhban::{CanChi, EarthlyBranch, HeavenlyStem, LunarDate};

/// Kinh độ Mặt Trời cuối ngày (độ nguyên) của 10 ngày từ 10/3/2024, theo phép
/// tính thiên văn của ứng dụng.
const SUN_DEG_FROM_10_3_2024: [u32; 10] = [350, 351, 352, 353, 354, 355, 356, 357, 358, 359];

fn lunar(day: u8, month: u8) -> LunarDate {
    LunarDate {
        day,
        month,
        year: 2025,
        is_leap_month: false,
    }
}

/// Bảng truyền thống "Thanh Long đóng tại đâu" — 6 dòng, mỗi dòng 2 Chi.
#[test]
fn bang_khoi_thanh_long_khop_truyen_thong() {
    let bang = [
        (Ty, Than),
        (Ngo, Than),
        (Suu, Tuat),
        (Mui, Tuat),
        (Dan, Ty),
        (Than, Ty),
        (Mao, Dan),
        (Dau, Dan),
        (Thin, Thin),
        (Tuat, Thin),
        (Ty2, Ngo),
        (Hoi, Ngo),
    ];
    for (goc, mong_doi) in bang {
        assert_eq!(
            khoi_thanh_long(goc),
            mong_doi.index(),
            "chi gốc {:?}: Thanh Long phải đóng tại {:?}",
            goc,
            mong_doi
        );
    }
}

/// Mỗi ngày phải có đúng 6 giờ Hoàng Đạo và 6 giờ Hắc Đạo, và 12 vị Thần
/// xuất hiện đúng một lần.
#[test]
fn moi_ngay_co_dung_6_gio_tot_6_gio_xau() {
    for i in 0..12u8 {
        let day = CanChi {
            stem: HeavenlyStem::Giap,
            branch: EarthlyBranch::from_index(i).unwrap(),
        };
        let gio = cac_gio_trong_ngay(day);
        assert_eq!(gio.len(), 12);
        let tot = gio.iter().filter(|g| g.is_hoang_dao()).count();
        assert_eq!(tot, 6, "chi ngày index {i}: phải có 6 giờ Hoàng Đạo");

        let mut thans: Vec<u8> = gio.iter().map(|g| g.than.index()).collect();
        thans.sort_unstable();
        assert_eq!(
            thans,
            (0..12).collect::<Vec<u8>>(),
            "12 vị Thần phải xuất hiện đúng 1 lần"
        );
    }
}

/// Khung giờ phải đúng: Tý 23:00–00:59, Sửu 01:00–02:59, …, Hợi 21:00–22:59.
#[test]
fn khung_gio_dia_chi_dung() {
    let day = CanChi {
        stem: HeavenlyStem::Giap,
        branch: EarthlyBranch::Ty,
    };
    let gio = cac_gio_trong_ngay(day);
    let mong_doi = [
        (Ty, 23u8, 0u8),
        (Suu, 1, 2),
        (Dan, 3, 4),
        (Mao, 5, 6),
        (Thin, 7, 8),
        (Ty2, 9, 10),
        (Ngo, 11, 12),
        (Mui, 13, 14),
        (Than, 15, 16),
        (Dau, 17, 18),
        (Tuat, 19, 20),
        (Hoi, 21, 22),
    ];
    for (g, (b, s, e)) in gio.iter().zip(mong_doi) {
        assert_eq!(g.branch, b);
        assert_eq!(g.start_hour, s, "{:?} start", b);
        assert_eq!(g.end_hour, e, "{:?} end", b);
    }
}

/// Ngày Dần/Thân → giờ Hoàng Đạo là Tý, Sửu, Thìn, Tỵ, Mùi, Tuất
/// (đối chiếu trực tiếp với lịch vạn niên).
#[test]
fn ngay_dan_than_co_gio_hoang_dao_dung() {
    for chi in [Dan, Than] {
        let day = CanChi {
            stem: HeavenlyStem::Mau,
            branch: chi,
        };
        let tot: Vec<EarthlyBranch> = cac_gio_trong_ngay(day)
            .into_iter()
            .filter(|g| g.is_hoang_dao())
            .map(|g| g.branch)
            .collect();
        assert_eq!(tot, vec![Ty, Suu, Thin, Ty2, Mui, Tuat], "ngày {:?}", chi);
    }
}

/// Ngày có Chi trùng Chi tháng tiết khí → Trực Kiến; lệch 1 → Trừ; …
#[test]
fn hieu_chi_ngay_tru_chi_thang_ra_dung_truc() {
    for chi_thang in 0..12u8 {
        for lech in 0..12u8 {
            let chi_ngay = (chi_thang + lech) % 12;
            let idx = (chi_ngay + 12 - chi_thang) % 12;
            assert_eq!(
                Truc::from_index(idx).unwrap().index(),
                lech,
                "chi tháng {chi_thang}, lệch {lech}"
            );
        }
    }
}

/// 12 Trực phải phủ đúng 12 giá trị, không trùng, không thiếu.
#[test]
fn du_12_truc_khong_trung() {
    let mut seen = [false; 12];
    for i in 0..12u8 {
        let t = Truc::from_index(i).unwrap();
        assert!(!seen[t.index() as usize], "Trực {:?} lặp", t);
        seen[t.index() as usize] = true;
    }
    assert!(seen.iter().all(|x| *x));
    assert!(Truc::from_index(12).is_none());
}

/// Ngày liên tiếp (cùng tháng tiết khí) phải cho Trực liên tiếp.
#[test]
fn truc_tien_mot_buoc_moi_ngay() {
    // JD giữa tháng Mão 2024 (Kinh Trập 5/3 → Thanh Minh 4/4): 10–20/3/2024.
    let jd_10_3_2024 = jd_from_date(10, 3, 2024);
    let mut truoc: Option<Truc> = None;
    for off in 0..10 {
        let jd = jd_10_3_2024 + off;
        let day = day_can_chi(jd);
        let t = truc_of_day(day, SUN_DEG_FROM_10_3_2024[off as usize]);
        if let Some(p) = truoc {
            assert_eq!(
                t.index(),
                (p.index() + 1) % 12,
                "jd {jd}: Trực phải tiến 1 bước từ {:?}",
                p
            );
        }
        truoc = Some(t);
    }
    let _ = HeavenlyStem::Giap;
    let _ = EarthlyBranch::Ty;
}

#[test]
fn tam_nuong_dung_6_ngay_moi_thang() {
    let hit: Vec<u8> = (1..=30).filter(|d| la_tam_nuong(lunar(*d, 5))).collect();
    assert_eq!(hit, vec![3, 7, 13, 18, 22, 27]);
}

#[test]
fn nguyet_ky_dung_3_ngay_moi_thang() {
    let hit: Vec<u8> = (1..=30).filter(|d| la_nguyet_ky(lunar(*d, 5))).collect();
    assert_eq!(hit, vec![5, 14, 23]);
}

/// Bảng Sát Chủ phải hợp lệ: mọi index Chi trong 0..12, không trùng trong
/// cùng một tháng, và đủ 12 dòng.
#[test]
fn bang_sat_chu_hop_le() {
    assert_eq!(bang_sat_chu().len(), 12);
    for (i, row) in bang_sat_chu().iter().enumerate() {
        assert!(!row.is_empty(), "tháng {} rỗng", i + 1);
        assert!(row.iter().all(|c| *c < 12), "tháng {} có Chi >= 12", i + 1);
        let mut s = row.to_vec();
        s.sort_unstable();
        s.dedup();
        assert_eq!(s.len(), row.len(), "tháng {} có Chi trùng", i + 1);
        assert!(row.windows(2).all(|w| w[0] < w[1]), "tháng {} chưa sắp xếp", i + 1);
    }
}

/// Một ngày có thể vừa Tam Nương vừa Sát Chủ — danh sách phải giữ cả hai,
/// không "nuốt" mục nào.
#[test]
fn nhieu_kieng_ky_cung_luc_deu_duoc_liet_ke() {
    // Tháng 7 Âm, ngày Sửu, mùng 7 → Tam Nương + Sát Chủ.
    let kk = kieng_ky_cua_ngay(lunar(7, 7), EarthlyBranch::Suu);
    assert_eq!(kk, vec![KiengKy::TamNuong, KiengKy::SatChu]);

    // Mùng 5 tháng 7, ngày Hợi → Nguyệt Kỵ + Sát Chủ.
    let kk = kieng_ky_cua_ngay(lunar(5, 7), EarthlyBranch::Hoi);
    assert_eq!(kk, vec![KiengKy::NguyetKy, KiengKy::SatChu]);

    // Ngày "sạch": mùng 8 tháng 7, ngày Dần.
    assert!(kieng_ky_cua_ngay(lunar(8, 7), EarthlyBranch::Dan).is_empty());
}
