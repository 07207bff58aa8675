//! Thập Thần, Tàng Can, bảng tiết khí.

use tinhban::bat_tu::thap_than::{khac, sinh};
use tinhban::bat_tu::{hidden_stems, TenGod, TIET_KHI_24, TIET_KHI_TABLE};
use tinhban::bat_tu::ten_god_of;
use tinhban::HeavenlyStem::{At, Binh, Canh, Dinh, Giap, Ky, Mau, Nham, Quy, Tan};
use tinhban::EarthlyBranch::{Dan, Dau, Hoi, Mao, Mui, Ngo, Suu, Than, Thin, Tuat, Ty, Ty2};
use tinhban::NguHanh::{Hoa, Kim, Moc, Tho, Thuy};
use tinhban::{EarthlyBranch, HeavenlyStem};

fn all_12_branches() -> [EarthlyBranch; 12] {
    [
        EarthlyBranch::Ty,
        EarthlyBranch::Suu,
        EarthlyBranch::Dan,
        EarthlyBranch::Mao,
        EarthlyBranch::Thin,
        EarthlyBranch::Ty2,
        EarthlyBranch::Ngo,
        EarthlyBranch::Mui,
        EarthlyBranch::Than,
        EarthlyBranch::Dau,
        EarthlyBranch::Tuat,
        EarthlyBranch::Hoi,
    ]
}

#[test]
fn giap_vs_other_stems_table() {
    // Nhật chủ = Giáp (Dương Mộc)
    let expected = [
        (Giap, TenGod::TyKien),   // cùng hành, cùng dương
        (At, TenGod::KiepTai),    // cùng hành, khác âm-dương
        (Binh, TenGod::ThucThan), // Mộc→Hỏa, cùng dương
        (Dinh, TenGod::ThuongQuan), // Mộc→Hỏa, khác
        (Mau, TenGod::ThienTai),  // Mộc khắc Thổ, cùng dương
        (Ky, TenGod::ChinhTai),   // Mộc khắc Thổ, khác
        (Canh, TenGod::ThatSat),  // Kim khắc Mộc, cùng dương
        (Tan, TenGod::ChinhQuan), // Kim khắc Mộc, khác
        (Nham, TenGod::ThienAn),  // Thủy sinh Mộc, cùng dương
        (Quy, TenGod::ChinhAn),   // Thủy sinh Mộc, khác
    ];
    for (stem, exp) in expected {
        let got = ten_god_of(Giap, stem);
        assert_eq!(got, exp, "Nhật chủ Giáp vs {:?}: got {:?}, expected {:?}", stem, got, exp);
    }
}

#[test]
    fn dinh_nhat_chu_table() {
        // Nhật chủ = Đinh (Âm Hỏa).
            let expected = [
            // "Hành đó sinh Nhật chủ" (Mộc→Hỏa) → ['. Ấn', 'Ấn']
            (At, TenGod::ThienAn),    // Mộc→Hỏa, Ấtâm Đinhâm → cùng → Thiên Ấn
            (Giap, TenGod::ChinhAn),   // Mộc→Hỏa, Giáp dương Đinh âm → khác → Chính Ấn
            // Cùng hành Hỏa:
            (Binh, TenGod::KiepTai),   // cùng hành, Bính dương Đinh âm → khác → Kiếp Tài
            (Dinh, TenGod::TyKien),    // cùng hành, cùng âm → Tỷ Kiên
            // "Nhật chủ sinh ra hành đó" (Hỏa→Thổ) → ['Thực', 'Thương']
            (Mau, TenGod::ThuongQuan), // Hỏa→Thổ, Mậu dương Đinh âm → khác → Thương Quan
            (Ky, TenGod::ThucThan),    // Hỏa→Thổ, Kỷ âm Đinh âm → cùng → Thực Thần
            // "Nhật chủ khắc hành đó" (Hỏa→Kim) → ['Thiên Tài', 'Chính Tài']
            (Canh, TenGod::ChinhTai),  // Hỏa→Kim, Canh dương Đinh âm → khác → Chính Tài
            (Tan, TenGod::ThienTai),   // Hỏa→Kim, Tân âm Đinh âm → cùng → Thiên Tài
            // "Hành đó khắc Nhật chủ" (Thủy→Hỏa) → ['Chính Quan', 'Thất Sát']
            (Nham, TenGod::ChinhQuan), // Thủy→Hỏa, Nhâm dương Đinh âm → khác → Chính Quan
            (Quy, TenGod::ThatSat),    // Thủy→Hỏa, Quý âm Đinh âm → cùng → Thất Sát
        ];
for (stem, exp) in expected {
        let got = ten_god_of(Dinh, stem);
        assert_eq!(
            got, exp,
            "Nhật chủ Đinh vs {:?}: got {:?}, expected {:?}", stem, got, exp
        );
    }
}

#[test]
fn sinh_cycle_is_correct() {
    assert!(sinh(Moc, Hoa));
    assert!(sinh(Hoa, Tho));
    assert!(sinh(Tho, Kim));
    assert!(sinh(Kim, Thuy));
    assert!(sinh(Thuy, Moc));
    assert!(!sinh(Moc, Kim));
    assert!(!sinh(Hoa, Moc));
}

#[test]
fn khac_cycle_is_correct() {
    assert!(khac(Moc, Tho));
    assert!(khac(Tho, Thuy));
    assert!(khac(Thuy, Hoa));
    assert!(khac(Hoa, Kim));
    assert!(khac(Kim, Moc));
    assert!(!khac(Moc, Hoa));
    assert!(!khac(Kim, Thuy));
}

#[test]
fn ten_god_enum_names_are_vietnamese() {
    assert_eq!(TenGod::TyKien.name_vn(), "Tỷ Kiên");
    assert_eq!(TenGod::ThatSat.name_vn(), "Thất Sát");
}

#[test]
fn all_12_branches_have_at_least_one_hidden_stem() {
    for b in all_12_branches() {
        let stems = hidden_stems(b);
        assert!(!stems.is_empty(), "branch {:?} has 0 hidden stems", b);
        assert!(stems.len() <= 3, "branch {:?} has > 3 stems", b);
    }
}

#[test]
fn table_matches_standard_reference() {
    let cases: [(EarthlyBranch, &[HeavenlyStem]); 12] = [
        (Ty, &[Quy]),
        (Suu, &[Ky, Quy, Tan]),
        (Dan, &[Giap, Binh, Mau]),
        (Mao, &[At]),
        (Thin, &[Mau, At, Quy]),
        (Ty2, &[Binh, Mau, Canh]),
        (Ngo, &[Dinh, Ky]),
        (Mui, &[Ky, Dinh, At]),
        (Than, &[Canh, Nham, Mau]),
        (Dau, &[Tan]),
        (Tuat, &[Mau, Tan, Dinh]),
        (Hoi, &[Nham, Giap]),
    ];
    for (branch, expected) in cases {
        let got = hidden_stems(branch);
        assert_eq!(got.len(), expected.len(), "hidden stems of {:?} mismatch", branch);
        for (i, &s) in expected.iter().enumerate() {
            assert_eq!(got[i], s, "hidden stems of {:?} at {}: mismatch", branch, i);
        }
    }
}

/// `TIET_KHI_24` phải nhất quán: 24 mục, kinh độ tăng đều 15°, và các mục
/// chỉ số chẵn phải trùng khớp `TIET_KHI_TABLE` (12 tiết 節).
#[test]
fn bang_24_tiet_khi_nhat_quan_voi_bang_12_tiet() {
    assert_eq!(TIET_KHI_24.len(), 24);
    for (i, &(deg, _)) in TIET_KHI_24.iter().enumerate() {
        let mong_doi = (315 + 15 * i as u32) % 360;
        assert_eq!(deg, mong_doi, "mục {i} sai kinh độ");
    }
    for (i, &(deg, ten)) in TIET_KHI_TABLE.iter().enumerate() {
        assert_eq!(TIET_KHI_24[i * 2], (deg, ten), "tiết 節 thứ {i} không khớp");
    }
}
