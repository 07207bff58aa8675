//! Chuẩn hoá tiếng Việt cho tìm kiếm và biểu thức FTS.

use tinhban::db::{bieu_thuc_fts, chuan_hoa_tim_kiem, tep_csdl, DEFAULT_DATABASE_URL};

#[test]
fn chuan_hoa_bo_dau_va_map_chu_d() {
    assert_eq!(chuan_hoa_tim_kiem("Tử Vi"), "tu vi");
    assert_eq!(chuan_hoa_tim_kiem("Đào Hoa"), "dao hoa");
    assert_eq!(chuan_hoa_tim_kiem("Thiên Việt"), "thien viet");
    assert_eq!(chuan_hoa_tim_kiem("Cự Môn"), "cu mon");
    assert_eq!(chuan_hoa_tim_kiem("  Phá   Quân  "), "pha quan");
    // Ký tự lạ thành khoảng trắng, không sinh token rác.
    assert_eq!(chuan_hoa_tim_kiem("Tử-Vi (Đế tinh)"), "tu vi de tinh");
    assert_eq!(chuan_hoa_tim_kiem("!!!"), "");
}

#[test]
fn bieu_thuc_fts_moi_tu_la_mot_tien_to() {
    assert_eq!(bieu_thuc_fts("Tử Vi").as_deref(), Some("tu* AND vi*"));
    assert_eq!(bieu_thuc_fts("  dao   HOA ").as_deref(), Some("dao* AND hoa*"));
    assert_eq!(bieu_thuc_fts("menh").as_deref(), Some("menh*"));
}

#[test]
fn bieu_thuc_fts_rong_khi_khong_con_chu() {
    assert_eq!(bieu_thuc_fts("!!!"), None);
    assert_eq!(bieu_thuc_fts(""), None);
    assert_eq!(bieu_thuc_fts("\"*()"), None);
}

#[test]
fn url_csdl_mac_dinh() {
    assert_eq!(DEFAULT_DATABASE_URL, "sqlite:data/tinhban.db?mode=rwc");
}

#[test]
fn duong_dan_tep_csdl() {
    assert_eq!(tep_csdl("sqlite:data/tinhban.db?mode=rwc").as_deref(), Some("data/tinhban.db"));
    assert_eq!(tep_csdl("sqlite:/var/lib/tb.db").as_deref(), Some("/var/lib/tb.db"));
    assert_eq!(tep_csdl("sqlite::memory:"), None);
    assert_eq!(tep_csdl("sqlite:?mode=memory"), None);
    assert_eq!(tep_csdl("postgres://x"), None);
}

#[test]
fn chuoi_chuan_hoa_luon_gon() {
    for s in ["  Tử   Vi!! ", "\tĐào\u{00A0}Hoa--Sát ", "", "   ", "a  b", "Thái-Âm"] {
        let r = tinhban::db::chuan_hoa_tim_kiem(s);
        assert!(!r.starts_with(' ') && !r.ends_with(' '), "{r:?}");
        assert!(!r.contains("  "), "{r:?}");
        assert!(r.chars().all(|c| c == ' ' || !c.is_whitespace()), "{r:?}");
    }
    assert_eq!(tinhban::db::chuan_hoa_tim_kiem("  Tử   Vi!! "), "tu vi");
}
