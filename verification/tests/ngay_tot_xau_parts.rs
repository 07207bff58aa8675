//! Ngày tốt/xấu: chính sách cache và DTO.

use tinhban::db::Licham365Cache;
use tinhban::ngay_tot_xau::{
    ket_qua_scrape, nen_thu_lai, quyet_dinh_cache, NguonDienGiai, QuyetDinhCache, TuTinhDto,
    ERROR_RETRY_AFTER_SECS,
};
use tinhban::trach_nhat::danh_gia_ngay;
use tinhban::{LunarDate, SolarDate};

fn bay_gio() -> i64 {
    chrono::Utc::now().timestamp()
}

#[test]
fn ban_ghi_loi_moi_thi_khong_thu_lai() {
    let vua_xong = chrono::Utc::now().format("%Y-%m-%dT%H:%M:%SZ").to_string();
    assert!(!nen_thu_lai(&vua_xong, bay_gio()));
}

#[test]
fn ban_ghi_loi_cu_thi_thu_lai() {
    let lau_roi = (chrono::Utc::now() - chrono::Duration::hours(3))
        .format("%Y-%m-%dT%H:%M:%SZ")
        .to_string();
    assert!(nen_thu_lai(&lau_roi, bay_gio()));
}

#[test]
fn moc_thoi_gian_hong_thi_cu_thu_lai() {
    assert!(nen_thu_lai("không phải ngày giờ", bay_gio()));
    assert!(nen_thu_lai("", bay_gio()));
}

#[test]
fn nguong_thu_lai_dung_mot_gio() {
    // 2024-03-15T00:00:00Z = 1710460800.
    let t = "2024-03-15T00:00:00Z";
    assert_eq!(ERROR_RETRY_AFTER_SECS, 3600);
    assert!(!nen_thu_lai(t, 1710460800 + 3599));
    assert!(nen_thu_lai(t, 1710460800 + 3600));
    assert!(!nen_thu_lai("2024-03-15T07:00:00+07:00", 1710460800 + 10));
}

fn cache(ok: bool, payload: Option<&str>, error: Option<&str>, fetched_at: &str) -> Licham365Cache {
    Licham365Cache {
        solar_date: "2024-03-15".into(),
        ok,
        payload: payload.map(|s| s.to_string()),
        error: error.map(|s| s.to_string()),
        source_url: "https://licham365.vn/lich-am-ngay-15-thang-3-nam-2024".into(),
        fetched_at: fetched_at.into(),
    }
}

#[test]
fn chinh_sach_cache() {
    let now = 1710460800 + 60;
    assert_eq!(quyet_dinh_cache(&None, false, now), QuyetDinhCache::Scrape);
    let tot = Some(cache(true, Some("{}"), None, "2024-03-15T00:00:00Z"));
    assert_eq!(quyet_dinh_cache(&tot, true, now), QuyetDinhCache::DungCache);
    // Payload hỏng → scrape lại.
    assert_eq!(quyet_dinh_cache(&tot, false, now), QuyetDinhCache::Scrape);
    let loi = Some(cache(false, None, Some("HTTP 503"), "2024-03-15T00:00:00Z"));
    assert_eq!(
        quyet_dinh_cache(&loi, false, now),
        QuyetDinhCache::BaoLoiCu(
            "Không lấy được diễn giải chi tiết từ licham365.vn (HTTP 503). Đang hiển thị kết quả tính toán cơ bản. Sẽ tự thử lại sau ít phút."
                .into()
        )
    );
    assert_eq!(quyet_dinh_cache(&loi, false, now + 7200), QuyetDinhCache::Scrape);
    let loi_khong_ro = Some(cache(false, None, None, "2024-03-15T00:00:00Z"));
    match quyet_dinh_cache(&loi_khong_ro, false, now) {
        QuyetDinhCache::BaoLoiCu(m) => assert!(m.contains("(không rõ)")),
        k => panic!("phải báo lỗi cũ, được {k:?}"),
    }
}

#[test]
fn scrape_that_bai_thanh_ghi_chu() {
    let (d, n, g) = ket_qua_scrape(Err("licham365.vn trả HTTP 500".into()));
    assert!(d.is_none() && n.is_none());
    assert_eq!(
        g.as_deref(),
        Some("Không lấy được diễn giải chi tiết từ licham365.vn (licham365.vn trả HTTP 500). Đang hiển thị kết quả tính toán cơ bản.")
    );
    let _ = NguonDienGiai::Cache;
}

/// DTO phải giữ đủ thông tin cốt lõi và không rỗng.
#[test]
fn dto_tu_tinh_day_du() {
    // Âm lịch và kinh độ Mặt Trời cuối ngày 15/3/2024 theo phép tính thiên văn
    // của ứng dụng.
    let lunar = LunarDate { day: 6, month: 2, year: 2024, is_leap_month: false };
    let a = danh_gia_ngay(SolarDate { year: 2024, month: 3, day: 15 }, lunar, 355).unwrap();
    let dto = TuTinhDto::from_assessment(&a);
    assert_eq!(dto.ngay_duong, "2024-03-15");
    assert_eq!(dto.ngay_am, "6/2/2024");
    assert_eq!(dto.ngay_can_chi, "Mậu Dần");
    assert_eq!(dto.truc, "Bế");
    assert_eq!(dto.tiet_khi, "Kinh Trập");
    assert!(dto.ngay_hoang_dao);
    assert_eq!(dto.gio_hoang_dao.len(), 6);
    assert_eq!(dto.gio_hac_dao.len(), 6);
    assert_eq!(dto.gio_hoang_dao[0].khung, "23:00–00:59");
    assert!(dto.gio_hoang_dao.iter().all(|g| g.tot));
    assert!(dto.gio_hac_dao.iter().all(|g| !g.tot));
}
