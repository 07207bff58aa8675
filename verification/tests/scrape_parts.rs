//! Bóc diễn giải từ HTML licham365.

use tinhban::lich::SolarDate;
use tinhban::scrape::{
    build_url, parse_sections, ScrapeError, DEFAULT_BASE_URL, MIN_SECTIONS, USER_AGENT,
};

/// HTML mẫu tối giản, mô phỏng đúng khung `div.c-de` + `h3` của licham365.
const HTML_OK: &str = r#"
        <html><body>
          <table class="c-da"><tr><td>Tháng 3 Năm 2024</td></tr></table>
          <div class="c-de"><div class="c-he-titles"><h3>Giờ hoàng đạo &amp; Giờ hắc đạo</h3></div>
            <table><tr><td>Giờ Hoàng Đạo</td><td>Tý (23:00-0:59), Sửu (1:00-2:59)</td></tr></table></div>
          <div class="c-de"><div class="c-he-titles"><h3>Theo Ngọc Hạp Thông Thư</h3></div>
            <p>Sao tốt: Thiên Phúc</p><p>Sao xấu: Ly sào</p></div>
          <div class="c-de"><div class="c-he-titles"><h3>Trực: Bế</h3></div>
            <p>Nên làm: Xây đắp tường</p><p>Không nên làm: Nhập học</p></div>
          <div class="c-de"><div class="c-he-titles"><h3>Xuất hành</h3></div>
            <p>Hỷ thần: Đông Nam</p></div>
          <p>Chi tiết ngày tốt xấu, 15 tháng 3 năm 2024 , nhằm ngày 6-2-2024 âm lịch,
             là ngày Hoàng đạo (tốt). Còn lại không quan trọng.</p>
        </body></html>
    "#;

#[test]
fn bocduoc_cac_muc_va_giu_thu_tu() {
    let d = parse_sections(HTML_OK, "https://example/x").expect("phải bóc được");
    let titles: Vec<&str> = d.sections.iter().map(|s| s.title.as_str()).collect();
    assert_eq!(
        titles,
        vec![
            "Giờ hoàng đạo & Giờ hắc đạo",
            "Theo Ngọc Hạp Thông Thư",
            "Trực: Bế",
            "Xuất hành",
        ]
    );
    assert!(d.sections[2].body.contains("Nên làm"));
    // Tiêu đề không được lặp lại trong body.
    assert!(!d.sections[2].body.starts_with("Trực: Bế"));
    assert_eq!(d.source_url, "https://example/x");
}

#[test]
fn boc_duoc_doan_tom_tat() {
    let d = parse_sections(HTML_OK, "https://example/x").unwrap();
    let t = d.tom_tat.expect("phải có tóm tắt");
    assert!(t.contains("Hoàng đạo (tốt)"), "tóm tắt sai: {t}");
    assert!(!t.contains("Còn lại không quan trọng"), "cắt sai câu: {t}");
}

/// Site đổi khung HTML → phải báo `NoSections` với thông điệp chỉ đúng chỗ
/// cần sửa, không panic và không trả về rỗng im lặng.
#[test]
fn doi_cau_truc_html_bao_loi_ro_rang() {
    let html = "<html><body><div class='doi-roi'><h3>Gì đó</h3><p>abc</p></div></body></html>";
    let e = parse_sections(html, "u").expect_err("phải lỗi");
    assert!(matches!(e, ScrapeError::NoSections));
    let msg = e.to_string();
    assert!(msg.contains("div.c-de"), "thông điệp phải nêu selector: {msg}");
    assert!(
        msg.contains("SECTION_BLOCK_SELECTOR"),
        "thông điệp phải chỉ ra hằng cần sửa: {msg}"
    );
}

/// Trang rút gọn / bị chặn → `TooFewSections`, không nhận nhầm là thành công.
#[test]
fn trang_qua_it_muc_bi_tu_choi() {
    let html = "<html><body>\
        <div class='c-de'><h3>A</h3><p>1</p></div>\
        <div class='c-de'><h3>B</h3><p>2</p></div></body></html>";
    let e = parse_sections(html, "u").expect_err("phải lỗi");
    assert!(matches!(e, ScrapeError::TooFewSections(2)), "{e:?}");
    assert_eq!(
        e.to_string(),
        "chỉ bóc được 2 mục (kỳ vọng ít nhất 4) — cấu trúc HTML của licham365.vn có thể đã đổi một phần, hoặc trang trả về bản rút gọn"
    );
}

/// Khối không có `h3` hoặc không có nội dung thì bỏ qua, không sinh mục rỗng.
#[test]
fn bo_qua_khoi_rong() {
    let html = format!(
        "<html><body>{}\
         <div class='c-de'><p>không có tiêu đề</p></div>\
         <div class='c-de'><h3>Rỗng</h3></div></body></html>",
        HTML_OK
    );
    let d = parse_sections(&html, "u").unwrap();
    assert!(d.sections.iter().all(|s| !s.title.is_empty() && !s.body.is_empty()));
    assert!(!d.sections.iter().any(|s| s.title == "Rỗng"));
}

#[test]
fn url_khong_dem_so_0() {
    let d = SolarDate { year: 2024, month: 3, day: 5 };
    // Không đặt gốc URL riêng → dùng gốc mặc định.
    assert_eq!(
        build_url(DEFAULT_BASE_URL, d),
        format!("{DEFAULT_BASE_URL}/lich-am-ngay-5-thang-3-nam-2024")
    );
}

#[test]
fn url_dung_goc_rieng() {
    let d = SolarDate { year: 2026, month: 12, day: 31 };
    assert_eq!(
        build_url("http://localhost:8080", d),
        "http://localhost:8080/lich-am-ngay-31-thang-12-nam-2026"
    );
}

#[test]
fn user_agent_khong_gia_mao_trinh_duyet() {
    assert!(USER_AGENT.starts_with("TinhBan/"));
    for xau in ["Mozilla", "Chrome", "Safari", "AppleWebKit"] {
        assert!(!USER_AGENT.contains(xau), "UA không được giả {xau}");
    }
}

#[test]
fn loi_http_co_ma_trang_thai() {
    assert_eq!(ScrapeError::Status(503).to_string(), "licham365.vn trả HTTP 503");
    assert_eq!(MIN_SECTIONS, 4);
}
