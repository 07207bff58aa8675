# tinhban

Tinh Bàn: âm lịch Việt Nam, Can Chi, lá số Tử Vi Đẩu Số, Bát Tự (Tứ Trụ) và
Trạch Nhật (xem ngày tốt xấu), cùng một ứng dụng web nhỏ lưu hồ sơ, tra từ
điển thuật ngữ và đối chiếu diễn giải ngày với licham365.vn.

## Bố cục

- `src/` — thư viện, viết trong Verus; mọi hàm có hợp đồng `requires` /
  `ensures` và được kiểm chứng.
  - `canchi`, `lich`, `astronomy`, `modulo`: Can Chi, ngày dương, Julian Day,
    ráp ngày âm từ khung tháng (JD ngày sóc, hai mốc tháng 11 âm, tháng nhuận).
  - `tuvi`: an 14 chính tinh, 13 phụ tinh, vòng Trường Sinh, cục, 12 cung;
    `tuvi::laws` chứa các luật của lá số.
  - `bat_tu`: Tứ Trụ theo tiết khí, Thập Thần, can tàng, đếm Ngũ Hành.
  - `trach_nhat`: 12 Thần Hoàng Đạo / Hắc Đạo, 12 Trực, giờ tốt, kiêng kỵ.
  - `tu_dien`, `scrape`, `ngay_tot_xau`, `ho_so`, `db`, `hien_thi`, `text`,
    `strs`: phần quy tắc của ứng dụng (đọc frontmatter, bóc trang licham365,
    chính sách bộ đệm, kiểm tra hồ sơ, chuẩn hoá chuỗi tìm kiếm, dựng ô lưới
    lá số, thoát HTML). Lời gọi sang crate ngoài (`chrono`, `scraper`,
    `pulldown-cmark`, lỗi của `reqwest` / `sqlx`) đi qua vài hàm bọc có hợp
    đồng được tin, mỗi hàm có chú thích nói rõ điều được tin.
- `app/` — Rust thường: máy chủ `axum`, giao diện `dioxus`, cơ sở dữ liệu
  `sqlx`, tải trang bằng `reqwest`, bản sao kiểu dữ liệu mang `serde`, và phép
  tính thiên văn bằng số thực (thời điểm sóc, kinh độ Mặt Trời, ngày tiết khí),
  vốn không thể đưa vào phần đã kiểm chứng. Phần này chỉ tính các mốc nguyên
  rồi giao cho thư viện.
- `tests/` — kiểm thử chạy thật, gồm các bộ lá số và ngày đối chiếu.
