//! Danh sách những ngày mà đánh giá ngày của thư viện cố ý khác licham365.vn,
//! mỗi mục kèm nguyên nhân gốc: số nguyên nhân phải giữ nhỏ và mỗi nguyên nhân
//! phải có mô tả.

/// Các trường có thể lệch, dùng làm khoá cho [`LECH_DA_BIET`].
#[allow(dead_code)]
#[derive(Debug, Clone, Copy, PartialEq, Eq)]
enum Truong {
    NgayAm,
    Tiet,
    Truc,
    HoangDao,
    KiengKy,
}

/// Nguyên nhân gốc của một khác biệt so với licham365.
///
/// Mọi khác biệt đều phải quy được về một trong số ít nguyên nhân dưới đây.
/// Test [`moi_khac_biet_deu_quy_ve_nguyen_nhan_da_biet`] chốt rằng số nguyên
/// nhân không phình ra — nếu xuất hiện kiểu lệch mới, phải hiểu và đặt tên cho
/// nó, chứ không được nhét thêm ngoại lệ rời rạc.
#[derive(Debug, Clone, Copy, PartialEq, Eq)]
enum NguyenNhan {
    /// Sóc (new moon) rơi sát nửa đêm giờ VN → lệch 1 ngày Âm lịch.
    SocSatNuaDem,
    /// Quy ước đặt tên tiết khí khác nhau (đầu ngày vs cuối ngày).
    QuyUocTenTiet,
    /// licham365 đặt mốc giao tiết sớm 1 ngày khi khoảnh khắc giao rơi vào
    /// rạng sáng.
    LichamSomMocTiet,
    /// Kết luận của licham365 mâu thuẫn với chính danh sách sao của nó.
    LichamTuMauThuan,
}

impl NguyenNhan {
    fn mo_ta(self) -> &'static str {
        match self {
            Self::SocSatNuaDem =>
                "Sóc rơi sát nửa đêm giờ VN nên đa thức new_moon() của Hồ Ngọc \
                 Đức (sai số vài phút) xếp mùng 1 lệch 1 ngày. Giới hạn đã ghi \
                 nhận từ giai đoạn 2. Hiếm: đo 602 ngày trên 20 tháng khác thì \
                 khớp 602/602; chỉ tháng 7/2026 sai (nhật thực toàn phần \
                 12/8/2026 lúc 17:46 UTC = 00:46 ngày 13/8 giờ VN). Kéo theo sai \
                 cả Tam Nương / Nguyệt Kỵ vì hai mục này đếm theo ngày Âm.",
            Self::QuyUocTenTiet =>
                "Ta gọi tên tiết theo trạng thái CUỐI ngày (ngày chứa khoảnh \
                 khắc giao tiết đã mang tên tiết mới); licham365 gọi theo trạng \
                 thái ĐẦU ngày. Hai quy ước lệch nhau đúng 1 ngày tại mỗi mốc. \
                 Chỉ ảnh hưởng NHÃN hiển thị, không ảnh hưởng tháng tiết khí \
                 dùng cho Trực.",
            Self::LichamSomMocTiet =>
                "licham365 đặt mốc giao tiết sớm hơn ta 1 ngày khi khoảnh khắc \
                 giao rơi vào rạng sáng. Đo trên 318 ngày: chỉ 4 ngày lệch, và \
                 cả 4 đều có mốc tiết thật rơi trong khoảng 01:57–05:16 giờ VN \
                 của ngày kế tiếp (Hàn Lộ 2024 01:57, Lập Đông 2024 05:16, Tiểu \
                 Thử 2025 03:04, Lập Xuân 2026 02:54). Ở các mốc rơi muộn hơn \
                 trong ngày (Lập Xuân 2025 21:07, Kinh Trập 2025 15:03, Bạch Lộ \
                 2026 21:41) hai bên khớp nhau. Ta theo quy ước cổ điển: ngày \
                 giao tiết là ngày dương lịch CHỨA khoảnh khắc đó. Bằng chứng \
                 licham365 sai: trên chính những trang đó, dòng 'Tiết:' vẫn ghi \
                 tiết CŨ trong khi Trực đã nhảy sang tháng MỚI.",
            Self::LichamTuMauThuan =>
                "licham365 kết luận 'Hoàng đạo (tốt)' nhưng chính trang đó liệt \
                 kê sao 'Chu tước hắc đạo'. Cả 3 ca đều cùng dạng: ngày Chi Dậu \
                 trong tháng Âm lịch 4 hoặc 10 (Chi tháng Tỵ/Hợi). Ta theo vòng \
                 12 Thần: Chu Tước → Hắc Đạo.",
        }
    }
}

/// Ngày + trường mà ta biết trước là lệch với licham365, kèm nguyên nhân gốc.
///
/// Nếu nguồn đối chiếu sửa lỗi của họ, test sẽ đỏ và buộc ta xoá mục tương ứng.
const LECH_DA_BIET: &[(&str, Truong, NguyenNhan)] = &[
    // — Sóc sát nửa đêm: tháng 7/2026 lệch 1 ngày Âm
    ("2026-08-19", Truong::NgayAm, NguyenNhan::SocSatNuaDem),
    ("2026-08-19", Truong::KiengKy, NguyenNhan::SocSatNuaDem),
    // — Quy ước đặt tên tiết khí
    ("2025-02-03", Truong::Tiet, NguyenNhan::QuyUocTenTiet),
    ("2025-03-05", Truong::Tiet, NguyenNhan::QuyUocTenTiet),
    ("2016-08-22", Truong::Tiet, NguyenNhan::QuyUocTenTiet),
    // — licham365 đặt mốc giao tiết sớm 1 ngày
    ("2024-10-07", Truong::Truc, NguyenNhan::LichamSomMocTiet),
    ("2024-11-06", Truong::Truc, NguyenNhan::LichamSomMocTiet),
    ("2025-07-06", Truong::Truc, NguyenNhan::LichamSomMocTiet),
    ("2026-02-03", Truong::Truc, NguyenNhan::LichamSomMocTiet),
    // — licham365 tự mâu thuẫn với danh sách sao của chính nó
    ("2024-05-21", Truong::HoangDao, NguyenNhan::LichamTuMauThuan),
    ("2024-11-05", Truong::HoangDao, NguyenNhan::LichamTuMauThuan),
    ("2025-05-04", Truong::HoangDao, NguyenNhan::LichamTuMauThuan),
];

/// Chốt chặn: mọi khác biệt phải quy về một tập **nhỏ** các nguyên nhân đã
/// hiểu rõ. Nếu ai đó gặp kiểu lệch mới, họ buộc phải phân tích và đặt tên cho
/// nó thay vì thêm ngoại lệ rời rạc để test xanh trở lại.
#[test]
fn moi_khac_biet_deu_quy_ve_nguyen_nhan_da_biet() {
    let mut nn: Vec<String> = LECH_DA_BIET
        .iter()
        .map(|(_, _, n)| format!("{n:?}"))
        .collect();
    nn.sort();
    nn.dedup();
    assert!(
        nn.len() <= 4,
        "có {} nguyên nhân lệch khác nhau ({nn:?}) — vượt 4 nguyên nhân đã \\
         phân tích; hãy điều tra kiểu lệch mới thay vì nới ngưỡng",
        nn.len()
    );
    // Mỗi nguyên nhân phải có mô tả không rỗng.
    for (_, _, n) in LECH_DA_BIET {
        assert!(!n.mo_ta().is_empty(), "{n:?} thiếu mô tả");
    }
}
