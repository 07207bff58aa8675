//! Kiểu dữ liệu của Trạch Nhật: 12 vị Thần trực nhật, khung giờ, 12 Trực,
//! kiêng kỵ, kết quả đánh giá một ngày.

use vstd::prelude::*;

use crate::canchi::{CanChi, EarthlyBranch};
use crate::lich::{LunarDate, SolarDate};
use crate::text::{pad2, push_pad2, push_str};

verus! {

/// 12 vị Thần trực nhật (6 Hoàng Đạo, 6 Hắc Đạo), theo thứ tự vòng.
#[derive(Debug, Clone, Copy, PartialEq, Eq, Structural, Hash, PartialOrd, Ord)]
pub enum ThanSat {
    /// Thanh Long.
    ThanhLong,
    /// Minh Đường.
    MinhDuong,
    /// Thiên Hình.
    ThienHinh,
    /// Chu Tước.
    ChuTuoc,
    /// Kim Quỹ.
    KimQuy,
    /// Thiên Đức.
    ThienDuc,
    /// Bạch Hổ.
    BachHo,
    /// Ngọc Đường.
    NgocDuong,
    /// Thiên Lao.
    ThienLao,
    /// Nguyên Vũ.
    NguyenVu,
    /// Tư Mệnh.
    TuMenh,
    /// Câu Trận.
    CauTran,
}

impl ThanSat {
    /// Vị trí 0..11 trong vòng.
    pub open spec fn idx(self) -> nat {
        match self {
            ThanSat::ThanhLong => 0,
            ThanSat::MinhDuong => 1,
            ThanSat::ThienHinh => 2,
            ThanSat::ChuTuoc => 3,
            ThanSat::KimQuy => 4,
            ThanSat::ThienDuc => 5,
            ThanSat::BachHo => 6,
            ThanSat::NgocDuong => 7,
            ThanSat::ThienLao => 8,
            ThanSat::NguyenVu => 9,
            ThanSat::TuMenh => 10,
            ThanSat::CauTran => 11,
        }
    }

    /// Thần ở vị trí `i` (0..11).
    pub open spec fn at(i: int) -> ThanSat {
        if i == 0 {
            ThanSat::ThanhLong
        } else if i == 1 {
            ThanSat::MinhDuong
        } else if i == 2 {
            ThanSat::ThienHinh
        } else if i == 3 {
            ThanSat::ChuTuoc
        } else if i == 4 {
            ThanSat::KimQuy
        } else if i == 5 {
            ThanSat::ThienDuc
        } else if i == 6 {
            ThanSat::BachHo
        } else if i == 7 {
            ThanSat::NgocDuong
        } else if i == 8 {
            ThanSat::ThienLao
        } else if i == 9 {
            ThanSat::NguyenVu
        } else if i == 10 {
            ThanSat::TuMenh
        } else {
            ThanSat::CauTran
        }
    }

    /// Hoàng Đạo: Thanh Long, Minh Đường, Kim Quỹ, Thiên Đức, Ngọc Đường, Tư Mệnh.
    pub open spec fn spec_is_hoang_dao(self) -> bool {
        self.idx() == 0 || self.idx() == 1 || self.idx() == 4 || self.idx() == 5 || self.idx() == 7
            || self.idx() == 10
    }

    /// Tên tiếng Việt.
    pub open spec fn name_seq(self) -> Seq<char> {
        match self {
            ThanSat::ThanhLong => "Thanh Long"@,
            ThanSat::MinhDuong => "Minh Đường"@,
            ThanSat::ThienHinh => "Thiên Hình"@,
            ThanSat::ChuTuoc => "Chu Tước"@,
            ThanSat::KimQuy => "Kim Quỹ"@,
            ThanSat::ThienDuc => "Thiên Đức"@,
            ThanSat::BachHo => "Bạch Hổ"@,
            ThanSat::NgocDuong => "Ngọc Đường"@,
            ThanSat::ThienLao => "Thiên Lao"@,
            ThanSat::NguyenVu => "Nguyên Vũ"@,
            ThanSat::TuMenh => "Tư Mệnh"@,
            ThanSat::CauTran => "Câu Trận"@,
        }
    }

    /// Ý nghĩa ngắn gọn.
    pub open spec fn y_nghia_seq(self) -> Seq<char> {
        match self {
            ThanSat::ThanhLong => "Hoàng Đạo — tốt mọi việc"@,
            ThanSat::MinhDuong => "Hoàng Đạo — tốt mọi việc, nhất là gặp gỡ quý nhân"@,
            ThanSat::ThienHinh => "Hắc Đạo — kỵ kiện tụng, tranh chấp"@,
            ThanSat::ChuTuoc => "Hắc Đạo — kỵ nhập trạch, khai trương; dễ khẩu thiệt"@,
            ThanSat::KimQuy => "Hoàng Đạo — tốt cầu tài lộc, giá thú"@,
            ThanSat::ThienDuc => "Hoàng Đạo — tốt mọi việc, nhất là tế tự, cầu phúc"@,
            ThanSat::BachHo => "Hắc Đạo — kỵ mai táng, động thổ"@,
            ThanSat::NgocDuong => "Hoàng Đạo — tốt mọi việc, nhất là hôn thú"@,
            ThanSat::ThienLao => "Hắc Đạo — kỵ xuất hành, kiện tụng"@,
            ThanSat::NguyenVu => "Hắc Đạo — kỵ tranh chấp, dễ mất của"@,
            ThanSat::TuMenh => "Hoàng Đạo — tốt mọi việc, nhất là ban ngày"@,
            ThanSat::CauTran => "Hắc Đạo — kỵ giá thú, xây cất"@,
        }
    }

    /// Vị trí 0..11 trong vòng.
    pub fn index(self) -> (r: u8)
        ensures
            r == self.idx(),
    {
        match self {
            ThanSat::ThanhLong => 0,
            ThanSat::MinhDuong => 1,
            ThanSat::ThienHinh => 2,
            ThanSat::ChuTuoc => 3,
            ThanSat::KimQuy => 4,
            ThanSat::ThienDuc => 5,
            ThanSat::BachHo => 6,
            ThanSat::NgocDuong => 7,
            ThanSat::ThienLao => 8,
            ThanSat::NguyenVu => 9,
            ThanSat::TuMenh => 10,
            ThanSat::CauTran => 11,
        }
    }

    /// Thần theo vị trí; `None` nếu ngoài 0..11.
    pub fn from_index(i: u8) -> (r: Option<ThanSat>)
        ensures
            i < 12 ==> r == Some(ThanSat::at(i as int)),
            i >= 12 ==> r is None,
    {
        if i == 0 {
            Some(ThanSat::ThanhLong)
        } else if i == 1 {
            Some(ThanSat::MinhDuong)
        } else if i == 2 {
            Some(ThanSat::ThienHinh)
        } else if i == 3 {
            Some(ThanSat::ChuTuoc)
        } else if i == 4 {
            Some(ThanSat::KimQuy)
        } else if i == 5 {
            Some(ThanSat::ThienDuc)
        } else if i == 6 {
            Some(ThanSat::BachHo)
        } else if i == 7 {
            Some(ThanSat::NgocDuong)
        } else if i == 8 {
            Some(ThanSat::ThienLao)
        } else if i == 9 {
            Some(ThanSat::NguyenVu)
        } else if i == 10 {
            Some(ThanSat::TuMenh)
        } else if i == 11 {
            Some(ThanSat::CauTran)
        } else {
            None
        }
    }

    /// Tên tiếng Việt.
    pub fn name_vn(self) -> (r: &'static str)
        ensures
            r@ == self.name_seq(),
    {
        match self {
            ThanSat::ThanhLong => "Thanh Long",
            ThanSat::MinhDuong => "Minh Đường",
            ThanSat::ThienHinh => "Thiên Hình",
            ThanSat::ChuTuoc => "Chu Tước",
            ThanSat::KimQuy => "Kim Quỹ",
            ThanSat::ThienDuc => "Thiên Đức",
            ThanSat::BachHo => "Bạch Hổ",
            ThanSat::NgocDuong => "Ngọc Đường",
            ThanSat::ThienLao => "Thiên Lao",
            ThanSat::NguyenVu => "Nguyên Vũ",
            ThanSat::TuMenh => "Tư Mệnh",
            ThanSat::CauTran => "Câu Trận",
        }
    }

    /// Thần Hoàng Đạo (tốt) hay không.
    pub fn is_hoang_dao(self) -> (r: bool)
        ensures
            r == self.spec_is_hoang_dao(),
    {
        match self {
            ThanSat::ThanhLong | ThanSat::MinhDuong | ThanSat::KimQuy | ThanSat::ThienDuc
            | ThanSat::NgocDuong | ThanSat::TuMenh => true,
            _ => false,
        }
    }

    /// Ý nghĩa ngắn gọn của Thần.
    pub fn y_nghia_vn(self) -> (r: &'static str)
        ensures
            r@ == self.y_nghia_seq(),
    {
        match self {
            ThanSat::ThanhLong => "Hoàng Đạo — tốt mọi việc",
            ThanSat::MinhDuong => "Hoàng Đạo — tốt mọi việc, nhất là gặp gỡ quý nhân",
            ThanSat::ThienHinh => "Hắc Đạo — kỵ kiện tụng, tranh chấp",
            ThanSat::ChuTuoc => "Hắc Đạo — kỵ nhập trạch, khai trương; dễ khẩu thiệt",
            ThanSat::KimQuy => "Hoàng Đạo — tốt cầu tài lộc, giá thú",
            ThanSat::ThienDuc => "Hoàng Đạo — tốt mọi việc, nhất là tế tự, cầu phúc",
            ThanSat::BachHo => "Hắc Đạo — kỵ mai táng, động thổ",
            ThanSat::NgocDuong => "Hoàng Đạo — tốt mọi việc, nhất là hôn thú",
            ThanSat::ThienLao => "Hắc Đạo — kỵ xuất hành, kiện tụng",
            ThanSat::NguyenVu => "Hắc Đạo — kỵ tranh chấp, dễ mất của",
            ThanSat::TuMenh => "Hoàng Đạo — tốt mọi việc, nhất là ban ngày",
            ThanSat::CauTran => "Hắc Đạo — kỵ giá thú, xây cất",
        }
    }
}

/// Thần trực ngày và kết luận Hoàng Đạo / Hắc Đạo.
#[derive(Debug, Clone, Copy, PartialEq, Eq, Structural, Hash)]
pub struct HoangDaoHacDao {
    pub than: ThanSat,
    pub is_hoang_dao: bool,
}

impl HoangDaoHacDao {
    /// "Hoàng Đạo" hoặc "Hắc Đạo".
    pub fn nhan_vn(&self) -> (r: &'static str)
        ensures
            r@ == (if self.is_hoang_dao {
                "Hoàng Đạo"@
            } else {
                "Hắc Đạo"@
            }),
    {
        if self.is_hoang_dao {
            "Hoàng Đạo"
        } else {
            "Hắc Đạo"
        }
    }
}

/// Một khung giờ Địa Chi (2 tiếng) kèm Thần trực giờ.
#[derive(Debug, Clone, Copy, PartialEq, Eq, Structural, Hash)]
pub struct HourRange {
    pub branch: EarthlyBranch,
    pub than: ThanSat,
    pub start_hour: u8,
    pub end_hour: u8,
}

/// Khung "HH:00–HH:59" của một khung giờ.
pub open spec fn khung_seq(start_hour: int, end_hour: int) -> Seq<char> {
    pad2(start_hour as nat) + ":00–"@ + pad2(end_hour as nat) + ":59"@
}

impl HourRange {
    /// Giờ Hoàng Đạo khi Thần trực giờ là Hoàng Đạo.
    pub fn is_hoang_dao(&self) -> (r: bool)
        ensures
            r == self.than.spec_is_hoang_dao(),
    {
        self.than.is_hoang_dao()
    }

    /// Nhãn, ví dụ "Tý (23:00–00:59)".
    pub fn label_vn(&self) -> (r: String)
        ensures
            r@ == self.branch.name_seq() + " ("@ + khung_seq(self.start_hour as int, self.end_hour as int)
                + ")"@,
    {
        let mut s = String::from_str(self.branch.name_vn());
        push_str(&mut s, " (");
        push_pad2(&mut s, self.start_hour as u64);
        push_str(&mut s, ":00–");
        push_pad2(&mut s, self.end_hour as u64);
        push_str(&mut s, ":59");
        push_str(&mut s, ")");
        s
    }
}

/// 12 Trực, theo thứ tự vòng.
#[derive(Debug, Clone, Copy, PartialEq, Eq, Structural, Hash, PartialOrd, Ord)]
pub enum Truc {
    /// Kiến.
    Kien,
    /// Trừ.
    Tru,
    /// Mãn.
    Man,
    /// Bình.
    Binh,
    /// Định.
    Dinh,
    /// Chấp.
    Chap,
    /// Phá.
    Pha,
    /// Nguy.
    Nguy,
    /// Thành.
    Thanh,
    /// Thu.
    Thu,
    /// Khai.
    Khai,
    /// Bế.
    Be,
}

/// Đánh giá chung của Trực.
#[derive(Debug, Clone, Copy, PartialEq, Eq, Structural, Hash)]
pub enum TrucRating {
    Tot,
    TrungBinh,
    Xau,
}

impl Truc {
    /// Vị trí 0..11 trong vòng.
    pub open spec fn idx(self) -> nat {
        match self {
            Truc::Kien => 0,
            Truc::Tru => 1,
            Truc::Man => 2,
            Truc::Binh => 3,
            Truc::Dinh => 4,
            Truc::Chap => 5,
            Truc::Pha => 6,
            Truc::Nguy => 7,
            Truc::Thanh => 8,
            Truc::Thu => 9,
            Truc::Khai => 10,
            Truc::Be => 11,
        }
    }

    /// Trực ở vị trí `i` (0..11).
    pub open spec fn at(i: int) -> Truc {
        if i == 0 {
            Truc::Kien
        } else if i == 1 {
            Truc::Tru
        } else if i == 2 {
            Truc::Man
        } else if i == 3 {
            Truc::Binh
        } else if i == 4 {
            Truc::Dinh
        } else if i == 5 {
            Truc::Chap
        } else if i == 6 {
            Truc::Pha
        } else if i == 7 {
            Truc::Nguy
        } else if i == 8 {
            Truc::Thanh
        } else if i == 9 {
            Truc::Thu
        } else if i == 10 {
            Truc::Khai
        } else {
            Truc::Be
        }
    }

    /// Tên tiếng Việt.
    pub open spec fn name_seq(self) -> Seq<char> {
        match self {
            Truc::Kien => "Kiến"@,
            Truc::Tru => "Trừ"@,
            Truc::Man => "Mãn"@,
            Truc::Binh => "Bình"@,
            Truc::Dinh => "Định"@,
            Truc::Chap => "Chấp"@,
            Truc::Pha => "Phá"@,
            Truc::Nguy => "Nguy"@,
            Truc::Thanh => "Thành"@,
            Truc::Thu => "Thu"@,
            Truc::Khai => "Khai"@,
            Truc::Be => "Bế"@,
        }
    }

    /// Việc nên làm.
    pub open spec fn nen_lam_seq(self) -> Seq<char> {
        match self {
            Truc::Kien => "Xuất hành, gặp quan chức, cầu danh, tuyển dụng"@,
            Truc::Tru => "Chữa bệnh, trừ tà, giải trừ điều xấu, dọn dẹp, cúng tế"@,
            Truc::Man => "Cầu tài lộc, khai trương, tế tự, nhập kho"@,
            Truc::Binh => "Cưới hỏi, san nền, sửa đường, hòa giải tranh chấp"@,
            Truc::Dinh => "Cưới hỏi, nhập học, ký kết, nhận chức, trồng cây"@,
            Truc::Chap => "Lập khế ước, giao dịch, động thổ san nền, cầu thầy chữa bệnh"@,
            Truc::Pha => "Phá dỡ nhà cũ, chữa răng, trị bệnh mãn tính"@,
            Truc::Nguy => "Tế tự, cầu phúc, an thần vị"@,
            Truc::Thanh => "Nhập học, khai trương, cưới hỏi, làm nhà, xuất hành"@,
            Truc::Thu => "Thu nợ, nhập kho, mua vào, cầu tài, đánh bắt"@,
            Truc::Khai => "Khai trương, nhập học, làm nhà, cưới hỏi, xuất hành"@,
            Truc::Be => "Xây đắp tường, đặt táng, gắn cửa, làm cầu, trị bệnh (trừ bệnh mắt)"@,
        }
    }

    /// Việc không nên làm.
    pub open spec fn khong_nen_lam_seq(self) -> Seq<char> {
        match self {
            Truc::Kien => "Động thổ, đào giếng, mai táng"@,
            Truc::Tru => "Xuất hành xa, cưới hỏi, khai trương"@,
            Truc::Man => "Uống thuốc, chữa bệnh, mai táng"@,
            Truc::Binh => "Đào giếng, khơi mương, động thổ"@,
            Truc::Dinh => "Kiện tụng, xuất hành, chữa bệnh"@,
            Truc::Chap => "Xuất hành xa, di dời, mở kho"@,
            Truc::Pha => "Hầu hết mọi việc trọng đại — cưới hỏi, khai trương, làm nhà, ký kết"@,
            Truc::Nguy => "Xuất hành, leo cao, đi thuyền, mạo hiểm"@,
            Truc::Thanh => "Kiện tụng, tranh chấp"@,
            Truc::Thu => "Xuất tiền, cho vay, an táng, khai trương"@,
            Truc::Khai => "Mai táng, động thổ đào huyệt"@,
            Truc::Be => "Nhận chức, nhập học, chữa bệnh mắt, chăn nuôi"@,
        }
    }

    /// Đánh giá chung: Trừ, Định, Thành, Khai tốt; Phá, Nguy, Bế xấu; còn lại trung bình.
    pub open spec fn spec_danh_gia(self) -> TrucRating {
        match self {
            Truc::Tru | Truc::Dinh | Truc::Thanh | Truc::Khai => TrucRating::Tot,
            Truc::Pha | Truc::Nguy | Truc::Be => TrucRating::Xau,
            _ => TrucRating::TrungBinh,
        }
    }

    /// Vị trí 0..11 trong vòng.
    pub fn index(self) -> (r: u8)
        ensures
            r == self.idx(),
    {
        match self {
            Truc::Kien => 0,
            Truc::Tru => 1,
            Truc::Man => 2,
            Truc::Binh => 3,
            Truc::Dinh => 4,
            Truc::Chap => 5,
            Truc::Pha => 6,
            Truc::Nguy => 7,
            Truc::Thanh => 8,
            Truc::Thu => 9,
            Truc::Khai => 10,
            Truc::Be => 11,
        }
    }

    /// Trực theo vị trí; `None` nếu ngoài 0..11.
    pub fn from_index(i: u8) -> (r: Option<Truc>)
        ensures
            i < 12 ==> r == Some(Truc::at(i as int)),
            i >= 12 ==> r is None,
    {
        if i == 0 {
            Some(Truc::Kien)
        } else if i == 1 {
            Some(Truc::Tru)
        } else if i == 2 {
            Some(Truc::Man)
        } else if i == 3 {
            Some(Truc::Binh)
        } else if i == 4 {
            Some(Truc::Dinh)
        } else if i == 5 {
            Some(Truc::Chap)
        } else if i == 6 {
            Some(Truc::Pha)
        } else if i == 7 {
            Some(Truc::Nguy)
        } else if i == 8 {
            Some(Truc::Thanh)
        } else if i == 9 {
            Some(Truc::Thu)
        } else if i == 10 {
            Some(Truc::Khai)
        } else if i == 11 {
            Some(Truc::Be)
        } else {
            None
        }
    }

    /// Tên tiếng Việt.
    pub fn name_vn(self) -> (r: &'static str)
        ensures
            r@ == self.name_seq(),
    {
        match self {
            Truc::Kien => "Kiến",
            Truc::Tru => "Trừ",
            Truc::Man => "Mãn",
            Truc::Binh => "Bình",
            Truc::Dinh => "Định",
            Truc::Chap => "Chấp",
            Truc::Pha => "Phá",
            Truc::Nguy => "Nguy",
            Truc::Thanh => "Thành",
            Truc::Thu => "Thu",
            Truc::Khai => "Khai",
            Truc::Be => "Bế",
        }
    }

    /// Việc nên làm trong ngày có Trực này.
    pub fn nen_lam_vn(self) -> (r: &'static str)
        ensures
            r@ == self.nen_lam_seq(),
    {
        match self {
            Truc::Kien => "Xuất hành, gặp quan chức, cầu danh, tuyển dụng",
            Truc::Tru => "Chữa bệnh, trừ tà, giải trừ điều xấu, dọn dẹp, cúng tế",
            Truc::Man => "Cầu tài lộc, khai trương, tế tự, nhập kho",
            Truc::Binh => "Cưới hỏi, san nền, sửa đường, hòa giải tranh chấp",
            Truc::Dinh => "Cưới hỏi, nhập học, ký kết, nhận chức, trồng cây",
            Truc::Chap => "Lập khế ước, giao dịch, động thổ san nền, cầu thầy chữa bệnh",
            Truc::Pha => "Phá dỡ nhà cũ, chữa răng, trị bệnh mãn tính",
            Truc::Nguy => "Tế tự, cầu phúc, an thần vị",
            Truc::Thanh => "Nhập học, khai trương, cưới hỏi, làm nhà, xuất hành",
            Truc::Thu => "Thu nợ, nhập kho, mua vào, cầu tài, đánh bắt",
            Truc::Khai => "Khai trương, nhập học, làm nhà, cưới hỏi, xuất hành",
            Truc::Be => "Xây đắp tường, đặt táng, gắn cửa, làm cầu, trị bệnh (trừ bệnh mắt)",
        }
    }

    /// Việc không nên làm trong ngày có Trực này.
    pub fn khong_nen_lam_vn(self) -> (r: &'static str)
        ensures
            r@ == self.khong_nen_lam_seq(),
    {
        match self {
            Truc::Kien => "Động thổ, đào giếng, mai táng",
            Truc::Tru => "Xuất hành xa, cưới hỏi, khai trương",
            Truc::Man => "Uống thuốc, chữa bệnh, mai táng",
            Truc::Binh => "Đào giếng, khơi mương, động thổ",
            Truc::Dinh => "Kiện tụng, xuất hành, chữa bệnh",
            Truc::Chap => "Xuất hành xa, di dời, mở kho",
            Truc::Pha => "Hầu hết mọi việc trọng đại — cưới hỏi, khai trương, làm nhà, ký kết",
            Truc::Nguy => "Xuất hành, leo cao, đi thuyền, mạo hiểm",
            Truc::Thanh => "Kiện tụng, tranh chấp",
            Truc::Thu => "Xuất tiền, cho vay, an táng, khai trương",
            Truc::Khai => "Mai táng, động thổ đào huyệt",
            Truc::Be => "Nhận chức, nhập học, chữa bệnh mắt, chăn nuôi",
        }
    }

    /// Đánh giá chung của Trực.
    pub fn danh_gia_chung(self) -> (r: TrucRating)
        ensures
            r == self.spec_danh_gia(),
    {
        match self {
            Truc::Tru | Truc::Dinh | Truc::Thanh | Truc::Khai => TrucRating::Tot,
            Truc::Pha | Truc::Nguy | Truc::Be => TrucRating::Xau,
            _ => TrucRating::TrungBinh,
        }
    }
}

/// Các ngày kiêng kỵ phổ thông.
#[derive(Debug, Clone, Copy, PartialEq, Eq, Structural, Hash, PartialOrd, Ord)]
pub enum KiengKy {
    /// Tam Nương.
    TamNuong,
    /// Nguyệt Kỵ.
    NguyetKy,
    /// Sát Chủ.
    SatChu,
}

impl KiengKy {
    /// Tên tiếng Việt.
    pub open spec fn name_seq(self) -> Seq<char> {
        match self {
            KiengKy::TamNuong => "Tam Nương"@,
            KiengKy::NguyetKy => "Nguyệt Kỵ"@,
            KiengKy::SatChu => "Sát Chủ"@,
        }
    }

    /// Ý nghĩa.
    pub open spec fn y_nghia_seq(self) -> Seq<char> {
        match self {
            KiengKy::TamNuong => "Trăm sự đều kỵ, chính kỵ xuất hành, cưới hỏi"@,
            KiengKy::NguyetKy => "Kỵ khởi sự, xuất hành, cưới hỏi, khai trương"@,
            KiengKy::SatChu => "Kỵ xây cất, cưới gả, động thổ, an táng"@,
        }
    }

    /// Tên tiếng Việt.
    pub fn name_vn(self) -> (r: &'static str)
        ensures
            r@ == self.name_seq(),
    {
        match self {
            KiengKy::TamNuong => "Tam Nương",
            KiengKy::NguyetKy => "Nguyệt Kỵ",
            KiengKy::SatChu => "Sát Chủ",
        }
    }

    /// Ý nghĩa.
    pub fn y_nghia_vn(self) -> (r: &'static str)
        ensures
            r@ == self.y_nghia_seq(),
    {
        match self {
            KiengKy::TamNuong => "Trăm sự đều kỵ, chính kỵ xuất hành, cưới hỏi",
            KiengKy::NguyetKy => "Kỵ khởi sự, xuất hành, cưới hỏi, khai trương",
            KiengKy::SatChu => "Kỵ xây cất, cưới gả, động thổ, an táng",
        }
    }
}

/// Kết quả đánh giá một ngày.
#[derive(Debug, Clone, PartialEq, Eq)]
pub struct DayAssessment {
    pub solar_date: SolarDate,
    pub lunar_date: LunarDate,
    pub day_can_chi: CanChi,
    pub month_can_chi: CanChi,
    pub year_can_chi: CanChi,
    /// Tên tiết khí đang hiệu lực.
    pub tiet_khi: &'static str,
    pub hoang_dao_hac_dao: HoangDaoHacDao,
    /// 12 khung giờ theo thứ tự Tý → Hợi.
    pub cac_gio: Vec<HourRange>,
    /// Các khung giờ Hoàng Đạo, giữ thứ tự.
    pub gio_hoang_dao: Vec<HourRange>,
    /// Các khung giờ Hắc Đạo, giữ thứ tự.
    pub gio_hac_dao: Vec<HourRange>,
    pub truc: Truc,
    pub kieng_ky: Vec<KiengKy>,
}

/// Tên tiếng Việt của 12 Thần trực.
pub proof fn lemma_bang_name_seq_thansat()
    ensures
        ThanSat::ThanhLong.name_seq() == "Thanh Long"@,
        ThanSat::MinhDuong.name_seq() == "Minh Đường"@,
        ThanSat::ThienHinh.name_seq() == "Thiên Hình"@,
        ThanSat::ChuTuoc.name_seq() == "Chu Tước"@,
        ThanSat::KimQuy.name_seq() == "Kim Quỹ"@,
        ThanSat::ThienDuc.name_seq() == "Thiên Đức"@,
        ThanSat::BachHo.name_seq() == "Bạch Hổ"@,
        ThanSat::NgocDuong.name_seq() == "Ngọc Đường"@,
        ThanSat::ThienLao.name_seq() == "Thiên Lao"@,
        ThanSat::NguyenVu.name_seq() == "Nguyên Vũ"@,
        ThanSat::TuMenh.name_seq() == "Tư Mệnh"@,
        ThanSat::CauTran.name_seq() == "Câu Trận"@,
{
}

/// Ý nghĩa của 12 Thần trực.
pub proof fn lemma_bang_y_nghia_seq_thansat()
    ensures
        ThanSat::ThanhLong.y_nghia_seq() == "Hoàng Đạo — tốt mọi việc"@,
        ThanSat::MinhDuong.y_nghia_seq() == "Hoàng Đạo — tốt mọi việc, nhất là gặp gỡ quý nhân"@,
        ThanSat::ThienHinh.y_nghia_seq() == "Hắc Đạo — kỵ kiện tụng, tranh chấp"@,
        ThanSat::ChuTuoc.y_nghia_seq() == "Hắc Đạo — kỵ nhập trạch, khai trương; dễ khẩu thiệt"@,
        ThanSat::KimQuy.y_nghia_seq() == "Hoàng Đạo — tốt cầu tài lộc, giá thú"@,
        ThanSat::ThienDuc.y_nghia_seq() == "Hoàng Đạo — tốt mọi việc, nhất là tế tự, cầu phúc"@,
        ThanSat::BachHo.y_nghia_seq() == "Hắc Đạo — kỵ mai táng, động thổ"@,
        ThanSat::NgocDuong.y_nghia_seq() == "Hoàng Đạo — tốt mọi việc, nhất là hôn thú"@,
        ThanSat::ThienLao.y_nghia_seq() == "Hắc Đạo — kỵ xuất hành, kiện tụng"@,
        ThanSat::NguyenVu.y_nghia_seq() == "Hắc Đạo — kỵ tranh chấp, dễ mất của"@,
        ThanSat::TuMenh.y_nghia_seq() == "Hoàng Đạo — tốt mọi việc, nhất là ban ngày"@,
        ThanSat::CauTran.y_nghia_seq() == "Hắc Đạo — kỵ giá thú, xây cất"@,
{
}

/// Tên tiếng Việt của 12 Trực.
pub proof fn lemma_bang_name_seq_truc()
    ensures
        Truc::Kien.name_seq() == "Kiến"@,
        Truc::Tru.name_seq() == "Trừ"@,
        Truc::Man.name_seq() == "Mãn"@,
        Truc::Binh.name_seq() == "Bình"@,
        Truc::Dinh.name_seq() == "Định"@,
        Truc::Chap.name_seq() == "Chấp"@,
        Truc::Pha.name_seq() == "Phá"@,
        Truc::Nguy.name_seq() == "Nguy"@,
        Truc::Thanh.name_seq() == "Thành"@,
        Truc::Thu.name_seq() == "Thu"@,
        Truc::Khai.name_seq() == "Khai"@,
        Truc::Be.name_seq() == "Bế"@,
{
}

/// Việc nên làm theo 12 Trực.
pub proof fn lemma_bang_nen_lam_seq_truc()
    ensures
        Truc::Kien.nen_lam_seq() == "Xuất hành, gặp quan chức, cầu danh, tuyển dụng"@,
        Truc::Tru.nen_lam_seq() == "Chữa bệnh, trừ tà, giải trừ điều xấu, dọn dẹp, cúng tế"@,
        Truc::Man.nen_lam_seq() == "Cầu tài lộc, khai trương, tế tự, nhập kho"@,
        Truc::Binh.nen_lam_seq() == "Cưới hỏi, san nền, sửa đường, hòa giải tranh chấp"@,
        Truc::Dinh.nen_lam_seq() == "Cưới hỏi, nhập học, ký kết, nhận chức, trồng cây"@,
        Truc::Chap.nen_lam_seq() == "Lập khế ước, giao dịch, động thổ san nền, cầu thầy chữa bệnh"@,
        Truc::Pha.nen_lam_seq() == "Phá dỡ nhà cũ, chữa răng, trị bệnh mãn tính"@,
        Truc::Nguy.nen_lam_seq() == "Tế tự, cầu phúc, an thần vị"@,
        Truc::Thanh.nen_lam_seq() == "Nhập học, khai trương, cưới hỏi, làm nhà, xuất hành"@,
        Truc::Thu.nen_lam_seq() == "Thu nợ, nhập kho, mua vào, cầu tài, đánh bắt"@,
        Truc::Khai.nen_lam_seq() == "Khai trương, nhập học, làm nhà, cưới hỏi, xuất hành"@,
        Truc::Be.nen_lam_seq() == "Xây đắp tường, đặt táng, gắn cửa, làm cầu, trị bệnh (trừ bệnh mắt)"@,
{
}

/// Việc không nên làm theo 12 Trực.
pub proof fn lemma_bang_khong_nen_lam_seq_truc()
    ensures
        Truc::Kien.khong_nen_lam_seq() == "Động thổ, đào giếng, mai táng"@,
        Truc::Tru.khong_nen_lam_seq() == "Xuất hành xa, cưới hỏi, khai trương"@,
        Truc::Man.khong_nen_lam_seq() == "Uống thuốc, chữa bệnh, mai táng"@,
        Truc::Binh.khong_nen_lam_seq() == "Đào giếng, khơi mương, động thổ"@,
        Truc::Dinh.khong_nen_lam_seq() == "Kiện tụng, xuất hành, chữa bệnh"@,
        Truc::Chap.khong_nen_lam_seq() == "Xuất hành xa, di dời, mở kho"@,
        Truc::Pha.khong_nen_lam_seq() == "Hầu hết mọi việc trọng đại — cưới hỏi, khai trương, làm nhà, ký kết"@,
        Truc::Nguy.khong_nen_lam_seq() == "Xuất hành, leo cao, đi thuyền, mạo hiểm"@,
        Truc::Thanh.khong_nen_lam_seq() == "Kiện tụng, tranh chấp"@,
        Truc::Thu.khong_nen_lam_seq() == "Xuất tiền, cho vay, an táng, khai trương"@,
        Truc::Khai.khong_nen_lam_seq() == "Mai táng, động thổ đào huyệt"@,
        Truc::Be.khong_nen_lam_seq() == "Nhận chức, nhập học, chữa bệnh mắt, chăn nuôi"@,
{
}

/// Tên tiếng Việt của các kiêng kỵ.
pub proof fn lemma_bang_name_seq_kiengky()
    ensures
        KiengKy::TamNuong.name_seq() == "Tam Nương"@,
        KiengKy::NguyetKy.name_seq() == "Nguyệt Kỵ"@,
        KiengKy::SatChu.name_seq() == "Sát Chủ"@,
{
}

/// Ý nghĩa của các kiêng kỵ.
pub proof fn lemma_bang_y_nghia_seq_kiengky()
    ensures
        KiengKy::TamNuong.y_nghia_seq() == "Trăm sự đều kỵ, chính kỵ xuất hành, cưới hỏi"@,
        KiengKy::NguyetKy.y_nghia_seq() == "Kỵ khởi sự, xuất hành, cưới hỏi, khai trương"@,
        KiengKy::SatChu.y_nghia_seq() == "Kỵ xây cất, cưới gả, động thổ, an táng"@,
{
}

} // verus!
