//! Danh mục sao: tên, nhóm, slug mục từ điển.

use vstd::prelude::*;

verus! {

/// Các sao được an trên lá số.
#[derive(Debug, Clone, Copy, PartialEq, Eq, Structural, Hash)]
pub enum Sao {
    // 14 chính tinh
    /// Tử Vi.
    TuVi,
    /// Thiên Cơ.
    ThienCo,
    /// Thái Dương.
    ThaiDuong,
    /// Vũ Khúc.
    VuKhuc,
    /// Thiên Đồng.
    ThienDong,
    /// Liêm Trinh.
    LiemTrinh,
    /// Thiên Phủ.
    ThienPhu,
    /// Thái Âm.
    ThaiAm,
    /// Tham Lang.
    ThamLang,
    /// Cự Môn.
    CuMon,
    /// Thiên Tướng.
    ThienTuong,
    /// Thiên Lương.
    ThienLuong,
    /// Thất Sát.
    ThatSat,
    /// Phá Quân.
    PhaQuan,
    // 13 phụ tinh
    /// Tả Phù.
    TaPhu,
    /// Hữu Bật.
    HuuBat,
    /// Văn Xương.
    VanXuong,
    /// Văn Khúc.
    VanKhuc,
    /// Thiên Khôi.
    ThienKhoi,
    /// Thiên Việt.
    ThienViet,
    /// Lộc Tồn.
    LocTon,
    /// Kình Dương.
    KinhDuong,
    /// Đà La.
    DaLa,
    /// Hỏa Tinh.
    HoaTinh,
    /// Linh Tinh.
    LinhTinh,
    /// Thiên Mã.
    ThienMa,
    /// Đào Hoa.
    DaoHoa,
}

/// Nhóm sao.
#[derive(Debug, Clone, Copy, PartialEq, Eq, Structural, Hash)]
pub enum SaoCategory {
    /// Chính tinh.
    ChinhTinh,
    /// Phụ tinh.
    PhuTinh,
}

impl Sao {
    /// Vị trí của sao trong danh mục (0..13 là chính tinh, 14..26 là phụ tinh).
    pub open spec fn ord(self) -> int {
        match self {
            Sao::TuVi => 0,
            Sao::ThienCo => 1,
            Sao::ThaiDuong => 2,
            Sao::VuKhuc => 3,
            Sao::ThienDong => 4,
            Sao::LiemTrinh => 5,
            Sao::ThienPhu => 6,
            Sao::ThaiAm => 7,
            Sao::ThamLang => 8,
            Sao::CuMon => 9,
            Sao::ThienTuong => 10,
            Sao::ThienLuong => 11,
            Sao::ThatSat => 12,
            Sao::PhaQuan => 13,
            Sao::TaPhu => 14,
            Sao::HuuBat => 15,
            Sao::VanXuong => 16,
            Sao::VanKhuc => 17,
            Sao::ThienKhoi => 18,
            Sao::ThienViet => 19,
            Sao::LocTon => 20,
            Sao::KinhDuong => 21,
            Sao::DaLa => 22,
            Sao::HoaTinh => 23,
            Sao::LinhTinh => 24,
            Sao::ThienMa => 25,
            Sao::DaoHoa => 26,
        }
    }

    /// Thứ tự an của sao trên lá số: 14 chính tinh (chòm Tử Vi rồi chòm Thiên Phủ),
    /// rồi 13 phụ tinh.
    pub open spec fn placement_pos(self) -> int {
        match self {
            Sao::TuVi => 0,
            Sao::LiemTrinh => 1,
            Sao::ThienDong => 2,
            Sao::VuKhuc => 3,
            Sao::ThaiDuong => 4,
            Sao::ThienCo => 5,
            Sao::ThienPhu => 6,
            Sao::ThaiAm => 7,
            Sao::ThamLang => 8,
            Sao::CuMon => 9,
            Sao::ThienTuong => 10,
            Sao::ThienLuong => 11,
            Sao::ThatSat => 12,
            Sao::PhaQuan => 13,
            Sao::TaPhu => 14,
            Sao::HuuBat => 15,
            Sao::VanKhuc => 16,
            Sao::VanXuong => 17,
            Sao::ThienKhoi => 18,
            Sao::ThienViet => 19,
            Sao::LocTon => 20,
            Sao::DaLa => 21,
            Sao::KinhDuong => 22,
            Sao::HoaTinh => 23,
            Sao::LinhTinh => 24,
            Sao::ThienMa => 25,
            Sao::DaoHoa => 26,
        }
    }

    /// Chính tinh là đúng 14 sao được an trước.
    pub proof fn lemma_category_by_placement(self)
        ensures
            (self.spec_category() == SaoCategory::ChinhTinh) <==> self.placement_pos() < 14,
    {
    }

    /// Nhóm của sao theo vị trí trong danh mục.
    pub open spec fn spec_category(self) -> SaoCategory {
        if self.ord() < 14 {
            SaoCategory::ChinhTinh
        } else {
            SaoCategory::PhuTinh
        }
    }

    /// Tên tiếng Việt.
    pub open spec fn name_seq(self) -> Seq<char> {
        match self {
            Sao::TuVi => "Tử Vi"@,
            Sao::ThienCo => "Thiên Cơ"@,
            Sao::ThaiDuong => "Thái Dương"@,
            Sao::VuKhuc => "Vũ Khúc"@,
            Sao::ThienDong => "Thiên Đồng"@,
            Sao::LiemTrinh => "Liêm Trinh"@,
            Sao::ThienPhu => "Thiên Phủ"@,
            Sao::ThaiAm => "Thái Âm"@,
            Sao::ThamLang => "Tham Lang"@,
            Sao::CuMon => "Cự Môn"@,
            Sao::ThienTuong => "Thiên Tướng"@,
            Sao::ThienLuong => "Thiên Lương"@,
            Sao::ThatSat => "Thất Sát"@,
            Sao::PhaQuan => "Phá Quân"@,
            Sao::TaPhu => "Tả Phù"@,
            Sao::HuuBat => "Hữu Bật"@,
            Sao::VanXuong => "Văn Xương"@,
            Sao::VanKhuc => "Văn Khúc"@,
            Sao::ThienKhoi => "Thiên Khôi"@,
            Sao::ThienViet => "Thiên Việt"@,
            Sao::LocTon => "Lộc Tồn"@,
            Sao::KinhDuong => "Kình Dương"@,
            Sao::DaLa => "Đà La"@,
            Sao::HoaTinh => "Hỏa Tinh"@,
            Sao::LinhTinh => "Linh Tinh"@,
            Sao::ThienMa => "Thiên Mã"@,
            Sao::DaoHoa => "Đào Hoa"@,
        }
    }

    /// Slug của mục từ điển tương ứng.
    pub open spec fn slug_seq(self) -> Seq<char> {
        match self {
            Sao::TuVi => "sao-tu-vi"@,
            Sao::ThienCo => "sao-thien-co"@,
            Sao::ThaiDuong => "sao-thai-duong"@,
            Sao::VuKhuc => "sao-vu-khuc"@,
            Sao::ThienDong => "sao-thien-dong"@,
            Sao::LiemTrinh => "sao-liem-trinh"@,
            Sao::ThienPhu => "sao-thien-phu"@,
            Sao::ThaiAm => "sao-thai-am"@,
            Sao::ThamLang => "sao-tham-lang"@,
            Sao::CuMon => "sao-cu-mon"@,
            Sao::ThienTuong => "sao-thien-tuong"@,
            Sao::ThienLuong => "sao-thien-luong"@,
            Sao::ThatSat => "sao-that-sat"@,
            Sao::PhaQuan => "sao-pha-quan"@,
            Sao::TaPhu => "sao-ta-phu"@,
            Sao::HuuBat => "sao-huu-bat"@,
            Sao::VanXuong => "sao-van-xuong"@,
            Sao::VanKhuc => "sao-van-khuc"@,
            Sao::ThienKhoi => "sao-thien-khoi"@,
            Sao::ThienViet => "sao-thien-viet"@,
            Sao::LocTon => "sao-loc-ton"@,
            Sao::KinhDuong => "sao-kinh-duong"@,
            Sao::DaLa => "sao-da-la"@,
            Sao::HoaTinh => "sao-hoa-tinh"@,
            Sao::LinhTinh => "sao-linh-tinh"@,
            Sao::ThienMa => "sao-thien-ma"@,
            Sao::DaoHoa => "sao-dao-hoa"@,
        }
    }

    /// Nhóm sao: 14 chính tinh, còn lại là phụ tinh.
    pub fn category(self) -> (r: SaoCategory)
        ensures
            r == self.spec_category(),
    {
        match self {
            Sao::TuVi | Sao::ThienCo | Sao::ThaiDuong | Sao::VuKhuc | Sao::ThienDong
            | Sao::LiemTrinh | Sao::ThienPhu | Sao::ThaiAm | Sao::ThamLang | Sao::CuMon
            | Sao::ThienTuong | Sao::ThienLuong | Sao::ThatSat | Sao::PhaQuan => SaoCategory::ChinhTinh,
            _ => SaoCategory::PhuTinh,
        }
    }

    /// Tên tiếng Việt.
    pub fn name_vn(self) -> (r: &'static str)
        ensures
            r@ == self.name_seq(),
    {
        match self {
            Sao::TuVi => "Tử Vi",
            Sao::ThienCo => "Thiên Cơ",
            Sao::ThaiDuong => "Thái Dương",
            Sao::VuKhuc => "Vũ Khúc",
            Sao::ThienDong => "Thiên Đồng",
            Sao::LiemTrinh => "Liêm Trinh",
            Sao::ThienPhu => "Thiên Phủ",
            Sao::ThaiAm => "Thái Âm",
            Sao::ThamLang => "Tham Lang",
            Sao::CuMon => "Cự Môn",
            Sao::ThienTuong => "Thiên Tướng",
            Sao::ThienLuong => "Thiên Lương",
            Sao::ThatSat => "Thất Sát",
            Sao::PhaQuan => "Phá Quân",
            Sao::TaPhu => "Tả Phù",
            Sao::HuuBat => "Hữu Bật",
            Sao::VanXuong => "Văn Xương",
            Sao::VanKhuc => "Văn Khúc",
            Sao::ThienKhoi => "Thiên Khôi",
            Sao::ThienViet => "Thiên Việt",
            Sao::LocTon => "Lộc Tồn",
            Sao::KinhDuong => "Kình Dương",
            Sao::DaLa => "Đà La",
            Sao::HoaTinh => "Hỏa Tinh",
            Sao::LinhTinh => "Linh Tinh",
            Sao::ThienMa => "Thiên Mã",
            Sao::DaoHoa => "Đào Hoa",
        }
    }

    /// Slug mục từ điển của sao (khớp `slug` trong frontmatter).
    pub fn slug(self) -> (r: &'static str)
        ensures
            r@ == self.slug_seq(),
    {
        match self {
            Sao::TuVi => "sao-tu-vi",
            Sao::ThienCo => "sao-thien-co",
            Sao::ThaiDuong => "sao-thai-duong",
            Sao::VuKhuc => "sao-vu-khuc",
            Sao::ThienDong => "sao-thien-dong",
            Sao::LiemTrinh => "sao-liem-trinh",
            Sao::ThienPhu => "sao-thien-phu",
            Sao::ThaiAm => "sao-thai-am",
            Sao::ThamLang => "sao-tham-lang",
            Sao::CuMon => "sao-cu-mon",
            Sao::ThienTuong => "sao-thien-tuong",
            Sao::ThienLuong => "sao-thien-luong",
            Sao::ThatSat => "sao-that-sat",
            Sao::PhaQuan => "sao-pha-quan",
            Sao::TaPhu => "sao-ta-phu",
            Sao::HuuBat => "sao-huu-bat",
            Sao::VanXuong => "sao-van-xuong",
            Sao::VanKhuc => "sao-van-khuc",
            Sao::ThienKhoi => "sao-thien-khoi",
            Sao::ThienViet => "sao-thien-viet",
            Sao::LocTon => "sao-loc-ton",
            Sao::KinhDuong => "sao-kinh-duong",
            Sao::DaLa => "sao-da-la",
            Sao::HoaTinh => "sao-hoa-tinh",
            Sao::LinhTinh => "sao-linh-tinh",
            Sao::ThienMa => "sao-thien-ma",
            Sao::DaoHoa => "sao-dao-hoa",
        }
    }

    /// Danh sách đủ 27 sao theo thứ tự danh mục.
    pub fn all() -> (r: Vec<Sao>)
        ensures
            r.len() == 27,
            forall|i: int| 0 <= i < 27 ==> #[trigger] r@[i].ord() == i,
    {
        let r = vec![
            Sao::TuVi, Sao::ThienCo, Sao::ThaiDuong, Sao::VuKhuc, Sao::ThienDong, Sao::LiemTrinh, Sao::ThienPhu, Sao::ThaiAm, Sao::ThamLang, Sao::CuMon, Sao::ThienTuong, Sao::ThienLuong, Sao::ThatSat, Sao::PhaQuan, Sao::TaPhu, Sao::HuuBat, Sao::VanXuong, Sao::VanKhuc, Sao::ThienKhoi, Sao::ThienViet, Sao::LocTon, Sao::KinhDuong, Sao::DaLa, Sao::HoaTinh, Sao::LinhTinh, Sao::ThienMa, Sao::DaoHoa,
        ];
        r
    }
}

/// Tên tiếng Việt của 27 sao.
pub proof fn lemma_bang_name_seq_sao()
    ensures
        Sao::TuVi.name_seq() == "Tử Vi"@,
        Sao::ThienCo.name_seq() == "Thiên Cơ"@,
        Sao::ThaiDuong.name_seq() == "Thái Dương"@,
        Sao::VuKhuc.name_seq() == "Vũ Khúc"@,
        Sao::ThienDong.name_seq() == "Thiên Đồng"@,
        Sao::LiemTrinh.name_seq() == "Liêm Trinh"@,
        Sao::ThienPhu.name_seq() == "Thiên Phủ"@,
        Sao::ThaiAm.name_seq() == "Thái Âm"@,
        Sao::ThamLang.name_seq() == "Tham Lang"@,
        Sao::CuMon.name_seq() == "Cự Môn"@,
        Sao::ThienTuong.name_seq() == "Thiên Tướng"@,
        Sao::ThienLuong.name_seq() == "Thiên Lương"@,
        Sao::ThatSat.name_seq() == "Thất Sát"@,
        Sao::PhaQuan.name_seq() == "Phá Quân"@,
        Sao::TaPhu.name_seq() == "Tả Phù"@,
        Sao::HuuBat.name_seq() == "Hữu Bật"@,
        Sao::VanXuong.name_seq() == "Văn Xương"@,
        Sao::VanKhuc.name_seq() == "Văn Khúc"@,
        Sao::ThienKhoi.name_seq() == "Thiên Khôi"@,
        Sao::ThienViet.name_seq() == "Thiên Việt"@,
        Sao::LocTon.name_seq() == "Lộc Tồn"@,
        Sao::KinhDuong.name_seq() == "Kình Dương"@,
        Sao::DaLa.name_seq() == "Đà La"@,
        Sao::HoaTinh.name_seq() == "Hỏa Tinh"@,
        Sao::LinhTinh.name_seq() == "Linh Tinh"@,
        Sao::ThienMa.name_seq() == "Thiên Mã"@,
        Sao::DaoHoa.name_seq() == "Đào Hoa"@,
{
}

/// Mã (slug) của 27 sao, dùng làm khoá tra từ điển.
pub proof fn lemma_bang_slug_seq_sao()
    ensures
        Sao::TuVi.slug_seq() == "sao-tu-vi"@,
        Sao::ThienCo.slug_seq() == "sao-thien-co"@,
        Sao::ThaiDuong.slug_seq() == "sao-thai-duong"@,
        Sao::VuKhuc.slug_seq() == "sao-vu-khuc"@,
        Sao::ThienDong.slug_seq() == "sao-thien-dong"@,
        Sao::LiemTrinh.slug_seq() == "sao-liem-trinh"@,
        Sao::ThienPhu.slug_seq() == "sao-thien-phu"@,
        Sao::ThaiAm.slug_seq() == "sao-thai-am"@,
        Sao::ThamLang.slug_seq() == "sao-tham-lang"@,
        Sao::CuMon.slug_seq() == "sao-cu-mon"@,
        Sao::ThienTuong.slug_seq() == "sao-thien-tuong"@,
        Sao::ThienLuong.slug_seq() == "sao-thien-luong"@,
        Sao::ThatSat.slug_seq() == "sao-that-sat"@,
        Sao::PhaQuan.slug_seq() == "sao-pha-quan"@,
        Sao::TaPhu.slug_seq() == "sao-ta-phu"@,
        Sao::HuuBat.slug_seq() == "sao-huu-bat"@,
        Sao::VanXuong.slug_seq() == "sao-van-xuong"@,
        Sao::VanKhuc.slug_seq() == "sao-van-khuc"@,
        Sao::ThienKhoi.slug_seq() == "sao-thien-khoi"@,
        Sao::ThienViet.slug_seq() == "sao-thien-viet"@,
        Sao::LocTon.slug_seq() == "sao-loc-ton"@,
        Sao::KinhDuong.slug_seq() == "sao-kinh-duong"@,
        Sao::DaLa.slug_seq() == "sao-da-la"@,
        Sao::HoaTinh.slug_seq() == "sao-hoa-tinh"@,
        Sao::LinhTinh.slug_seq() == "sao-linh-tinh"@,
        Sao::ThienMa.slug_seq() == "sao-thien-ma"@,
        Sao::DaoHoa.slug_seq() == "sao-dao-hoa"@,
{
}

} // verus!
