//! "Ngày tốt/xấu": ghép kết quả tự tính (nguồn chính) với diễn giải scrape
//! (nguồn phụ, có cache).
//!
//! Chính sách cache:
//! - bản ghi `ok` có payload đọc được: dùng luôn, không gọi mạng (nội dung một
//!   ngày là tĩnh nên cache vĩnh viễn);
//! - bản ghi lỗi còn mới (dưới [`ERROR_RETRY_AFTER_SECS`] giây): không thử lại,
//!   trả ghi chú kèm lỗi đã lưu;
//! - bản ghi lỗi đã cũ, bản ghi `ok` hỏng, hoặc chưa có bản ghi: scrape.
//!
//! Nguồn phụ không bao giờ làm hỏng nguồn chính: mọi hỏng hóc của phần diễn
//! giải chỉ thành `dien_giai = None` kèm `ghi_chu`.

use vstd::prelude::*;

use crate::canchi::{can_chi_display, spec_can_chi_display};
use crate::db::Licham365Cache;
use crate::scrape::Licham365Detail;
use crate::text::{decimal, pad2, push_int, push_pad2, push_str};
use crate::trach_nhat::types::{khung_seq, DayAssessment, HourRange, KiengKy};

verus! {

/// Sau bao nhiêu giây thì thử scrape lại một ngày từng lỗi.
pub const ERROR_RETRY_AFTER_SECS: i64 = 3600;

// ===========================================================================
// Thời điểm
// ===========================================================================

/// Mốc Unix (giây) của chuỗi thời điểm RFC 3339, nếu đọc được.
pub uninterp spec fn rfc3339_unix(s: Seq<char>) -> Option<i64>;

/// Mốc Unix (giây) của chuỗi thời điểm đọc theo định dạng `fmt` của chrono, nếu
/// đọc được.
pub uninterp spec fn format_unix(s: Seq<char>, fmt: Seq<char>) -> Option<i64>;

/// `chrono::DateTime::parse_from_rfc3339` rồi lấy mốc Unix (giây). Kết quả là
/// tên `rfc3339_unix` của đối số.
#[verifier::external_body]
fn parse_rfc3339(s: &str) -> (r: Option<i64>)
    ensures
        r == rfc3339_unix(s@),
{
    chrono::DateTime::parse_from_rfc3339(s).ok().map(|t| t.timestamp())
}

/// `chrono::DateTime::parse_from_str` với định dạng `fmt` rồi lấy mốc Unix
/// (giây). Kết quả là tên `format_unix` của các đối số.
#[verifier::external_body]
fn parse_with_format(s: &str, fmt: &str) -> (r: Option<i64>)
    ensures
        r == format_unix(s@, fmt@),
{
    chrono::DateTime::parse_from_str(s, fmt).ok().map(|t| t.timestamp())
}

/// Mốc Unix của thời điểm ghi cache: RFC 3339, nếu không được thì
/// `%Y-%m-%dT%H:%M:%SZ`.
pub open spec fn fetched_unix(s: Seq<char>) -> Option<i64> {
    match rfc3339_unix(s) {
        Some(t) => Some(t),
        None => format_unix(s, "%Y-%m-%dT%H:%M:%SZ"@),
    }
}

/// Bản ghi lỗi ghi lúc `fetched_at` đã đủ cũ để thử lại vào thời điểm `now_unix`
/// (giây Unix) chưa. Chuỗi thời điểm hỏng thì coi như cũ.
pub open spec fn spec_nen_thu_lai(fetched_at: Seq<char>, now_unix: int) -> bool {
    match fetched_unix(fetched_at) {
        None => true,
        Some(t) => now_unix - t >= ERROR_RETRY_AFTER_SECS,
    }
}

/// Bản ghi lỗi đã đủ cũ để thử lại chưa (thời điểm hiện tại `now_unix`, giây Unix).
pub fn nen_thu_lai(fetched_at: &str, now_unix: i64) -> (r: bool)
    ensures
        r == spec_nen_thu_lai(fetched_at@, now_unix as int),
{
    let t = match parse_rfc3339(fetched_at) {
        Some(t) => Some(t),
        None => parse_with_format(fetched_at, "%Y-%m-%dT%H:%M:%SZ"),
    };
    match t {
        None => true,
        Some(t) => (now_unix as i128) - (t as i128) >= ERROR_RETRY_AFTER_SECS as i128,
    }
}

// ===========================================================================
// Chính sách cache
// ===========================================================================

/// Nguồn của phần diễn giải.
#[derive(Debug, Clone, Copy, PartialEq, Eq, Structural, Hash)]
pub enum NguonDienGiai {
    /// Đọc từ cache, không gọi mạng.
    Cache,
    /// Vừa scrape trong request này.
    Scrape,
}

/// Việc cần làm sau khi đọc cache.
#[derive(Debug, Clone, PartialEq, Eq)]
pub enum QuyetDinhCache {
    /// Dùng payload trong cache.
    DungCache,
    /// Không thử lại; trả ghi chú này.
    BaoLoiCu(String),
    /// Gọi mạng scrape lại.
    Scrape,
}

/// Ghi chú khi bản ghi lỗi còn mới.
pub open spec fn msg_loi_cu(ly_do: Seq<char>) -> Seq<char> {
    "Không lấy được diễn giải chi tiết từ licham365.vn ("@ + ly_do
        + "). Đang hiển thị kết quả tính toán cơ bản. Sẽ tự thử lại sau ít phút."@
}

/// Ghi chú khi scrape thất bại.
pub open spec fn msg_loi_scrape(ly_do: Seq<char>) -> Seq<char> {
    "Không lấy được diễn giải chi tiết từ licham365.vn ("@ + ly_do
        + "). Đang hiển thị kết quả tính toán cơ bản."@
}

/// Quyết định theo bản ghi cache `ban_ghi` (`None` khi chưa có hoặc đọc cache
/// lỗi), với `payload_doc_duoc` cho biết payload của bản ghi `ok` có đọc ra được
/// diễn giải không, và `now_unix` là thời điểm hiện tại.
pub fn quyet_dinh_cache(ban_ghi: &Option<Licham365Cache>, payload_doc_duoc: bool, now_unix: i64) -> (r: QuyetDinhCache)
    ensures
        match ban_ghi {
            None => r == QuyetDinhCache::Scrape,
            Some(c) => if c.ok {
                if c.payload is Some && payload_doc_duoc {
                    r == QuyetDinhCache::DungCache
                } else {
                    r == QuyetDinhCache::Scrape
                }
            } else if !spec_nen_thu_lai(c.fetched_at@, now_unix as int) {
                r matches QuyetDinhCache::BaoLoiCu(m) && m@ == msg_loi_cu(
                    match c.error {
                        Some(e) => e@,
                        None => "không rõ"@,
                    },
                )
            } else {
                r == QuyetDinhCache::Scrape
            },
        },
{
    match ban_ghi {
        None => QuyetDinhCache::Scrape,
        Some(c) => {
            if c.ok {
                if c.payload.is_some() && payload_doc_duoc {
                    QuyetDinhCache::DungCache
                } else {
                    QuyetDinhCache::Scrape
                }
            } else if !nen_thu_lai(c.fetched_at.as_str(), now_unix) {
                let ly_do = match &c.error {
                    Some(e) => e.clone(),
                    None => String::from_str("không rõ"),
                };
                let mut s = String::from_str("Không lấy được diễn giải chi tiết từ licham365.vn (");
                push_str(&mut s, ly_do.as_str());
                push_str(
                    &mut s,
                    "). Đang hiển thị kết quả tính toán cơ bản. Sẽ tự thử lại sau ít phút.",
                );
                QuyetDinhCache::BaoLoiCu(s)
            } else {
                QuyetDinhCache::Scrape
            }
        },
    }
}

/// Phần diễn giải sau khi scrape: thành công thì dùng kết quả vừa lấy; thất bại
/// (với mô tả lỗi `Err(ly_do)`) thì không có diễn giải, kèm ghi chú.
pub fn ket_qua_scrape(r: Result<Licham365Detail, String>) -> (out: (
    Option<Licham365Detail>,
    Option<NguonDienGiai>,
    Option<String>,
))
    ensures
        match r {
            Ok(d) => out.0 == Some(d) && out.1 == Some(NguonDienGiai::Scrape) && out.2 is None,
            Err(e) => {
                &&& out.0 is None
                &&& out.1 is None
                &&& out.2 matches Some(m) && m@ == msg_loi_scrape(e@)
            },
        },
{
    match r {
        Ok(d) => (Some(d), Some(NguonDienGiai::Scrape), None),
        Err(e) => {
            let mut s = String::from_str("Không lấy được diễn giải chi tiết từ licham365.vn (");
            push_str(&mut s, e.as_str());
            push_str(&mut s, "). Đang hiển thị kết quả tính toán cơ bản.");
            (None, None, Some(s))
        },
    }
}

// ===========================================================================
// DTO
// ===========================================================================

/// Khung giờ, dạng thân thiện cho client.
#[derive(Debug, Clone, PartialEq, Eq)]
pub struct GioDto {
    pub chi: String,
    pub than: String,
    pub tot: bool,
    /// Ví dụ `"23:00–00:59"`.
    pub khung: String,
}

/// `g` là DTO của khung giờ `h`.
pub open spec fn gio_dto_is(g: GioDto, h: HourRange) -> bool {
    &&& g.chi@ == h.branch.name_seq()
    &&& g.than@ == h.than.name_seq()
    &&& g.tot == h.than.spec_is_hoang_dao()
    &&& g.khung@ == khung_seq(h.start_hour as int, h.end_hour as int)
}

impl GioDto {
    /// DTO của một khung giờ.
    pub fn from_hour(g: &HourRange) -> (r: GioDto)
        ensures
            gio_dto_is(r, *g),
    {
        let mut khung = String::new();
        push_pad2(&mut khung, g.start_hour as u64);
        push_str(&mut khung, ":00–");
        push_pad2(&mut khung, g.end_hour as u64);
        push_str(&mut khung, ":59");
        proof {
            assert(khung@ =~= khung_seq(g.start_hour as int, g.end_hour as int));
        }
        GioDto {
            chi: String::from_str(g.branch.name_vn()),
            than: String::from_str(g.than.name_vn()),
            tot: g.is_hoang_dao(),
            khung,
        }
    }
}

/// Một điều kiêng kỵ.
#[derive(Debug, Clone, PartialEq, Eq)]
pub struct KiengKyDto {
    pub ten: String,
    pub y_nghia: String,
}

/// Phần tự tính — luôn có mặt trong phản hồi.
#[derive(Debug, Clone, PartialEq, Eq)]
pub struct TuTinhDto {
    pub ngay_duong: String,
    pub ngay_am: String,
    pub thang_am_nhuan: bool,
    pub ngay_can_chi: String,
    pub thang_can_chi: String,
    pub nam_can_chi: String,
    pub tiet_khi: String,
    pub ngay_hoang_dao: bool,
    pub ket_luan_ngay: String,
    pub than_truc_ngay: String,
    pub y_nghia_than: String,
    pub truc: String,
    pub truc_nen_lam: String,
    pub truc_khong_nen_lam: String,
    pub gio_hoang_dao: Vec<GioDto>,
    pub gio_hac_dao: Vec<GioDto>,
    pub kieng_ky: Vec<KiengKyDto>,
}

/// Ngày âm dạng "ngày/tháng/năm", thêm " (nhuận)" cho tháng nhuận.
pub open spec fn ngay_am_seq(l: crate::lich::LunarDate) -> Seq<char> {
    decimal(l.day as int) + "/"@ + decimal(l.month as int) + "/"@ + decimal(l.year as int) + (if l.is_leap_month {
        " (nhuận)"@
    } else {
        ""@
    })
}

/// Chuỗi ngày âm dạng "ngày/tháng/năm", thêm " (nhuận)" cho tháng nhuận.
pub fn ngay_am_text(l: crate::lich::LunarDate) -> (r: String)
    ensures
        r@ == ngay_am_seq(l),
{
    let mut s = String::new();
    push_int(&mut s, l.day as i64);
    push_str(&mut s, "/");
    push_int(&mut s, l.month as i64);
    push_str(&mut s, "/");
    push_int(&mut s, l.year as i64);
    if l.is_leap_month {
        push_str(&mut s, " (nhuận)");
    } else {
        push_str(&mut s, "");
    }
    proof {
        assert(s@ =~= ngay_am_seq(l));
    }
    s
}

/// DTO các khung giờ.
fn gio_dtos(v: &Vec<HourRange>) -> (r: Vec<GioDto>)
    ensures
        r.len() == v.len(),
        forall|i: int| 0 <= i < v.len() ==> gio_dto_is(#[trigger] r@[i], v@[i]),
{
    let mut out: Vec<GioDto> = Vec::new();
    let mut i: usize = 0;
    while i < v.len()
        invariant
            i <= v.len(),
            out.len() == i,
            forall|j: int| 0 <= j < i ==> gio_dto_is(#[trigger] out@[j], v@[j]),
        decreases v.len() - i,
    {
        out.push(GioDto::from_hour(&v[i]));
        i = i + 1;
    }
    out
}

/// `d` là phần tự tính của đánh giá `a`.
pub open spec fn tu_tinh_is(d: TuTinhDto, a: DayAssessment) -> bool {
    &&& d.ngay_duong@ == a.solar_date.iso_seq()
    &&& d.ngay_am@ == ngay_am_seq(a.lunar_date)
    &&& d.thang_am_nhuan == a.lunar_date.is_leap_month
    &&& d.ngay_can_chi@ == spec_can_chi_display(a.day_can_chi)
    &&& d.thang_can_chi@ == spec_can_chi_display(a.month_can_chi)
    &&& d.nam_can_chi@ == spec_can_chi_display(a.year_can_chi)
    &&& d.tiet_khi@ == a.tiet_khi@
    &&& d.ngay_hoang_dao == a.hoang_dao_hac_dao.is_hoang_dao
    &&& d.ket_luan_ngay@ == (if a.hoang_dao_hac_dao.is_hoang_dao {
        "Hoàng Đạo"@
    } else {
        "Hắc Đạo"@
    })
    &&& d.than_truc_ngay@ == a.hoang_dao_hac_dao.than.name_seq()
    &&& d.y_nghia_than@ == a.hoang_dao_hac_dao.than.y_nghia_seq()
    &&& d.truc@ == a.truc.name_seq()
    &&& d.truc_nen_lam@ == a.truc.nen_lam_seq()
    &&& d.truc_khong_nen_lam@ == a.truc.khong_nen_lam_seq()
    &&& d.gio_hoang_dao.len() == a.gio_hoang_dao.len()
    &&& forall|i: int|
        0 <= i < a.gio_hoang_dao.len() ==> gio_dto_is(
            #[trigger] d.gio_hoang_dao@[i],
            a.gio_hoang_dao@[i],
        )
    &&& d.gio_hac_dao.len() == a.gio_hac_dao.len()
    &&& forall|i: int|
        0 <= i < a.gio_hac_dao.len() ==> gio_dto_is(#[trigger] d.gio_hac_dao@[i], a.gio_hac_dao@[i])
    &&& d.kieng_ky.len() == a.kieng_ky.len()
    &&& forall|i: int|
        0 <= i < a.kieng_ky.len() ==> (#[trigger] d.kieng_ky@[i]).ten@ == a.kieng_ky@[i].name_seq()
            && d.kieng_ky@[i].y_nghia@ == a.kieng_ky@[i].y_nghia_seq()
}

impl TuTinhDto {
    /// Phần tự tính của một đánh giá ngày.
    pub fn from_assessment(a: &DayAssessment) -> (r: TuTinhDto)
        ensures
            tu_tinh_is(r, *a),
    {
        let mut kieng_ky: Vec<KiengKyDto> = Vec::new();
        let mut i: usize = 0;
        while i < a.kieng_ky.len()
            invariant
                i <= a.kieng_ky.len(),
                kieng_ky.len() == i,
                forall|j: int|
                    0 <= j < i ==> (#[trigger] kieng_ky@[j]).ten@ == a.kieng_ky@[j].name_seq()
                        && kieng_ky@[j].y_nghia@ == a.kieng_ky@[j].y_nghia_seq(),
            decreases a.kieng_ky.len() - i,
        {
            let k: KiengKy = a.kieng_ky[i];
            kieng_ky.push(
                KiengKyDto {
                    ten: String::from_str(k.name_vn()),
                    y_nghia: String::from_str(k.y_nghia_vn()),
                },
            );
            i = i + 1;
        }
        TuTinhDto {
            ngay_duong: a.solar_date.to_iso_string(),
            ngay_am: ngay_am_text(a.lunar_date),
            thang_am_nhuan: a.lunar_date.is_leap_month,
            ngay_can_chi: can_chi_display(a.day_can_chi),
            thang_can_chi: can_chi_display(a.month_can_chi),
            nam_can_chi: can_chi_display(a.year_can_chi),
            tiet_khi: String::from_str(a.tiet_khi),
            ngay_hoang_dao: a.hoang_dao_hac_dao.is_hoang_dao,
            ket_luan_ngay: String::from_str(a.hoang_dao_hac_dao.nhan_vn()),
            than_truc_ngay: String::from_str(a.hoang_dao_hac_dao.than.name_vn()),
            y_nghia_than: String::from_str(a.hoang_dao_hac_dao.than.y_nghia_vn()),
            truc: String::from_str(a.truc.name_vn()),
            truc_nen_lam: String::from_str(a.truc.nen_lam_vn()),
            truc_khong_nen_lam: String::from_str(a.truc.khong_nen_lam_vn()),
            gio_hoang_dao: gio_dtos(&a.gio_hoang_dao),
            gio_hac_dao: gio_dtos(&a.gio_hac_dao),
            kieng_ky,
        }
    }
}

/// Kết quả của `GET /api/ngay-tot-xau`.
#[derive(Debug, Clone, PartialEq, Eq)]
pub struct NgayTotXauResponse {
    /// Phần tự tính — luôn có.
    pub tu_tinh: TuTinhDto,
    /// Phần diễn giải từ licham365.vn — `None` khi không lấy được.
    pub dien_giai: Option<Licham365Detail>,
    /// Diễn giải đến từ đâu (`None` khi không có diễn giải).
    pub nguon_dien_giai: Option<NguonDienGiai>,
    /// Giải thích cho người dùng khi không có diễn giải.
    pub ghi_chu: Option<String>,
}

/// Bản ghi lỗi được thử lại đúng khi đã qua ít nhất một giờ (3600 giây) kể từ
/// lúc ghi, hoặc khi không đọc được thời điểm ghi; thời điểm càng về sau thì
/// quyết định thử lại không đổi lại thành "chưa".
pub proof fn lemma_thu_lai_sau_mot_gio(fetched_at: Seq<char>, now_unix: int, sau: int)
    requires
        now_unix <= sau,
    ensures
        spec_nen_thu_lai(fetched_at, now_unix) <==> match fetched_unix(fetched_at) {
            None => true,
            Some(t) => now_unix >= t + 3600,
        },
        spec_nen_thu_lai(fetched_at, now_unix) ==> spec_nen_thu_lai(fetched_at, sau),
{
}

} // verus!
