//! Bản ghi của tầng lưu trữ (cache licham365, từ điển, hồ sơ) và chuẩn hoá chuỗi
//! tìm kiếm tiếng Việt.

use vstd::prelude::*;

use crate::strs::{
    find, find_range, join, join_ranges, starts_with_range, strip_prefix, to_chars, word_ranges,
    words, gon, lemma_join_gon, lemma_words_khong_khoang_trang,
};
use crate::text::push_str;

verus! {

/// Giá trị mặc định cho `DATABASE_URL` khi môi trường không đặt.
pub const DEFAULT_DATABASE_URL: &'static str = "sqlite:data/tinhban.db?mode=rwc";

/// Một bản ghi cache scrape licham365.vn.
#[derive(Debug, Clone, PartialEq, Eq)]
pub struct Licham365Cache {
    /// Ngày dương lịch 'YYYY-MM-DD'.
    pub solar_date: String,
    /// `true` nếu lần scrape đó thành công.
    pub ok: bool,
    /// JSON các mục diễn giải — chỉ có khi `ok`.
    pub payload: Option<String>,
    /// Mô tả lỗi — chỉ có khi không `ok`.
    pub error: Option<String>,
    /// URL đã gọi.
    pub source_url: String,
    /// Thời điểm scrape, ISO-8601 UTC.
    pub fetched_at: String,
}

/// Một mục từ điển.
#[derive(Debug, Clone, PartialEq, Eq)]
pub struct MucTuDien {
    pub slug: String,
    pub title: String,
    /// `chinh-tinh` | `phu-tinh` | `cung`.
    pub kind: String,
    pub nhom: String,
    pub nguhanh: String,
    pub amduong: String,
    pub aliases: String,
    /// Thân bài markdown (chưa render).
    pub body: String,
    pub ord: i64,
}

/// Một hồ sơ đã lưu, kèm lá số đã tính sẵn (dạng JSON).
#[derive(Debug, Clone, PartialEq, Eq)]
pub struct HoSo {
    pub id: i64,
    pub ten: String,
    /// 'YYYY-MM-DD'.
    pub solar_date: String,
    pub hour: u8,
    pub minute: u8,
    /// `nam` | `nu`.
    pub gender: String,
    pub ghi_chu: String,
    /// JSON của lá số Tử Vi.
    pub tuvi_json: String,
    /// JSON của lá số Bát Tự.
    pub bat_tu_json: String,
    /// Phiên bản engine đã sinh ra hai cột JSON trên.
    pub engine_ver: String,
    pub created_at: String,
    pub updated_at: String,
}

/// Dữ liệu để tạo hồ sơ mới.
#[derive(Debug, Clone)]
pub struct HoSoMoi<'a> {
    pub ten: &'a str,
    pub solar_date: &'a str,
    pub hour: u8,
    pub minute: u8,
    pub gender: &'a str,
    pub ghi_chu: &'a str,
    pub tuvi_json: &'a str,
    pub bat_tu_json: &'a str,
    pub engine_ver: &'a str,
}

// ===========================================================================
// Chuẩn hoá tiếng Việt cho tìm kiếm
// ===========================================================================

/// Ký tự đầu tiên của dạng chữ thường Unicode của `c` (`c.to_lowercase().next()`,
/// hoặc chính `c` nếu rỗng).
pub uninterp spec fn lowercase_first(c: char) -> char;

/// `c` là chữ hoặc số theo Unicode (`char::is_alphanumeric`).
pub uninterp spec fn unicode_alphanumeric(c: char) -> bool;

/// Ký tự ASCII.
pub open spec fn is_ascii_char(c: char) -> bool {
    (c as u32) < 128
}

/// Chữ thường ASCII của `c`.
pub open spec fn ascii_lower(c: char) -> char {
    if 'A' <= c <= 'Z' {
        ((c as u32) + 32) as char
    } else {
        c
    }
}

/// Chữ hoặc số ASCII.
pub open spec fn ascii_alphanumeric(c: char) -> bool {
    ('a' <= c <= 'z') || ('A' <= c <= 'Z') || ('0' <= c <= '9')
}

/// `char::to_lowercase` của std, lấy ký tự đầu. Với ký tự ASCII, kết quả là chữ
/// thường ASCII (tài liệu std); với ký tự khác, kết quả là tên `lowercase_first`.
#[verifier::external_body]
fn lowercase_of(c: char) -> (r: char)
    ensures
        r == lowercase_first(c),
        is_ascii_char(c) ==> r == ascii_lower(c),
{
    c.to_lowercase().next().unwrap_or(c)
}

/// `char::is_alphanumeric` của std. Với ký tự ASCII, đúng khi là chữ cái hoặc số
/// (tài liệu std); với ký tự khác, kết quả là tên `unicode_alphanumeric`.
#[verifier::external_body]
fn alphanumeric(c: char) -> (r: bool)
    ensures
        r == unicode_alphanumeric(c),
        is_ascii_char(c) ==> r == ascii_alphanumeric(c),
{
    c.is_alphanumeric()
}

/// Chữ cái gốc của nguyên âm có dấu hoặc `đ` (đã thường hoá); `None` nếu không
/// phải.
pub open spec fn base_letter(c: char) -> Option<char> {
    if c == 'à' || c == 'á' || c == 'ạ' || c == 'ả' || c == 'ã' || c == 'â' || c == 'ầ' || c
        == 'ấ' || c == 'ậ' || c == 'ẩ' || c == 'ẫ' || c == 'ă' || c == 'ằ' || c == 'ắ' || c
        == 'ặ' || c == 'ẳ' || c == 'ẵ' {
        Some('a')
    } else if c == 'è' || c == 'é' || c == 'ẹ' || c == 'ẻ' || c == 'ẽ' || c == 'ê' || c == 'ề'
        || c == 'ế' || c == 'ệ' || c == 'ể' || c == 'ễ' {
        Some('e')
    } else if c == 'ì' || c == 'í' || c == 'ị' || c == 'ỉ' || c == 'ĩ' {
        Some('i')
    } else if c == 'ò' || c == 'ó' || c == 'ọ' || c == 'ỏ' || c == 'õ' || c == 'ô' || c == 'ồ'
        || c == 'ố' || c == 'ộ' || c == 'ổ' || c == 'ỗ' || c == 'ơ' || c == 'ờ' || c == 'ớ' || c
        == 'ợ' || c == 'ở' || c == 'ỡ' {
        Some('o')
    } else if c == 'ù' || c == 'ú' || c == 'ụ' || c == 'ủ' || c == 'ũ' || c == 'ư' || c == 'ừ'
        || c == 'ứ' || c == 'ự' || c == 'ử' || c == 'ữ' {
        Some('u')
    } else if c == 'ỳ' || c == 'ý' || c == 'ỵ' || c == 'ỷ' || c == 'ỹ' {
        Some('y')
    } else if c == 'đ' {
        Some('d')
    } else {
        None
    }
}

/// Ký tự sau khi thường hoá và bỏ dấu; ký tự không phải chữ/số thành khoảng trắng.
pub open spec fn fold_char(c: char) -> char {
    let lower = lowercase_first(c);
    match base_letter(lower) {
        Some(b) => b,
        None => if unicode_alphanumeric(lower) {
            lower
        } else {
            ' '
        },
    }
}

/// Chuỗi tìm kiếm đã chuẩn hoá: thường hoá, bỏ dấu, ký tự lạ thành khoảng trắng,
/// rồi gộp khoảng trắng (các từ nối bằng đúng một dấu cách).
pub open spec fn spec_chuan_hoa(s: Seq<char>) -> Seq<char> {
    join(words(s.map_values(|c: char| fold_char(c))), " "@)
}

/// Chữ cái gốc của nguyên âm có dấu hoặc `đ`.
fn base_letter_of(c: char) -> (r: Option<char>)
    ensures
        r == base_letter(c),
{
    match c {
        'à' | 'á' | 'ạ' | 'ả' | 'ã' | 'â' | 'ầ' | 'ấ' | 'ậ' | 'ẩ' | 'ẫ' | 'ă' | 'ằ' | 'ắ' | 'ặ'
        | 'ẳ' | 'ẵ' => Some('a'),
        'è' | 'é' | 'ẹ' | 'ẻ' | 'ẽ' | 'ê' | 'ề' | 'ế' | 'ệ' | 'ể' | 'ễ' => Some('e'),
        'ì' | 'í' | 'ị' | 'ỉ' | 'ĩ' => Some('i'),
        'ò' | 'ó' | 'ọ' | 'ỏ' | 'õ' | 'ô' | 'ồ' | 'ố' | 'ộ' | 'ổ' | 'ỗ' | 'ơ' | 'ờ' | 'ớ' | 'ợ'
        | 'ở' | 'ỡ' => Some('o'),
        'ù' | 'ú' | 'ụ' | 'ủ' | 'ũ' | 'ư' | 'ừ' | 'ứ' | 'ự' | 'ử' | 'ữ' => Some('u'),
        'ỳ' | 'ý' | 'ỵ' | 'ỷ' | 'ỹ' => Some('y'),
        'đ' => Some('d'),
        _ => None,
    }
}

/// Bỏ dấu tiếng Việt và thường hoá để tìm kiếm không dấu (`đ` → `d`), ký tự
/// không phải chữ/số thành khoảng trắng, khoảng trắng thừa được gộp.
pub fn chuan_hoa_tim_kiem(s: &str) -> (r: String)
    ensures
        r@ == spec_chuan_hoa(s@),
{
    let v = to_chars(s);
    let mut m: Vec<char> = Vec::new();
    let mut i: usize = 0;
    while i < v.len()
        invariant
            i <= v.len(),
            v@ == s@,
            m@ == s@.subrange(0, i as int).map_values(|c: char| fold_char(c)),
        decreases v.len() - i,
    {
        let lower = lowercase_of(v[i]);
        let mapped = match base_letter_of(lower) {
            Some(b) => b,
            None => if alphanumeric(lower) {
                lower
            } else {
                ' '
            },
        };
        m.push(mapped);
        proof {
            assert(s@.subrange(0, i + 1).map_values(|c: char| fold_char(c)) =~= s@.subrange(
                0,
                i as int,
            ).map_values(|c: char| fold_char(c)).push(fold_char(s@[i as int])));
        }
        i = i + 1;
    }
    proof {
        assert(s@.subrange(0, v.len() as int) =~= s@);
        assert(m@.subrange(0, m.len() as int) =~= m@);
    }
    let rs = word_ranges(&m, 0, m.len());
    let r = join_ranges(&m, &rs, " ");
    proof {
        let ws = words(m@.subrange(0, m.len() as int));
        assert(rs@.map_values(|p: (usize, usize)| m@.subrange(p.0 as int, p.1 as int)) =~= ws);
    }
    r
}

/// Biểu thức FTS5 của truy vấn `q`: mỗi từ của chuỗi đã chuẩn hoá thành một
/// tiền tố (`tu*`), nối bằng ` AND `.
pub open spec fn spec_bieu_thuc_fts(q: Seq<char>) -> Seq<char> {
    join(words(spec_chuan_hoa(q)).map_values(|w: Seq<char>| w + "*"@), " AND "@)
}

/// Biểu thức tìm kiếm FTS5 cho `q`; `None` khi chuỗi chuẩn hoá rỗng (không có
/// gì để tìm).
pub fn bieu_thuc_fts(q: &str) -> (r: Option<String>)
    ensures
        spec_chuan_hoa(q@).len() == 0 ==> r is None,
        spec_chuan_hoa(q@).len() > 0 ==> (r matches Some(e) && e@ == spec_bieu_thuc_fts(q@)),
{
    let norm = chuan_hoa_tim_kiem(q);
    if norm.as_str().unicode_len() == 0 {
        return None;
    }
    let v = to_chars(norm.as_str());
    let rs = word_ranges(&v, 0, v.len());
    let ghost parts = rs@.map_values(|p: (usize, usize)| v@.subrange(p.0 as int, p.1 as int));
    proof {
        assert(v@.subrange(0, v.len() as int) =~= v@);
        assert(parts =~= words(v@));
    }
    let mut s = String::new();
    let mut i: usize = 0;
    while i < rs.len()
        invariant
            i <= rs.len(),
            forall|j: int| 0 <= j < rs.len() ==> (#[trigger] rs@[j]).0 <= rs@[j].1 <= v.len(),
            parts == rs@.map_values(|p: (usize, usize)| v@.subrange(p.0 as int, p.1 as int)),
            s@ == join(
                parts.map_values(|w: Seq<char>| w + "*"@).subrange(0, i as int),
                " AND "@,
            ),
        decreases rs.len() - i,
    {
        let ghost stars = parts.map_values(|w: Seq<char>| w + "*"@);
        proof {
            assert(stars.subrange(0, i as int + 1).drop_last() =~= stars.subrange(0, i as int));
        }
        if i > 0 {
            push_str(&mut s, " AND ");
        }
        let (a, b) = rs[i];
        let piece = crate::strs::string_of(&v, a, b);
        push_str(&mut s, piece.as_str());
        push_str(&mut s, "*");
        proof {
            if i == 0 {
                assert(s@ =~= stars.subrange(0, 1)[0]);
            } else {
                assert(s@ =~= join(stars.subrange(0, i as int), " AND "@) + " AND "@ + stars[i as int]);
            }
        }
        i = i + 1;
    }
    proof {
        assert(parts.map_values(|w: Seq<char>| w + "*"@).subrange(0, rs.len() as int)
            =~= parts.map_values(|w: Seq<char>| w + "*"@));
    }
    Some(s)
}

// ===========================================================================
// Đường dẫn tệp cơ sở dữ liệu
// ===========================================================================

/// Đường dẫn tệp trong URL SQLite `url`: phần sau `sqlite:` và trước dấu `?` đầu
/// tiên; không có khi URL không bắt đầu bằng `sqlite:`, phần đó rỗng, hoặc là
/// cơ sở dữ liệu trong bộ nhớ (`:memory:`).
pub open spec fn spec_tep_csdl(url: Seq<char>) -> Option<Seq<char>> {
    match strip_prefix(url, "sqlite:"@) {
        None => None,
        Some(rest) => {
            let f = match find(rest, "?"@) {
                Some(k) => rest.subrange(0, k),
                None => rest,
            };
            if f.len() == 0 || f == ":memory:"@ {
                None
            } else {
                Some(f)
            }
        },
    }
}

/// Đường dẫn tệp của URL SQLite, để tạo trước thư mục cha khi cần.
pub fn tep_csdl(url: &str) -> (r: Option<String>)
    ensures
        match spec_tep_csdl(url@) {
            None => r is None,
            Some(f) => r matches Some(x) && x@ == f,
        },
{
    let v = to_chars(url);
    let n = v.len();
    let p = to_chars("sqlite:");
    proof {
        assert(v@.subrange(0, n as int) =~= v@);
    }
    if !starts_with_range(&v, 0, n, &p) {
        return None;
    }
    let a = p.len();
    let q = to_chars("?");
    let b = match find_range(&v, a, n, &q) {
        Some(k) => {
            proof {
                crate::strs::lemma_find_from(v@.subrange(a as int, n as int), q@, 0);
            }
            k
        },
        None => n,
    };
    proof {
        assert(v@.subrange(a as int, n as int).subrange(0, b - a) =~= v@.subrange(a as int, b as int));
    }
    if b == a {
        return None;
    }
    let f = crate::strs::string_of(&v, a, b);
    let mem = String::from_str(":memory:");
    if f == mem {
        return None;
    }
    Some(f)
}

/// Chuỗi tìm kiếm đã chuẩn hoá luôn gọn: không có khoảng trắng ở hai đầu,
/// khoảng trắng duy nhất là dấu cách và không có hai dấu cách liền nhau.
pub proof fn lemma_chuan_hoa_gon(s: Seq<char>)
    ensures
        gon(spec_chuan_hoa(s)),
{
    let m = s.map_values(|c: char| fold_char(c));
    lemma_words_khong_khoang_trang(m);
    lemma_join_gon(words(m));
}

} // verus!
