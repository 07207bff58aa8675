//! Bóc phần diễn giải ngày tốt/xấu từ trang licham365.vn.
//!
//! Mỗi mục diễn giải là một khối khớp [`SECTION_BLOCK_SELECTOR`], tiêu đề là phần
//! tử đầu tiên khớp [`SECTION_TITLE_SELECTOR`] bên trong khối. Phân tích HTML và
//! chọn phần tử do crate `scraper` làm; thư viện nhận văn bản của các khối và tự
//! dựng các mục, đoạn tóm tắt, lỗi.

use vstd::prelude::*;

use crate::lich::SolarDate;
use crate::strs::{
    find, find_range, join, join_ranges, join_strings, line_ranges, lines, split_once,
    starts_with, starts_with_range, string_of, string_of_all, strip_prefix, to_chars, trim,
    trim_end_chars, trim_range, trim_start, trim_start_range,
};
use crate::text::{decimal, push_char, push_int, push_str};

verus! {

/// Selector CSS của một khối mục diễn giải.
pub const SECTION_BLOCK_SELECTOR: &'static str = "div.c-de";

/// Selector CSS của tiêu đề mục, tìm bên trong mỗi khối.
pub const SECTION_TITLE_SELECTOR: &'static str = "h3";

/// Số mục tối thiểu để coi là trang hợp lệ.
pub const MIN_SECTIONS: usize = 4;

/// User-Agent gửi kèm request: nêu rõ tên app, không giả trình duyệt.
pub const USER_AGENT: &'static str = "TinhBan/0.1.0 (+https://github.com/QinZinn/TinhBan; self-hosted personal almanac)";

/// Thời gian chờ tối đa của một request, tính bằng giây.
pub const REQUEST_TIMEOUT_SECS: u64 = 10;

/// Gốc URL mặc định của licham365.vn.
pub const DEFAULT_BASE_URL: &'static str = "https://licham365.vn";

/// Một mục diễn giải.
#[derive(Debug, Clone, PartialEq, Eq)]
pub struct Section {
    pub title: String,
    pub body: String,
}

/// Phần diễn giải của một ngày.
#[derive(Debug, Clone, PartialEq, Eq)]
pub struct Licham365Detail {
    pub source_url: String,
    pub sections: Vec<Section>,
    /// Đoạn tóm tắt "Chi tiết ngày tốt xấu, …" nếu bóc được.
    pub tom_tat: Option<String>,
}

/// Lỗi gọi mạng của `reqwest`.
#[verifier::external_type_specification]
#[verifier::external_body]
pub struct ExReqwestError(reqwest::Error);

/// Lỗi khi lấy hoặc bóc trang.
#[derive(Debug)]
pub enum ScrapeError {
    /// Lỗi mạng (timeout, không kết nối được, …).
    Request(reqwest::Error),
    /// Trang trả mã HTTP không thành công.
    Status(u16),
    /// Không khối nào khớp selector: nhiều khả năng trang đã đổi cấu trúc.
    NoSections,
    /// Bóc được quá ít mục.
    TooFewSections(usize),
}

/// `reqwest::Error::is_timeout`.
#[verifier::external_body]
fn request_is_timeout(e: &reqwest::Error) -> bool {
    e.is_timeout()
}

/// `reqwest::Error::is_connect`.
#[verifier::external_body]
fn request_is_connect(e: &reqwest::Error) -> bool {
    e.is_connect()
}

/// Chuỗi hiển thị (`Display`) của `reqwest::Error`.
#[verifier::external_body]
fn request_text(e: &reqwest::Error) -> String {
    format!("{e}")
}

/// Thông điệp của lỗi không có mục nào.
pub open spec fn msg_no_sections() -> Seq<char> {
    "không tìm thấy khối nội dung nào khớp selector \"div.c-de\" — nhiều khả năng licham365.vn đã đổi cấu trúc HTML, cần cập nhật SECTION_BLOCK_SELECTOR trong scrape/licham365.rs"@
}

/// Thông điệp của lỗi quá ít mục.
pub open spec fn msg_too_few(n: int) -> Seq<char> {
    "chỉ bóc được "@ + decimal(n) + " mục (kỳ vọng ít nhất 4) — cấu trúc HTML của licham365.vn có thể đã đổi một phần, hoặc trang trả về bản rút gọn"@
}

impl ScrapeError {
    /// Chuỗi hiển thị của lỗi (thay cho `Display`). Với lỗi mạng, thông điệp ghép
    /// từ loại lỗi và chuỗi hiển thị của `reqwest`.
    pub fn to_string(&self) -> (r: String)
        ensures
            self matches ScrapeError::Status(c) ==> r@ == "licham365.vn trả HTTP "@ + decimal(c as int),
            self matches ScrapeError::NoSections ==> r@ == msg_no_sections(),
            self matches ScrapeError::TooFewSections(n) ==> r@ == msg_too_few(n as int),
            self is Request ==> starts_with(r@, "quá thời gian chờ khi gọi licham365.vn ("@)
                || starts_with(r@, "không kết nối được tới licham365.vn ("@) || starts_with(
                r@,
                "lỗi mạng khi gọi licham365.vn: "@,
            ),
    {
        match self {
            ScrapeError::Request(e) => {
                let t = request_text(e);
                if request_is_timeout(e) {
                    let mut s = String::from_str("quá thời gian chờ khi gọi licham365.vn (");
                    let ghost p = s@;
                    push_str(&mut s, t.as_str());
                    push_str(&mut s, ")");
                    assert(s@.subrange(0, p.len() as int) =~= p);
                    s
                } else if request_is_connect(e) {
                    let mut s = String::from_str("không kết nối được tới licham365.vn (");
                    let ghost p = s@;
                    push_str(&mut s, t.as_str());
                    push_str(&mut s, ")");
                    assert(s@.subrange(0, p.len() as int) =~= p);
                    s
                } else {
                    let mut s = String::from_str("lỗi mạng khi gọi licham365.vn: ");
                    let ghost p = s@;
                    push_str(&mut s, t.as_str());
                    assert(s@.subrange(0, p.len() as int) =~= p);
                    s
                }
            },
            ScrapeError::Status(c) => {
                let mut s = String::from_str("licham365.vn trả HTTP ");
                push_int(&mut s, *c as i64);
                s
            },
            ScrapeError::NoSections => String::from_str(
                "không tìm thấy khối nội dung nào khớp selector \"div.c-de\" — nhiều khả năng licham365.vn đã đổi cấu trúc HTML, cần cập nhật SECTION_BLOCK_SELECTOR trong scrape/licham365.rs",
            ),
            ScrapeError::TooFewSections(n) => {
                let mut s = String::from_str("chỉ bóc được ");
                crate::text::push_digits(&mut s, *n as u64);
                push_str(
                    &mut s,
                    " mục (kỳ vọng ít nhất 4) — cấu trúc HTML của licham365.vn có thể đã đổi một phần, hoặc trang trả về bản rút gọn",
                );
                s
            },
        }
    }
}

// ===========================================================================
// URL
// ===========================================================================

/// URL trang của ngày `date` dưới gốc `base` (bỏ các `/` cuối của gốc), ngày và
/// tháng không có số 0 đứng đầu.
pub open spec fn spec_build_url(base: Seq<char>, date: SolarDate) -> Seq<char> {
    trim_end_chars(base, seq!['/']) + "/lich-am-ngay-"@ + decimal(date.day as int) + "-thang-"@
        + decimal(date.month as int) + "-nam-"@ + decimal(date.year as int)
}

/// URL trang licham365 của một ngày.
pub fn build_url(base: &str, date: SolarDate) -> (r: String)
    ensures
        r@ == spec_build_url(base@, date),
{
    let v = to_chars(base);
    let mut j = v.len();
    proof {
        assert(v@.subrange(0, j as int) =~= base@);
    }
    while j > 0 && v[j - 1] == '/'
        invariant
            j <= v.len(),
            v@ == base@,
            trim_end_chars(base@, seq!['/']) == trim_end_chars(v@.subrange(0, j as int), seq!['/']),
        decreases j,
    {
        proof {
            assert(v@.subrange(0, j as int).drop_last() =~= v@.subrange(0, j - 1));
            assert(seq!['/'][0] == '/');
        }
        j = j - 1;
    }
    proof {
        let w = v@.subrange(0, j as int);
        if w.len() > 0 {
            assert(!seq!['/'].contains(w.last())) by {
                if seq!['/'].contains(w.last()) {
                    let k = choose|k: int| 0 <= k < 1 && seq!['/'][k] == w.last();
                }
            }
        }
    }
    let mut s = string_of(&v, 0, j);
    push_str(&mut s, "/lich-am-ngay-");
    push_int(&mut s, date.day as i64);
    push_str(&mut s, "-thang-");
    push_int(&mut s, date.month as i64);
    push_str(&mut s, "-nam-");
    push_int(&mut s, date.year as i64);
    s
}

// ===========================================================================
// Văn bản của phần tử
// ===========================================================================

/// Các dòng đã cắt khoảng trắng, bỏ dòng rỗng.
pub open spec fn nonempty_trimmed(ls: Seq<Seq<char>>) -> Seq<Seq<char>>
    decreases ls.len(),
{
    if ls.len() == 0 {
        Seq::empty()
    } else if trim(ls.last()).len() == 0 {
        nonempty_trimmed(ls.drop_last())
    } else {
        nonempty_trimmed(ls.drop_last()).push(trim(ls.last()))
    }
}

/// Văn bản của phần tử từ các đoạn text của nó: nối bằng xuống dòng, tách dòng,
/// cắt khoảng trắng từng dòng, bỏ dòng rỗng, nối lại bằng xuống dòng.
pub open spec fn spec_text_of(parts: Seq<Seq<char>>) -> Seq<char> {
    join(nonempty_trimmed(lines(join(parts, "\n"@))), "\n"@)
}

/// Các chuỗi nhìn như dãy ký tự.
pub open spec fn strings_view(v: Seq<String>) -> Seq<Seq<char>> {
    v.map_values(|s: String| s@)
}

/// Văn bản gọn của một phần tử từ các đoạn text của nó.
pub fn text_of(parts: &Vec<String>) -> (r: String)
    ensures
        r@ == spec_text_of(strings_view(parts@)),
{
    let raw = join_strings(parts, "\n");
    let v = to_chars(raw.as_str());
    let ls = line_ranges(&v, 0, v.len());
    let ghost lsv = lines(v@.subrange(0, v.len() as int));
    let mut kept: Vec<(usize, usize)> = Vec::new();
    let mut i: usize = 0;
    while i < ls.len()
        invariant
            i <= ls.len(),
            ls.len() == lsv.len(),
            forall|j: int|
                0 <= j < ls.len() ==> {
                    let (x, y) = #[trigger] ls@[j];
                    &&& x <= y <= v.len()
                    &&& v@.subrange(x as int, y as int) == lsv[j]
                },
            forall|j: int| 0 <= j < kept.len() ==> (#[trigger] kept@[j]).0 <= kept@[j].1 <= v.len(),
            kept@.map_values(|p: (usize, usize)| v@.subrange(p.0 as int, p.1 as int))
                == nonempty_trimmed(lsv.subrange(0, i as int)),
        decreases ls.len() - i,
    {
        let (x, y) = ls[i];
        let (a, b) = trim_range(&v, x, y);
        proof {
            assert(lsv.subrange(0, i as int + 1).drop_last() =~= lsv.subrange(0, i as int));
            assert(lsv.subrange(0, i as int + 1).last() == lsv[i as int]);
        }
        if a < b {
            kept.push((a, b));
            proof {
                assert(kept@.map_values(|p: (usize, usize)| v@.subrange(p.0 as int, p.1 as int))
                    =~= nonempty_trimmed(lsv.subrange(0, i as int)).push(trim(lsv[i as int])));
            }
        }
        i = i + 1;
    }
    proof {
        assert(lsv.subrange(0, ls.len() as int) =~= lsv);
        assert(v@.subrange(0, v.len() as int) =~= v@);
    }
    join_ranges(&v, &kept, "\n")
}

// ===========================================================================
// Khối HTML
// ===========================================================================

/// Văn bản của một khối: các đoạn text của tiêu đề (phần tử đầu tiên khớp
/// selector tiêu đề trong khối, nếu có) và các đoạn text của cả khối.
pub struct KhoiVanBan {
    pub tieu_de: Option<Vec<String>>,
    pub toan_bo: Vec<String>,
}

/// Khối nhìn như dãy ký tự.
pub open spec fn khoi_view(k: KhoiVanBan) -> (Option<Seq<Seq<char>>>, Seq<Seq<char>>) {
    (
        match k.tieu_de {
            Some(t) => Some(strings_view(t@)),
            None => None,
        },
        strings_view(k.toan_bo@),
    )
}

/// Văn bản các khối khớp `block_sel` của tài liệu HTML `html`, theo thứ tự tài
/// liệu; `None` nếu một trong hai selector không hợp lệ.
pub uninterp spec fn html_blocks(html: Seq<char>, block_sel: Seq<char>, title_sel: Seq<char>) -> Option<
    Seq<(Option<Seq<Seq<char>>>, Seq<Seq<char>>)>,
>;

/// Toàn bộ văn bản (nối liền các nút text) của tài liệu HTML `html`.
pub uninterp spec fn html_text(html: Seq<char>) -> Seq<char>;

/// Phân tích `html` bằng `scraper::Html::parse_document`, chọn các khối bằng
/// `scraper::Selector` và lấy các đoạn `text()` của tiêu đề và của cả khối. Kết
/// quả là tên `html_blocks` của các đối số.
#[verifier::external_body]
fn scraper_blocks(html: &str, block_sel: &str, title_sel: &str) -> (r: Option<Vec<KhoiVanBan>>)
    ensures
        match html_blocks(html@, block_sel@, title_sel@) {
            None => r is None,
            Some(bs) => r matches Some(v) && v@.map_values(|k: KhoiVanBan| khoi_view(k)) == bs,
        },
{
    let doc = scraper::Html::parse_document(html);
    let (Ok(b), Ok(t)) = (scraper::Selector::parse(block_sel), scraper::Selector::parse(title_sel)) else {
        return None;
    };
    Some(doc.select(&b).map(|e| KhoiVanBan {
        tieu_de: e.select(&t).next().map(|h| h.text().map(String::from).collect()),
        toan_bo: e.text().map(String::from).collect(),
    }).collect())
}

/// Văn bản toàn tài liệu: `root_element().text()` của `scraper`, nối liền. Kết
/// quả là tên `html_text` của đối số.
#[verifier::external_body]
fn scraper_text(html: &str) -> (r: String)
    ensures
        r@ == html_text(html@),
{
    scraper::Html::parse_document(html).root_element().text().collect::<String>()
}

/// Mục (tiêu đề, thân) của một khối: tiêu đề là văn bản của phần tử tiêu đề (rỗng
/// nếu không có); thân là văn bản cả khối bỏ tiêu đề ở đầu (nếu có) rồi bỏ khoảng
/// trắng đầu. `None` nếu tiêu đề hoặc thân rỗng.
pub open spec fn section_of(b: (Option<Seq<Seq<char>>>, Seq<Seq<char>>)) -> Option<(Seq<char>, Seq<char>)> {
    let title = match b.0 {
        Some(t) => spec_text_of(t),
        None => Seq::empty(),
    };
    let full = spec_text_of(b.1);
    let body = trim_start(
        match strip_prefix(full, title) {
            Some(rest) => rest,
            None => full,
        },
    );
    if title.len() == 0 || body.len() == 0 {
        None
    } else {
        Some((title, body))
    }
}

/// Các mục của danh sách khối, giữ thứ tự, bỏ khối không thành mục.
pub open spec fn spec_sections(bs: Seq<(Option<Seq<Seq<char>>>, Seq<Seq<char>>)>) -> Seq<(Seq<char>, Seq<char>)>
    decreases bs.len(),
{
    if bs.len() == 0 {
        Seq::empty()
    } else {
        match section_of(bs.last()) {
            Some(s) => spec_sections(bs.drop_last()).push(s),
            None => spec_sections(bs.drop_last()),
        }
    }
}

/// Mục nhìn như cặp dãy ký tự.
pub open spec fn section_view(s: Section) -> (Seq<char>, Seq<char>) {
    (s.title@, s.body@)
}

/// Số byte UTF-8 của ký tự.
pub open spec fn utf8_width(c: char) -> int {
    let u = c as u32;
    if u < 0x80 {
        1
    } else if u < 0x800 {
        2
    } else if u < 0x10000 {
        3
    } else {
        4
    }
}

/// Số byte UTF-8 của dãy ký tự (`str::len`).
pub open spec fn utf8_len(s: Seq<char>) -> int
    decreases s.len(),
{
    if s.len() == 0 {
        0
    } else {
        utf8_len(s.drop_last()) + utf8_width(s.last())
    }
}

/// Số byte UTF-8 của `v[lo..hi]` có nhỏ hơn `limit` không.
fn utf8_len_below(v: &Vec<char>, lo: usize, hi: usize, limit: u64) -> (r: bool)
    requires
        lo <= hi <= v.len(),
        limit < 1_000_000,
    ensures
        r == (utf8_len(v@.subrange(lo as int, hi as int)) < limit),
{
    if limit == 0 {
        proof {
            lemma_utf8_len_nonneg(v@.subrange(lo as int, hi as int));
        }
        return false;
    }
    let mut total: u64 = 0;
    let mut i = lo;
    proof {
        assert(v@.subrange(lo as int, lo as int) =~= Seq::<char>::empty());
    }
    while i < hi
        invariant
            lo <= i <= hi <= v.len(),
            limit < 1_000_000,
            total == utf8_len(v@.subrange(lo as int, i as int)),
            total < limit,
        decreases hi - i,
    {
        let u = v[i] as u32;
        let w: u64 = if u < 0x80 {
            1
        } else if u < 0x800 {
            2
        } else if u < 0x10000 {
            3
        } else {
            4
        };
        proof {
            assert(v@.subrange(lo as int, i + 1).drop_last() =~= v@.subrange(lo as int, i as int));
        }
        total = total + w;
        i = i + 1;
        if total >= limit {
            proof {
                lemma_utf8_len_mono(v@.subrange(lo as int, hi as int), (i - lo) as int);
                assert(v@.subrange(lo as int, hi as int).subrange(0, (i - lo) as int) =~= v@.subrange(
                    lo as int,
                    i as int,
                ));
            }
            return false;
        }
    }
    true
}

/// Độ dài UTF-8 không âm.
proof fn lemma_utf8_len_nonneg(s: Seq<char>)
    ensures
        utf8_len(s) >= 0,
    decreases s.len(),
{
    if s.len() > 0 {
        lemma_utf8_len_nonneg(s.drop_last());
    }
}

/// Độ dài UTF-8 của một tiền tố không vượt của cả dãy.
proof fn lemma_utf8_len_mono(s: Seq<char>, k: int)
    requires
        0 <= k <= s.len(),
    ensures
        utf8_len(s.subrange(0, k)) <= utf8_len(s),
    decreases s.len() - k,
{
    if k < s.len() {
        lemma_utf8_len_mono(s, k + 1);
        assert(s.subrange(0, k + 1).drop_last() =~= s.subrange(0, k));
    } else {
        assert(s.subrange(0, k) =~= s);
    }
}

/// Tiền tố của đoạn tóm tắt.
pub open spec fn tom_tat_prefix() -> Seq<char> {
    "Chi tiết ngày tốt xấu,"@
}

/// Đoạn tóm tắt: câu ngay sau "Chi tiết ngày tốt xấu," (tới dấu chấm đầu tiên),
/// đã cắt khoảng trắng, không rỗng và dưới 400 byte UTF-8.
pub open spec fn spec_tom_tat(text: Seq<char>) -> Option<Seq<char>> {
    match find(text, tom_tat_prefix()) {
        None => None,
        Some(k) => {
            let rest = text.subrange(k + tom_tat_prefix().len(), text.len() as int);
            match split_once(rest, '.') {
                None => None,
                Some((s0, _)) => {
                    let s = trim(s0);
                    if s.len() > 0 && utf8_len(s) < 400 {
                        Some("Chi tiết ngày tốt xấu, "@ + s + "."@)
                    } else {
                        None
                    }
                },
            }
        },
    }
}

/// Mục của một khối.
fn section_of_block(k: &KhoiVanBan) -> (r: Option<Section>)
    ensures
        match section_of(khoi_view(*k)) {
            None => r is None,
            Some(s) => r matches Some(x) && section_view(x) == s,
        },
{
    let title = match &k.tieu_de {
        Some(t) => text_of(t),
        None => String::new(),
    };
    if title.as_str().unicode_len() == 0 {
        return None;
    }
    let full = text_of(&k.toan_bo);
    let fv = to_chars(full.as_str());
    let tv = to_chars(title.as_str());
    let start = if starts_with_range(&fv, 0, fv.len(), &tv) {
        tv.len()
    } else {
        0
    };
    proof {
        assert(fv@.subrange(0, fv.len() as int) =~= fv@);
    }
    let b0 = trim_start_range(&fv, start, fv.len());
    if b0 == fv.len() {
        return None;
    }
    let body = string_of(&fv, b0, fv.len());
    Some(Section { title, body })
}

/// Bóc các mục diễn giải và đoạn tóm tắt từ HTML trang licham365.
///
/// Lỗi `NoSections` khi không khối nào thành mục (hoặc selector không dùng được),
/// `TooFewSections(n)` khi chỉ được `n < 4` mục.
pub fn parse_sections(html: &str, source_url: &str) -> (r: Result<Licham365Detail, ScrapeError>)
    ensures
        match html_blocks(html@, "div.c-de"@, "h3"@) {
            None => r matches Err(ScrapeError::NoSections),
            Some(bs) => {
                let secs = spec_sections(bs);
                if secs.len() == 0 {
                    r matches Err(ScrapeError::NoSections)
                } else if secs.len() < 4 {
                    r matches Err(ScrapeError::TooFewSections(n)) && n == secs.len()
                } else {
                    r matches Ok(d) && d.source_url@ == source_url@ && d.sections@.map_values(
                        |s: Section| section_view(s),
                    ) == secs && match spec_tom_tat(html_text(html@)) {
                        None => d.tom_tat is None,
                        Some(t) => d.tom_tat matches Some(x) && x@ == t,
                    }
                }
            },
        },
{
    let blocks = match scraper_blocks(html, SECTION_BLOCK_SELECTOR, SECTION_TITLE_SELECTOR) {
        Some(b) => b,
        None => {
            return Err(ScrapeError::NoSections);
        },
    };
    let ghost bs = blocks@.map_values(|k: KhoiVanBan| khoi_view(k));
    let mut sections: Vec<Section> = Vec::new();
    let mut i: usize = 0;
    while i < blocks.len()
        invariant
            i <= blocks.len(),
            bs == blocks@.map_values(|k: KhoiVanBan| khoi_view(k)),
            sections@.map_values(|s: Section| section_view(s)) == spec_sections(
                bs.subrange(0, i as int),
            ),
        decreases blocks.len() - i,
    {
        proof {
            assert(bs.subrange(0, i as int + 1).drop_last() =~= bs.subrange(0, i as int));
            assert(bs.subrange(0, i as int + 1).last() == khoi_view(blocks@[i as int]));
        }
        match section_of_block(&blocks[i]) {
            Some(s) => {
                sections.push(s);
                proof {
                    assert(sections@.map_values(|s: Section| section_view(s)) =~= spec_sections(
                        bs.subrange(0, i as int),
                    ).push(section_view(sections@.last())));
                }
            },
            None => {},
        }
        i = i + 1;
    }
    proof {
        assert(bs.subrange(0, blocks.len() as int) =~= bs);
    }
    if sections.len() == 0 {
        return Err(ScrapeError::NoSections);
    }
    if sections.len() < MIN_SECTIONS {
        return Err(ScrapeError::TooFewSections(sections.len()));
    }
    let tom_tat = tom_tat_of(html);
    Ok(Licham365Detail { source_url: String::from_str(source_url), sections, tom_tat })
}

/// Đoạn tóm tắt của trang.
fn tom_tat_of(html: &str) -> (r: Option<String>)
    ensures
        match spec_tom_tat(html_text(html@)) {
            None => r is None,
            Some(t) => r matches Some(x) && x@ == t,
        },
{
    let text = scraper_text(html);
    let v = to_chars(text.as_str());
    let n = v.len();
    let p = to_chars("Chi tiết ngày tốt xấu,");
    proof {
        assert(v@.subrange(0, n as int) =~= v@);
    }
    let k = match find_range(&v, 0, n, &p) {
        None => {
            return None;
        },
        Some(k) => k,
    };
    proof {
        crate::strs::lemma_find_from(v@, p@, 0);
    }
    let dot = vec!['.'];
    let start = k + p.len();
    let d = match find_range(&v, start, n, &dot) {
        None => {
            proof {
                assert(dot@ =~= seq!['.']);
            }
            return None;
        },
        Some(d) => d,
    };
    proof {
        assert(dot@ =~= seq!['.']);
        crate::strs::lemma_find_from(v@.subrange(start as int, n as int), dot@, 0);
        let rest = v@.subrange(start as int, n as int);
        assert(rest.subrange(0, (d - start) as int) =~= v@.subrange(start as int, d as int));
    }
    let (a, b) = trim_range(&v, start, d);
    let s = string_of(&v, a, b);
    let short = utf8_len_below(&v, a, b, 400);
    proof {
        let rest = html_text(html@).subrange(k + tom_tat_prefix().len(), html_text(html@).len() as int);
        assert(p@ == tom_tat_prefix());
        assert(rest =~= v@.subrange(start as int, n as int));
        assert(split_once(rest, '.') == Some((v@.subrange(start as int, d as int), rest.subrange((d - start) + 1, rest.len() as int))));
        assert(s@ == trim(v@.subrange(start as int, d as int)));
    }
    if a == b || !short {
        return None;
    }
    let mut out = String::from_str("Chi tiết ngày tốt xấu, ");
    push_str(&mut out, s.as_str());
    push_str(&mut out, ".");
    Some(out)
}

} // verus!
