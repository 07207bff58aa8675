//! Phần tính toán của các trang HTML: vị trí 12 cung trên địa bàn, nội dung một
//! ô cung, các nhãn hiển thị, escape HTML và render markdown. Việc dựng cây HTML
//! (component) nằm ngoài thư viện và chỉ đọc kết quả của các hàm này.

use vstd::prelude::*;

use crate::canchi::{hour_branch_idx, EarthlyBranch, HeavenlyStem};
use crate::db::MucTuDien;
use crate::lich::hour_can_chi;
use crate::ngay_tot_xau::{GioDto, NguonDienGiai};
use crate::strs::{join, join_strings};
use crate::text::{decimal, push_char, push_int, push_str};
use crate::tuvi::palaces::Palace;
use crate::tuvi::stars::sao::{Sao, SaoCategory};
use crate::tuvi::truong_sinh::TruongSinhState;
use crate::tuvi::types::Gender;

verus! {

// ===========================================================================
// Địa bàn 4×4
// ===========================================================================

/// Ô (hàng, cột), đếm từ 1, của Chi thứ `i` trên lưới 4×4 của địa bàn:
///
/// ```text
///   Tỵ    Ngọ   Mùi   Thân
///   Thìn  ┌─ thông tin ─┐  Dậu
///   Mão   └─  giữa bàn ─┘  Tuất
///   Dần   Sửu   Tý    Hợi
/// ```
pub open spec fn spec_o_luoi(i: int) -> (int, int) {
    if i == 0 {
        (4, 3)
    } else if i == 1 {
        (4, 2)
    } else if i == 2 {
        (4, 1)
    } else if i == 3 {
        (3, 1)
    } else if i == 4 {
        (2, 1)
    } else if i == 5 {
        (1, 1)
    } else if i == 6 {
        (1, 2)
    } else if i == 7 {
        (1, 3)
    } else if i == 8 {
        (1, 4)
    } else if i == 9 {
        (2, 4)
    } else if i == 10 {
        (3, 4)
    } else {
        (4, 4)
    }
}

/// Ô (hàng, cột) của một Chi trên lưới 4×4 của địa bàn.
pub fn o_luoi(b: EarthlyBranch) -> (r: (u8, u8))
    ensures
        r.0 == spec_o_luoi(b.idx() as int).0,
        r.1 == spec_o_luoi(b.idx() as int).1,
{
    match b {
        EarthlyBranch::Ty => (4, 3),
        EarthlyBranch::Suu => (4, 2),
        EarthlyBranch::Dan => (4, 1),
        EarthlyBranch::Mao => (3, 1),
        EarthlyBranch::Thin => (2, 1),
        EarthlyBranch::Ty2 => (1, 1),
        EarthlyBranch::Ngo => (1, 2),
        EarthlyBranch::Mui => (1, 3),
        EarthlyBranch::Than => (1, 4),
        EarthlyBranch::Dau => (2, 4),
        EarthlyBranch::Tuat => (3, 4),
        EarthlyBranch::Hoi => (4, 4),
    }
}

/// Ô nằm trên viền ngoài của lưới 4×4.
pub open spec fn tren_vien(o: (int, int)) -> bool {
    &&& 1 <= o.0 <= 4
    &&& 1 <= o.1 <= 4
    &&& (o.0 == 1 || o.0 == 4 || o.1 == 1 || o.1 == 4)
}

/// Hai ô chung cạnh.
pub open spec fn ke_nhau(a: (int, int), b: (int, int)) -> bool {
    (a.0 == b.0 && (a.1 - b.1 == 1 || b.1 - a.1 == 1)) || (a.1 == b.1 && (a.0 - b.0 == 1 || b.0
        - a.0 == 1))
}

/// Địa bàn: 12 Chi nằm ở 12 ô khác nhau trên viền ngoài của lưới 4×4 (chừa
/// 2×2 ô giữa cho phần thông tin); hai Chi liền nhau luôn ở hai ô chung cạnh,
/// nên đi quanh viền là đúng thứ tự 12 Chi; Dần ở góc dưới trái và đi từ Dần
/// sang Mão là đi lên (chiều kim đồng hồ).
pub proof fn lemma_dia_ban()
    ensures
        forall|i: int| 0 <= i < 12 ==> #[trigger] tren_vien(spec_o_luoi(i)),
        forall|i: int, j: int|
            0 <= i < j < 12 ==> #[trigger] spec_o_luoi(i) != #[trigger] spec_o_luoi(j),
        forall|i: int| 0 <= i < 12 ==> #[trigger] ke_nhau(spec_o_luoi(i), spec_o_luoi((i + 1) % 12)),
        spec_o_luoi(2) == (4int, 1int),
        spec_o_luoi(3) == (3int, 1int),
{
    assert forall|i: int| 0 <= i < 12 implies #[trigger] ke_nhau(
        spec_o_luoi(i),
        spec_o_luoi((i + 1) % 12),
    ) by {
        if i == 11 {
            assert((i + 1) % 12 == 0);
        } else {
            assert((i + 1) % 12 == i + 1);
        }
    }
}

// ===========================================================================
// Một ô cung
// ===========================================================================

/// Các sao thuộc nhóm `cat`, giữ nguyên thứ tự.
pub open spec fn sao_nhom(s: Seq<Sao>, cat: SaoCategory) -> Seq<Sao>
    decreases s.len(),
{
    if s.len() == 0 {
        Seq::empty()
    } else {
        let truoc = sao_nhom(s.drop_last(), cat);
        if s.last().spec_category() == cat {
            truoc.push(s.last())
        } else {
            truoc
        }
    }
}

/// Các sao thuộc nhóm `cat` trong `stars`, giữ nguyên thứ tự.
pub fn loc_sao(stars: &Vec<Sao>, cat: SaoCategory) -> (r: Vec<Sao>)
    ensures
        r@ == sao_nhom(stars@, cat),
{
    let mut out: Vec<Sao> = Vec::new();
    let mut i: usize = 0;
    while i < stars.len()
        invariant
            i <= stars.len(),
            out@ == sao_nhom(stars@.subrange(0, i as int), cat),
        decreases stars.len() - i,
    {
        proof {
            assert(stars@.subrange(0, i as int + 1).drop_last() =~= stars@.subrange(0, i as int));
        }
        let s = stars[i];
        if s.category() == cat {
            out.push(s);
        }
        i = i + 1;
    }
    proof {
        assert(stars@.subrange(0, stars.len() as int) =~= stars@);
    }
    out
}

/// Tên các trạng thái Trường Sinh.
pub open spec fn ten_truong_sinh(ts: Seq<TruongSinhState>) -> Seq<Seq<char>> {
    ts.map_values(|t: TruongSinhState| t.name_seq())
}

/// Kiểu CSS đặt một ô vào hàng `r`, cột `c` của lưới.
pub open spec fn kieu_o(r: int, c: int) -> Seq<char> {
    "grid-row: "@ + decimal(r) + "; grid-column: "@ + decimal(c) + ";"@
}

/// Nội dung hiển thị của một ô cung.
#[derive(Debug, Clone, PartialEq, Eq)]
pub struct OCung {
    /// `"cung menh"` cho cung Mệnh, `"cung"` cho các cung khác.
    pub lop: String,
    /// Vị trí trên lưới, dạng CSS.
    pub kieu: String,
    /// Chính tinh trong cung, theo thứ tự an sao.
    pub chinh: Vec<Sao>,
    /// Phụ tinh trong cung, theo thứ tự an sao.
    pub phu: Vec<Sao>,
    /// Các trạng thái Trường Sinh, nối bằng `", "`.
    pub truong_sinh: String,
}

/// `o` là nội dung hiển thị của cung `p`.
pub open spec fn o_cung_is(o: OCung, p: Palace) -> bool {
    let (r, c) = spec_o_luoi(p.branch.idx() as int);
    &&& o.lop@ == (if p.is_menh {
        "cung menh"@
    } else {
        "cung"@
    })
    &&& o.kieu@ == kieu_o(r, c)
    &&& o.chinh@ == sao_nhom(p.stars@, SaoCategory::ChinhTinh)
    &&& o.phu@ == sao_nhom(p.stars@, SaoCategory::PhuTinh)
    &&& o.truong_sinh@ == join(ten_truong_sinh(p.truong_sinh@), ", "@)
}

/// Nội dung hiển thị của một ô cung trên địa bàn.
pub fn o_cung(p: &Palace) -> (r: OCung)
    ensures
        o_cung_is(r, *p),
{
    let (hang, cot) = o_luoi(p.branch);
    let mut kieu = String::from_str("grid-row: ");
    push_int(&mut kieu, hang as i64);
    push_str(&mut kieu, "; grid-column: ");
    push_int(&mut kieu, cot as i64);
    push_str(&mut kieu, ";");
    let lop = if p.is_menh {
        String::from_str("cung menh")
    } else {
        String::from_str("cung")
    };
    let mut ten: Vec<String> = Vec::new();
    let mut i: usize = 0;
    while i < p.truong_sinh.len()
        invariant
            i <= p.truong_sinh.len(),
            ten.len() == i,
            forall|j: int| 0 <= j < i ==> (#[trigger] ten@[j])@ == p.truong_sinh@[j].name_seq(),
        decreases p.truong_sinh.len() - i,
    {
        ten.push(String::from_str(p.truong_sinh[i].name_vn()));
        i = i + 1;
    }
    let truong_sinh = join_strings(&ten, ", ");
    proof {
        assert(ten@.map_values(|s: String| s@) =~= ten_truong_sinh(p.truong_sinh@));
        assert(kieu@ =~= kieu_o(hang as int, cot as int));
    }
    OCung {
        lop,
        kieu,
        chinh: loc_sao(&p.stars, SaoCategory::ChinhTinh),
        phu: loc_sao(&p.stars, SaoCategory::PhuTinh),
        truong_sinh,
    }
}

// ===========================================================================
// Nhãn
// ===========================================================================

/// Tên Chi của giờ sinh `hour`, chuỗi rỗng khi giờ quá 23.
pub fn gio_sinh_chi(hour: u8) -> (r: &'static str)
    ensures
        hour <= 23 ==> r@ == EarthlyBranch::at(hour_branch_idx(hour as int)).name_seq(),
        hour > 23 ==> r@ == ""@,
{
    match hour_can_chi(HeavenlyStem::Giap, hour) {
        Ok(cc) => cc.branch.name_vn(),
        Err(_) => "",
    }
}

/// Tên giới tính.
pub fn gioi_tinh_vn(g: Gender) -> (r: &'static str)
    ensures
        r@ == g.name_seq(),
{
    match g {
        Gender::Nam => "Nam",
        Gender::Nu => "Nữ",
    }
}

/// Tên giới tính của một hồ sơ đã lưu: `"nam"` là Nam, mọi giá trị khác là Nữ.
pub fn gioi_tinh_ho_so(gender: &str) -> (r: &'static str)
    ensures
        r@ == (if gender@ == "nam"@ {
            "Nam"@
        } else {
            "Nữ"@
        }),
{
    let g = String::from_str(gender);
    let nam = String::from_str("nam");
    if g == nam {
        "Nam"
    } else {
        "Nữ"
    }
}

/// Tên loại mục từ điển: `chinh-tinh`, `phu-tinh`, còn lại là cung.
pub fn ten_loai_muc(kind: &str) -> (r: &'static str)
    ensures
        r@ == (if kind@ == "chinh-tinh"@ {
            "Chính tinh"@
        } else if kind@ == "phu-tinh"@ {
            "Phụ tinh"@
        } else {
            "Cung"@
        }),
{
    let k = String::from_str(kind);
    if k == String::from_str("chinh-tinh") {
        "Chính tinh"
    } else if k == String::from_str("phu-tinh") {
        "Phụ tinh"
    } else {
        "Cung"
    }
}

/// Vị trí (theo thứ tự) các mục có loại `kind`.
pub fn chi_so_theo_loai(muc: &Vec<MucTuDien>, kind: &str) -> (r: Vec<usize>)
    ensures
        forall|j: int| 0 <= j < r.len() ==> (#[trigger] r@[j]) < muc.len() && muc@[r@[j] as int].kind@
            == kind@,
        forall|j: int, k: int| 0 <= j < k < r.len() ==> r@[j] < r@[k],
        forall|i: int|
            0 <= i < muc.len() && (#[trigger] muc@[i]).kind@ == kind@ ==> r@.contains(i as usize),
{
    let k = String::from_str(kind);
    let mut out: Vec<usize> = Vec::new();
    let mut i: usize = 0;
    while i < muc.len()
        invariant
            i <= muc.len(),
            k@ == kind@,
            forall|j: int| 0 <= j < out.len() ==> (#[trigger] out@[j]) < i && muc@[out@[j] as int].kind@
                == kind@,
            forall|j: int, l: int| 0 <= j < l < out.len() ==> out@[j] < out@[l],
            forall|m: int| 0 <= m < i && (#[trigger] muc@[m]).kind@ == kind@ ==> out@.contains(m as usize),
        decreases muc.len() - i,
    {
        let ghost truoc = out@;
        if muc[i].kind == k {
            out.push(i);
            proof {
                assert(out@[out.len() - 1] == i);
                assert forall|m: int| 0 <= m < i && (#[trigger] muc@[m]).kind@ == kind@ implies out@.contains(
                    m as usize,
                ) by {
                    let w = choose|w: int| 0 <= w < truoc.len() && truoc[w] == m as usize;
                    assert(out@[w] == m as usize);
                }
            }
        }
        i = i + 1;
    }
    out
}

/// Các khung giờ dạng "Chi khung" nối bằng `" · "`.
pub open spec fn dong_gio_seq(g: Seq<GioDto>) -> Seq<char> {
    join(g.map_values(|x: GioDto| x.chi@ + " "@ + x.khung@), " · "@)
}

/// Dòng liệt kê các khung giờ: "Chi khung" nối bằng `" · "`.
pub fn dong_gio(gios: &Vec<GioDto>) -> (r: String)
    ensures
        r@ == dong_gio_seq(gios@),
{
    let mut parts: Vec<String> = Vec::new();
    let mut i: usize = 0;
    while i < gios.len()
        invariant
            i <= gios.len(),
            parts.len() == i,
            forall|j: int| 0 <= j < i ==> (#[trigger] parts@[j])@ == gios@[j].chi@ + " "@ + gios@[j].khung@,
        decreases gios.len() - i,
    {
        let mut s = String::from_str(gios[i].chi.as_str());
        push_str(&mut s, " ");
        push_str(&mut s, gios[i].khung.as_str());
        parts.push(s);
        i = i + 1;
    }
    proof {
        assert(parts@.map_values(|p: String| p@) =~= gios@.map_values(
            |x: GioDto| x.chi@ + " "@ + x.khung@,
        ));
    }
    join_strings(&parts, " · ")
}

/// Ghi chú nguồn của phần diễn giải.
pub fn nhan_nguon(n: Option<NguonDienGiai>) -> (r: &'static str)
    ensures
        r@ == (match n {
            Some(NguonDienGiai::Cache) => " (đọc từ cache)"@,
            Some(NguonDienGiai::Scrape) => " (vừa tải mới)"@,
            None => ""@,
        }),
{
    match n {
        Some(NguonDienGiai::Cache) => " (đọc từ cache)",
        Some(NguonDienGiai::Scrape) => " (vừa tải mới)",
        None => "",
    }
}

// ===========================================================================
// HTML
// ===========================================================================

/// Escape của một ký tự trong HTML thô.
pub open spec fn escape_ky_tu(c: char) -> Seq<char> {
    if c == '&' {
        "&amp;"@
    } else if c == '<' {
        "&lt;"@
    } else if c == '>' {
        "&gt;"@
    } else if c == '"' {
        "&quot;"@
    } else {
        seq![c]
    }
}

/// Escape tối thiểu cho text nhúng vào HTML thô: `&`, `<`, `>`, `"`.
pub open spec fn spec_html_escape(s: Seq<char>) -> Seq<char>
    decreases s.len(),
{
    if s.len() == 0 {
        Seq::empty()
    } else {
        spec_html_escape(s.drop_last()) + escape_ky_tu(s.last())
    }
}

/// Escape tối thiểu cho text nhúng vào HTML thô (chỉ dùng cho `<title>`; mọi nội
/// dung khác được component tự escape).
pub fn html_escape(s: &str) -> (r: String)
    ensures
        r@ == spec_html_escape(s@),
{
    let mut out = String::new();
    for c in it: s.chars()
        invariant
            it.seq() == s@,
            out@ == spec_html_escape(s@.take(it.index() as int)),
    {
        proof {
            assert(s@.take(it.index() as int + 1).drop_last() =~= s@.take(it.index() as int));
        }
        if c == '&' {
            push_str(&mut out, "&amp;");
        } else if c == '<' {
            push_str(&mut out, "&lt;");
        } else if c == '>' {
            push_str(&mut out, "&gt;");
        } else if c == '"' {
            push_str(&mut out, "&quot;");
        } else {
            push_char(&mut out, c);
            proof {
                assert(seq![c] =~= escape_ky_tu(c));
            }
        }
    }
    proof {
        assert(s@.take(s@.len() as int) =~= s@);
    }
    out
}

/// Bật bảng (GFM) khi render markdown.
pub const MD_BANG: u32 = 2;

/// Bật gạch ngang chữ (`~~`) khi render markdown.
pub const MD_GACH_NGANG: u32 = 8;

/// HTML mà `pulldown_cmark` sinh ra cho markdown `md` với các cờ tuỳ chọn
/// `options` (bit của `pulldown_cmark::Options`).
pub uninterp spec fn markdown_html(md: Seq<char>, options: u32) -> Seq<char>;

/// `pulldown_cmark::html::push_html` trên `Parser::new_ext(md, opts)` với `opts`
/// dựng từ các bit `options`. Kết quả là tên `markdown_html` của các đối số.
#[verifier::external_body]
fn pulldown_html(md: &str, options: u32) -> (r: String)
    ensures
        r@ == markdown_html(md@, options),
{
    let parser = pulldown_cmark::Parser::new_ext(md, pulldown_cmark::Options::from_bits_truncate(options));
    let mut out = String::new();
    pulldown_cmark::html::push_html(&mut out, parser);
    out
}

/// Render markdown của một mục từ điển thành HTML, bật bảng và gạch ngang chữ.
///
/// Nội dung markdown là của chính dự án (không phải input từ người lạ), nên HTML
/// thô trong markdown được giữ nguyên.
pub fn render_markdown(md: &str) -> (r: String)
    ensures
        r@ == markdown_html(md@, 10),
{
    let opts: u32 = MD_BANG | MD_GACH_NGANG;
    assert(2u32 | 8u32 == 10u32) by (bit_vector);
    pulldown_html(md, opts)
}

} // verus!
