//! Từ điển tử vi: tách frontmatter `key: value` của tệp markdown và dựng mục từ
//! điển.
//!
//! Frontmatter chỉ gồm các cặp khoá–giá trị một dòng giữa hai dòng `---`, nên
//! không cần một bộ phân tích YAML đầy đủ.

use vstd::prelude::*;

use crate::db::MucTuDien;
use crate::strs::{
    find, find_range, line_ranges, lines, skip_crlf, skip_pat, split_once, starts_with,
    starts_with_range, string_of, strip_prefix, to_chars, trim, trim_range, trim_start_chars,
    trim_start_pat,
};

verus! {

/// Biến môi trường trỏ tới thư mục markdown trên đĩa (ghi đè bản nhúng).
pub const ENV_CONTENT_DIR: &'static str = "TINHBAN_CONTENT_DIR";

/// Các cặp (khoá, giá trị) đã cắt khoảng trắng của các dòng `ls` có dấu `:`
/// (dòng trống hoặc không có `:` bị bỏ qua).
pub open spec fn kv_of_lines(ls: Seq<Seq<char>>) -> Seq<(Seq<char>, Seq<char>)>
    decreases ls.len(),
{
    if ls.len() == 0 {
        Seq::empty()
    } else {
        let prev = kv_of_lines(ls.drop_last());
        let t = trim(ls.last());
        if t.len() == 0 {
            prev
        } else {
            match split_once(t, ':') {
                Some((k, v)) => prev.push((trim(k), trim(v))),
                None => prev,
            }
        }
    }
}

/// Tách frontmatter: `raw` phải bắt đầu bằng `---`; phần frontmatter kết thúc ở
/// lần xuất hiện đầu tiên của `"\n---"` (sau khi bỏ các `\r`, `\n` đầu); thân
/// bài là phần sau đó, bỏ các `"\n---"` và `\r`, `\n` ở đầu.
pub open spec fn spec_tach_frontmatter(raw: Seq<char>) -> Option<(Seq<(Seq<char>, Seq<char>)>, Seq<char>)> {
    match strip_prefix(raw, "---"@) {
        None => None,
        Some(r0) => {
            let rest = trim_start_chars(r0, seq!['\r', '\n']);
            match find(rest, "\n---"@) {
                None => None,
                Some(end) => {
                    let fm = rest.subrange(0, end);
                    let body0 = rest.subrange(end, rest.len() as int);
                    let body = trim_start_chars(trim_start_pat(body0, "\n---"@), seq!['\r', '\n']);
                    Some((kv_of_lines(lines(fm)), body))
                },
            }
        },
    }
}

/// Các cặp khoá–giá trị nhìn như dãy ký tự.
pub open spec fn kv_view(kv: Seq<(String, String)>) -> Seq<(Seq<char>, Seq<char>)> {
    kv.map_values(|p: (String, String)| (p.0@, p.1@))
}

/// Giá trị của khoá đầu tiên bằng `key`; rỗng nếu không có.
pub open spec fn spec_lay(kv: Seq<(Seq<char>, Seq<char>)>, key: Seq<char>) -> Seq<char>
    decreases kv.len(),
{
    if kv.len() == 0 {
        Seq::empty()
    } else if kv[0].0 == key {
        kv[0].1
    } else {
        spec_lay(kv.subrange(1, kv.len() as int), key)
    }
}

/// Tách frontmatter `key: value` giữa hai dòng `---`; `None` nếu không có.
pub fn tach_frontmatter(raw: &str) -> (r: Option<(Vec<(String, String)>, String)>)
    ensures
        match spec_tach_frontmatter(raw@) {
            None => r is None,
            Some((kv, body)) => r matches Some(x) && kv_view(x.0@) == kv && x.1@ == body,
        },
{
    let v = to_chars(raw);
    let n = v.len();
    let dash = vec!['-', '-', '-'];
    proof {
        assert(dash@ =~= "---"@) by {
            reveal_strlit("---");
        }
        assert(v@.subrange(0, n as int) =~= raw@);
    }
    if !starts_with_range(&v, 0, n, &dash) {
        return None;
    }
    let a = skip_crlf(&v, 3, n);
    let marker = vec!['\n', '-', '-', '-'];
    proof {
        assert(marker@ =~= "\n---"@) by {
            reveal_strlit("\n---");
        }
        assert(raw@.subrange(3, raw@.len() as int) =~= v@.subrange(3, n as int));
    }
    let end = match find_range(&v, a, n, &marker) {
        None => {
            return None;
        },
        Some(e) => e,
    };
    proof {
        crate::strs::lemma_find_from(v@.subrange(a as int, n as int), marker@, 0);
    }
    let b = skip_pat(&v, end, n, &marker);
    let c = skip_crlf(&v, b, n);
    let body = string_of(&v, c, n);

    let ls = line_ranges(&v, a, end);
    let ghost lsv = lines(v@.subrange(a as int, end as int));
    let mut kv: Vec<(String, String)> = Vec::new();
    let mut i: usize = 0;
    while i < ls.len()
        invariant
            i <= ls.len(),
            a <= end <= n == v.len(),
            ls.len() == lsv.len(),
            lsv == lines(v@.subrange(a as int, end as int)),
            forall|j: int|
                0 <= j < ls.len() ==> {
                    let (x, y) = #[trigger] ls@[j];
                    &&& a <= x <= y <= end
                    &&& v@.subrange(x as int, y as int) == lsv[j]
                },
            kv_view(kv@) == kv_of_lines(lsv.subrange(0, i as int)),
        decreases ls.len() - i,
    {
        let (x, y) = ls[i];
        let (t0, t1) = trim_range(&v, x, y);
        proof {
            assert(lsv.subrange(0, i as int + 1).drop_last() =~= lsv.subrange(0, i as int));
            assert(lsv.subrange(0, i as int + 1).last() == lsv[i as int]);
        }
        if t0 < t1 {
            let colon = vec![':'];
            let f = find_range(&v, t0, t1, &colon);
            proof {
                crate::strs::lemma_find_from(v@.subrange(t0 as int, t1 as int), colon@, 0);
                assert(colon@ =~= seq![':']);
            }
            match f {
                Some(k) => {
                    let (k0, k1) = trim_range(&v, t0, k);
                    let (v0, v1) = trim_range(&v, k + 1, t1);
                    let key = string_of(&v, k0, k1);
                    let val = string_of(&v, v0, v1);
                    kv.push((key, val));
                    proof {
                        let t = v@.subrange(t0 as int, t1 as int);
                        assert(t.subrange(0, (k - t0) as int) =~= v@.subrange(t0 as int, k as int));
                        assert(t.subrange((k - t0) + 1, t.len() as int) =~= v@.subrange(
                            k + 1,
                            t1 as int,
                        ));
                        assert(kv_view(kv@) =~= kv_of_lines(lsv.subrange(0, i as int)).push(
                            (key@, val@),
                        ));
                    }
                },
                None => {},
            }
        }
        i = i + 1;
    }
    proof {
        assert(lsv.subrange(0, ls.len() as int) =~= lsv);
        let rest = trim_start_chars(raw@.subrange(3, raw@.len() as int), seq!['\r', '\n']);
        assert(rest =~= v@.subrange(a as int, n as int));
        assert(rest.subrange(0, (end - a) as int) =~= v@.subrange(a as int, end as int));
        assert(rest.subrange((end - a) as int, rest.len() as int) =~= v@.subrange(end as int, n as int));
    }
    Some((kv, body))
}

/// Giá trị của khoá `key` (khoá đầu tiên trùng), chuỗi rỗng nếu không có.
pub fn lay(kv: &Vec<(String, String)>, key: &str) -> (r: String)
    ensures
        r@ == spec_lay(kv_view(kv@), key@),
{
    let k = String::from_str(key);
    proof {
        assert(kv_view(kv@).subrange(0, kv.len() as int) =~= kv_view(kv@));
    }
    let mut i: usize = 0;
    while i < kv.len()
        invariant
            i <= kv.len(),
            k@ == key@,
            spec_lay(kv_view(kv@), key@) == spec_lay(
                kv_view(kv@).subrange(i as int, kv.len() as int),
                key@,
            ),
        decreases kv.len() - i,
    {
        proof {
            let w = kv_view(kv@).subrange(i as int, kv.len() as int);
            assert(w.subrange(1, w.len() as int) =~= kv_view(kv@).subrange(i + 1, kv.len() as int));
        }
        if kv[i].0 == k {
            return kv[i].1.clone();
        }
        i = i + 1;
    }
    String::new()
}

/// Mục từ điển của một tệp: `None` nếu thiếu frontmatter hoặc thiếu `slug` /
/// `title`; các trường khác lấy từ frontmatter (rỗng nếu thiếu).
pub open spec fn muc_is(m: MucTuDien, kv: Seq<(Seq<char>, Seq<char>)>, body: Seq<char>, ord: i64) -> bool {
    &&& m.slug@ == spec_lay(kv, "slug"@)
    &&& m.title@ == spec_lay(kv, "title"@)
    &&& m.kind@ == spec_lay(kv, "kind"@)
    &&& m.nhom@ == spec_lay(kv, "nhom"@)
    &&& m.nguhanh@ == spec_lay(kv, "nguhanh"@)
    &&& m.amduong@ == spec_lay(kv, "amduong"@)
    &&& m.aliases@ == spec_lay(kv, "aliases"@)
    &&& m.body@ == body
    &&& m.ord == ord
}

/// Chuyển nội dung một tệp markdown thành mục từ điển; `None` (bỏ qua tệp) nếu
/// thiếu frontmatter hoặc thiếu `slug` / `title`.
pub fn phan_tich(ten_file: &str, raw: &str, ord: i64) -> (r: Option<MucTuDien>)
    ensures
        match spec_tach_frontmatter(raw@) {
            None => r is None,
            Some((kv, body)) => if spec_lay(kv, "slug"@).len() == 0 || spec_lay(kv, "title"@).len()
                == 0 {
                r is None
            } else {
                r matches Some(m) && muc_is(m, kv, body, ord)
            },
        },
{
    let (kv, body) = match tach_frontmatter(raw) {
        Some(x) => x,
        None => {
            return None;
        },
    };
    let slug = lay(&kv, "slug");
    let title = lay(&kv, "title");
    if slug.as_str().unicode_len() == 0 || title.as_str().unicode_len() == 0 {
        return None;
    }
    Some(
        MucTuDien {
            slug,
            title,
            kind: lay(&kv, "kind"),
            nhom: lay(&kv, "nhom"),
            nguhanh: lay(&kv, "nguhanh"),
            amduong: lay(&kv, "amduong"),
            aliases: lay(&kv, "aliases"),
            body,
            ord,
        },
    )
}

} // verus!

verus! {

// ===========================================================================
// Đọc cả thư mục
// ===========================================================================

/// `a` không đứng sau `b` theo thứ tự từ điển của mã ký tự — cũng là thứ tự byte
/// UTF-8, tức thứ tự của `String`.
pub open spec fn lex_le(a: Seq<char>, b: Seq<char>) -> bool
    decreases a.len(),
{
    if a.len() == 0 {
        true
    } else if b.len() == 0 {
        false
    } else if (a[0] as u32) < (b[0] as u32) {
        true
    } else if (a[0] as u32) > (b[0] as u32) {
        false
    } else {
        lex_le(a.drop_first(), b.drop_first())
    }
}

/// Thứ tự từ điển là toàn phần.
pub proof fn lemma_lex_total(a: Seq<char>, b: Seq<char>)
    ensures
        lex_le(a, b) || lex_le(b, a),
    decreases a.len(),
{
    if a.len() > 0 && b.len() > 0 && (a[0] as u32) == (b[0] as u32) {
        lemma_lex_total(a.drop_first(), b.drop_first());
    }
}

/// Thứ tự từ điển có tính bắc cầu.
pub proof fn lemma_lex_trans(a: Seq<char>, b: Seq<char>, c: Seq<char>)
    requires
        lex_le(a, b),
        lex_le(b, c),
    ensures
        lex_le(a, c),
    decreases a.len(),
{
    if a.len() > 0 && b.len() > 0 && c.len() > 0 && (a[0] as u32) == (b[0] as u32) && (b[0] as u32)
        == (c[0] as u32) {
        lemma_lex_trans(a.drop_first(), b.drop_first(), c.drop_first());
    }
}

/// Thứ tự từ điển phản xạ.
pub proof fn lemma_lex_refl(a: Seq<char>)
    ensures
        lex_le(a, a),
    decreases a.len(),
{
    if a.len() > 0 {
        lemma_lex_refl(a.drop_first());
    }
}

/// So hai chuỗi theo thứ tự từ điển.
fn ten_le(a: &String, b: &String) -> (r: bool)
    ensures
        r == lex_le(a@, b@),
{
    let va = to_chars(a.as_str());
    let vb = to_chars(b.as_str());
    let mut i: usize = 0;
    proof {
        assert(a@.subrange(0, a@.len() as int) =~= a@);
        assert(b@.subrange(0, b@.len() as int) =~= b@);
    }
    while i < va.len() && i < vb.len()
        invariant
            i <= va.len(),
            i <= vb.len(),
            va@ == a@,
            vb@ == b@,
            lex_le(a@, b@) == lex_le(a@.subrange(i as int, a@.len() as int), b@.subrange(i as int, b@.len() as int)),
        decreases va.len() - i,
    {
        let ca = va[i] as u32;
        let cb = vb[i] as u32;
        if ca < cb {
            return true;
        }
        if ca > cb {
            return false;
        }
        proof {
            let x = a@.subrange(i as int, a@.len() as int);
            let y = b@.subrange(i as int, b@.len() as int);
            assert(x.drop_first() =~= a@.subrange(i + 1, a@.len() as int));
            assert(y.drop_first() =~= b@.subrange(i + 1, b@.len() as int));
        }
        i = i + 1;
    }
    i == va.len()
}

/// Lọc một dãy không có phần tử nào thoả điều kiện thì được dãy rỗng.
proof fn lemma_loc_rong<A>(s: Seq<A>, pred: spec_fn(A) -> bool)
    requires
        forall|j: int| 0 <= j < s.len() ==> !pred(#[trigger] s[j]),
    ensures
        s.filter(pred) == Seq::<A>::empty(),
    decreases s.len(),
{
    reveal(Seq::filter);
    if s.len() > 0 {
        lemma_loc_rong(s.drop_last(), pred);
    }
}

/// Các tệp có tên `k`, giữ nguyên thứ tự.
pub open spec fn tep_ten(s: Seq<(String, String)>, k: Seq<char>) -> Seq<(String, String)> {
    s.filter(ten_la(k))
}

/// Tệp có tên `k`.
pub open spec fn ten_la(k: Seq<char>) -> spec_fn((String, String)) -> bool {
    |e: (String, String)| e.0@ == k
}

/// Các tệp xếp theo tên, không giảm.
pub open spec fn xep_theo_ten(s: Seq<(String, String)>) -> bool {
    forall|i: int, j: int| 0 <= i < j < s.len() ==> lex_le(#[trigger] s[i].0@, #[trigger] s[j].0@)
}

/// `s` là `files` xếp ổn định theo tên: tên không giảm, và các tệp cùng tên giữ
/// thứ tự ban đầu (nên `s` là một hoán vị của `files`).
pub open spec fn sap_xep_is(s: Seq<(String, String)>, files: Seq<(String, String)>) -> bool {
    &&& xep_theo_ten(s)
    &&& forall|k: Seq<char>| #[trigger] tep_ten(s, k) == tep_ten(files, k)
}

/// Xếp các tệp theo tên (ổn định, như `sort_by` của `Vec`).
pub fn sap_xep_theo_ten(files: Vec<(String, String)>) -> (r: Vec<(String, String)>)
    ensures
        sap_xep_is(r@, files@),
        r.len() == files.len(),
{
    broadcast use vstd::seq_lib::group_seq_properties;

    let ghost f = files@;
    let mut out: Vec<(String, String)> = Vec::new();
    let mut rest = files;
    let mut i: usize = 0;
    let n = rest.len();
    proof {
        assert forall|k: Seq<char>| #[trigger] tep_ten(out@, k) == tep_ten(f.take(0), k) by {
            reveal(Seq::filter);
            assert(f.take(0) =~= Seq::<(String, String)>::empty());
        }
    }
    while i < n
        invariant
            n == f.len(),
            i <= n,
            rest.len() == n - i,
            rest@ == f.skip(i as int),
            out.len() == i,
            xep_theo_ten(out@),
            forall|k: Seq<char>| #[trigger] tep_ten(out@, k) == tep_ten(f.take(i as int), k),
        decreases n - i,
    {
        let x = rest.remove(0);
        proof {
            assert(rest@ =~= f.skip(i as int + 1));
        }
        assert(x == f[i as int]);
        let mut p: usize = 0;
        while p < out.len() && ten_le(&out[p].0, &x.0)
            invariant
                p <= out.len(),
                forall|j: int| 0 <= j < p ==> lex_le(#[trigger] out@[j].0@, x.0@),
            decreases out.len() - p,
        {
            p = p + 1;
        }
        let ghost cu = out@;
        proof {
            assert forall|j: int| p <= j < cu.len() implies !lex_le(#[trigger] cu[j].0@, x.0@) by {
                if lex_le(cu[j].0@, x.0@) {
                    lemma_lex_trans(cu[p as int].0@, cu[j].0@, x.0@);
                }
            }
        }
        out.insert(p, x);
        proof {
            let moi = out@;
            assert(moi =~= cu.take(p as int) + seq![x] + cu.skip(p as int));
            assert forall|a: int, b: int| 0 <= a < b < moi.len() implies lex_le(
                #[trigger] moi[a].0@,
                #[trigger] moi[b].0@,
            ) by {
                if a < p && b == p {
                } else if a < p && b > p {
                    assert(moi[b] == cu[b - 1]);
                    assert(moi[a] == cu[a]);
                } else if a == p {
                    assert(moi[b] == cu[b - 1]);
                    lemma_lex_total(cu[b - 1].0@, x.0@);
                } else if a > p {
                    assert(moi[b] == cu[b - 1]);
                    assert(moi[a] == cu[a - 1]);
                } else {
                    assert(moi[a] == cu[a]);
                    assert(moi[b] == cu[b]);
                }
            }
            assert(cu =~= cu.take(p as int) + cu.skip(p as int));
            assert(f.take(i as int + 1) =~= f.take(i as int).push(x));
            assert forall|k: Seq<char>| #[trigger] tep_ten(moi, k) == tep_ten(f.take(i as int + 1), k) by {
                let pred = ten_la(k);
                let a = cu.take(p as int);
                let b = cu.skip(p as int);
                Seq::filter_distributes_over_add(a + seq![x], b, pred);
                Seq::filter_distributes_over_add(a, seq![x], pred);
                Seq::filter_distributes_over_add(a, b, pred);
                f.take(i as int).lemma_filter_push(x, pred);
                Seq::<(String, String)>::empty().lemma_filter_push(x, pred);
                assert(Seq::<(String, String)>::empty().push(x) =~= seq![x]);
                lemma_loc_rong(Seq::<(String, String)>::empty(), pred);
                assert(tep_ten(cu, k) == tep_ten(f.take(i as int), k));
                if x.0@ == k {
                    assert forall|j: int| 0 <= j < b.len() implies !pred(#[trigger] b[j]) by {
                        assert(b[j] == cu[p + j]);
                        lemma_lex_refl(x.0@);
                    }
                    lemma_loc_rong(b, pred);
                    assert(a.filter(pred) + seq![x] + b.filter(pred) =~= a.filter(pred).push(x));
                    assert(a.filter(pred) + b.filter(pred) =~= a.filter(pred));
                } else {
                    assert(a.filter(pred) + Seq::<(String, String)>::empty() + b.filter(pred)
                        =~= a.filter(pred) + b.filter(pred));
                }
            }
        }
        i = i + 1;
    }
    proof {
        assert(f.take(n as int) =~= f);
    }
    out
}

/// Tệp có nội dung `raw` cho ra một mục từ điển.
pub open spec fn co_muc(raw: Seq<char>) -> bool {
    match spec_tach_frontmatter(raw) {
        None => false,
        Some((kv, _)) => spec_lay(kv, "slug"@).len() > 0 && spec_lay(kv, "title"@).len() > 0,
    }
}

/// `m` là mục dựng từ tệp có nội dung `raw`, thứ tự `ord`.
pub open spec fn muc_cua(m: MucTuDien, raw: Seq<char>, ord: int) -> bool {
    match spec_tach_frontmatter(raw) {
        None => false,
        Some((kv, body)) => muc_is(m, kv, body, ord as i64),
    }
}

/// `r` là các mục dựng được từ dãy tệp `s`, theo thứ tự; mục từ tệp thứ `i`
/// (đếm từ 0, kể cả các tệp bị bỏ qua) có thứ tự `i`.
pub open spec fn muc_tu_tep(r: Seq<MucTuDien>, s: Seq<(String, String)>) -> bool
    decreases s.len(),
{
    if s.len() == 0 {
        r.len() == 0
    } else if co_muc(s.last().1@) {
        &&& r.len() > 0
        &&& muc_cua(r.last(), s.last().1@, s.len() - 1)
        &&& muc_tu_tep(r.drop_last(), s.drop_last())
    } else {
        muc_tu_tep(r, s.drop_last())
    }
}

/// Thứ tự từ điển phản đối xứng.
pub proof fn lemma_lex_antisym(a: Seq<char>, b: Seq<char>)
    requires
        lex_le(a, b),
        lex_le(b, a),
    ensures
        a == b,
    decreases a.len(),
{
    if a.len() > 0 && b.len() > 0 {
        vstd::utf8::char_u32_cast(a[0], a[0] as u32);
        vstd::utf8::char_u32_cast(b[0], b[0] as u32);
        assert(a[0] == b[0]);
        lemma_lex_antisym(a.drop_first(), b.drop_first());
        assert(a =~= seq![a[0]] + a.drop_first());
        assert(b =~= seq![b[0]] + b.drop_first());
    } else {
        assert(a =~= b);
    }
}

/// Có tệp tên `k` trong `s` thì lấy được vị trí của nó.
proof fn lemma_co_ten(s: Seq<(String, String)>, k: Seq<char>) -> (j: int)
    requires
        tep_ten(s, k).len() > 0,
    ensures
        0 <= j < s.len(),
        s[j].0@ == k,
    decreases s.len(),
{
    reveal(Seq::filter);
    if s.last().0@ == k {
        s.len() - 1
    } else {
        lemma_co_ten(s.drop_last(), k)
    }
}

/// Hai dãy xếp theo tên có cùng các tệp ở mỗi tên thì trùng nhau.
proof fn lemma_cung_tep_ten(s1: Seq<(String, String)>, s2: Seq<(String, String)>)
    requires
        xep_theo_ten(s1),
        xep_theo_ten(s2),
        forall|k: Seq<char>| #[trigger] tep_ten(s1, k) == tep_ten(s2, k),
    ensures
        s1 == s2,
    decreases s1.len() + s2.len(),
{
    if s1.len() == 0 && s2.len() == 0 {
        assert(s1 =~= s2);
    } else if s1.len() == 0 {
        let k = s2.last().0@;
        reveal(Seq::filter);
        assert(tep_ten(s1, k).len() == 0);
        s2.drop_last().lemma_filter_push(s2.last(), ten_la(k));
        assert(s2.drop_last().push(s2.last()) =~= s2);
        assert(tep_ten(s2, k).len() > 0);
    } else if s2.len() == 0 {
        let k = s1.last().0@;
        reveal(Seq::filter);
        assert(tep_ten(s2, k).len() == 0);
        s1.drop_last().lemma_filter_push(s1.last(), ten_la(k));
        assert(s1.drop_last().push(s1.last()) =~= s1);
        assert(tep_ten(s1, k).len() > 0);
    } else {
        let x1 = s1.last();
        let x2 = s2.last();
        let d1 = s1.drop_last();
        let d2 = s2.drop_last();
        assert(d1.push(x1) =~= s1);
        assert(d2.push(x2) =~= s2);
        d1.lemma_filter_push(x1, ten_la(x1.0@));
        d2.lemma_filter_push(x2, ten_la(x2.0@));
        // Tên của hai phần tử cuối là tên lớn nhất, nên bằng nhau.
        assert(tep_ten(s1, x2.0@) == tep_ten(s2, x2.0@));
        assert(tep_ten(s2, x1.0@) == tep_ten(s1, x1.0@));
        let j1 = lemma_co_ten(s1, x2.0@);
        let j2 = lemma_co_ten(s2, x1.0@);
        if j1 < s1.len() - 1 {
            assert(lex_le(s1[j1].0@, s1[s1.len() - 1].0@));
        } else {
            lemma_lex_refl(x1.0@);
        }
        if j2 < s2.len() - 1 {
            assert(lex_le(s2[j2].0@, s2[s2.len() - 1].0@));
        } else {
            lemma_lex_refl(x2.0@);
        }
        lemma_lex_antisym(x1.0@, x2.0@);
        let k = x1.0@;
        assert(tep_ten(s1, k) == tep_ten(s2, k));
        assert(tep_ten(s1, k).last() == x1);
        assert(x1 == x2);
        assert(tep_ten(d1, k) =~= tep_ten(s1, k).drop_last());
        assert(tep_ten(d2, k) =~= tep_ten(s2, k).drop_last());
        assert forall|k2: Seq<char>| #[trigger] tep_ten(d1, k2) == tep_ten(d2, k2) by {
            d1.lemma_filter_push(x1, ten_la(k2));
            d2.lemma_filter_push(x2, ten_la(k2));
            assert(tep_ten(s1, k2) == tep_ten(s2, k2));
        }
        assert(xep_theo_ten(d1));
        assert(xep_theo_ten(d2));
        lemma_cung_tep_ten(d1, d2);
    }
}

/// Cách xếp ổn định theo tên là duy nhất: hai kết quả cùng thoả
/// [`sap_xep_is`] với một dãy tệp thì trùng nhau.
pub proof fn lemma_sap_xep_duy_nhat(
    s1: Seq<(String, String)>,
    s2: Seq<(String, String)>,
    files: Seq<(String, String)>,
)
    requires
        sap_xep_is(s1, files),
        sap_xep_is(s2, files),
    ensures
        s1 == s2,
{
    assert forall|k: Seq<char>| #[trigger] tep_ten(s1, k) == tep_ten(s2, k) by {
        assert(tep_ten(s1, k) == tep_ten(files, k));
        assert(tep_ten(s2, k) == tep_ten(files, k));
    }
    lemma_cung_tep_ten(s1, s2);
}

/// Dựng toàn bộ mục từ điển từ các tệp markdown (tên tệp, nội dung): xếp tệp
/// theo tên, đánh thứ tự theo vị trí sau khi xếp, bỏ các tệp không dựng được mục.
pub fn phan_tich_tat_ca(files: Vec<(String, String)>) -> (r: Vec<MucTuDien>)
    requires
        files.len() <= i64::MAX,
    ensures
        exists|s: Seq<(String, String)>| #[trigger] sap_xep_is(s, files@) && muc_tu_tep(r@, s),
{
    let ghost f = files@;
    let sorted = sap_xep_theo_ten(files);
    let n = sorted.len();
    let mut out: Vec<MucTuDien> = Vec::new();
    let mut i: usize = 0;
    while i < n
        invariant
            n == sorted.len(),
            n <= i64::MAX,
            i <= n,
            muc_tu_tep(out@, sorted@.take(i as int)),
        decreases n - i,
    {
        proof {
            assert(sorted@.take(i as int + 1).drop_last() =~= sorted@.take(i as int));
        }
        let m = phan_tich(sorted[i].0.as_str(), sorted[i].1.as_str(), i as i64);
        match m {
            Some(m) => {
                let ghost truoc = out@;
                out.push(m);
                proof {
                    assert(out@.drop_last() =~= truoc);
                }
            },
            None => {},
        }
        i = i + 1;
    }
    proof {
        assert(sorted@.take(n as int) =~= sorted@);
        assert(sap_xep_is(sorted@, f) && muc_tu_tep(out@, sorted@));
    }
    out
}

} // verus!
