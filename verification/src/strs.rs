//! Thao tác chuỗi trên dãy ký tự: khoảng trắng, cắt đầu/cuối, tìm, tách dòng,
//! tách theo ký tự, nối.
//!
//! Các hàm `spec` ở đây nói đúng nghĩa của các phương thức `str` tương ứng
//! (`trim`, `lines`, `find`, `split_once`, `strip_prefix`, …) trên dãy ký tự;
//! các hàm thực thi làm việc trên một dãy ký tự và một khoảng chỉ số `lo..hi`.

use vstd::prelude::*;

use crate::text::push_char;

verus! {

broadcast use vstd::string::group_string_axioms;

// ===========================================================================
// Ký tự khoảng trắng
// ===========================================================================

/// Ký tự có thuộc tính Unicode `White_Space` (đúng tập mà `char::is_whitespace`
/// của Rust nhận): U+0009–U+000D, U+0020, U+0085, U+00A0, U+1680, U+2000–U+200A,
/// U+2028, U+2029, U+202F, U+205F, U+3000.
pub open spec fn is_ws(c: char) -> bool {
    let u = c as u32;
    (0x9 <= u <= 0xD) || u == 0x20 || u == 0x85 || u == 0xA0 || u == 0x1680 || (0x2000 <= u
        <= 0x200A) || u == 0x2028 || u == 0x2029 || u == 0x202F || u == 0x205F || u == 0x3000
}

/// Ký tự khoảng trắng (`char::is_whitespace`).
pub fn is_ws_char(c: char) -> (r: bool)
    ensures
        r == is_ws(c),
{
    let u = c as u32;
    (0x9 <= u && u <= 0xD) || u == 0x20 || u == 0x85 || u == 0xA0 || u == 0x1680 || (0x2000 <= u
        && u <= 0x200A) || u == 0x2028 || u == 0x2029 || u == 0x202F || u == 0x205F || u == 0x3000
}

// ===========================================================================
// Cắt khoảng trắng
// ===========================================================================

/// Số ký tự khoảng trắng ở đầu `s`.
pub open spec fn lead_ws(s: Seq<char>) -> nat
    decreases s.len(),
{
    if s.len() > 0 && is_ws(s[0]) {
        1 + lead_ws(s.subrange(1, s.len() as int))
    } else {
        0
    }
}

/// Số ký tự khoảng trắng ở cuối `s`.
pub open spec fn trail_ws(s: Seq<char>) -> nat
    decreases s.len(),
{
    if s.len() > 0 && is_ws(s.last()) {
        1 + trail_ws(s.drop_last())
    } else {
        0
    }
}

/// `str::trim_start`: bỏ khoảng trắng đầu.
pub open spec fn trim_start(s: Seq<char>) -> Seq<char> {
    s.subrange(lead_ws(s) as int, s.len() as int)
}

/// `str::trim_end`: bỏ khoảng trắng cuối.
pub open spec fn trim_end(s: Seq<char>) -> Seq<char> {
    s.subrange(0, s.len() - trail_ws(s))
}

/// `str::trim`: bỏ khoảng trắng hai đầu.
pub open spec fn trim(s: Seq<char>) -> Seq<char> {
    trim_end(trim_start(s))
}

/// Số khoảng trắng đầu không vượt độ dài.
pub proof fn lemma_lead_ws_bound(s: Seq<char>)
    ensures
        lead_ws(s) <= s.len(),
    decreases s.len(),
{
    if s.len() > 0 && is_ws(s[0]) {
        lemma_lead_ws_bound(s.subrange(1, s.len() as int));
    }
}

/// Số khoảng trắng cuối không vượt độ dài.
pub proof fn lemma_trail_ws_bound(s: Seq<char>)
    ensures
        trail_ws(s) <= s.len(),
    decreases s.len(),
{
    if s.len() > 0 && is_ws(s.last()) {
        lemma_trail_ws_bound(s.drop_last());
    }
}

/// Khoảng `lo'..hi` của `v[lo..hi]` sau khi bỏ khoảng trắng đầu.
pub fn trim_start_range(v: &Vec<char>, lo: usize, hi: usize) -> (r: usize)
    requires
        lo <= hi <= v.len(),
    ensures
        lo <= r <= hi,
        v@.subrange(r as int, hi as int) == trim_start(v@.subrange(lo as int, hi as int)),
{
    let mut i = lo;
    while i < hi && is_ws_char(v[i])
        invariant
            lo <= i <= hi <= v.len(),
            lead_ws(v@.subrange(lo as int, hi as int)) == (i - lo) + lead_ws(
                v@.subrange(i as int, hi as int),
            ),
        decreases hi - i,
    {
        proof {
            assert(v@.subrange(i as int, hi as int).subrange(1, (hi - i) as int) =~= v@.subrange(
                i + 1,
                hi as int,
            ));
        }
        i = i + 1;
    }
    proof {
        lemma_lead_ws_bound(v@.subrange(lo as int, hi as int));
        assert(lead_ws(v@.subrange(i as int, hi as int)) == 0);
        assert(v@.subrange(lo as int, hi as int).subrange((i - lo) as int, (hi - lo) as int)
            =~= v@.subrange(i as int, hi as int));
    }
    i
}

/// Khoảng `lo..hi'` của `v[lo..hi]` sau khi bỏ khoảng trắng cuối.
pub fn trim_end_range(v: &Vec<char>, lo: usize, hi: usize) -> (r: usize)
    requires
        lo <= hi <= v.len(),
    ensures
        lo <= r <= hi,
        v@.subrange(lo as int, r as int) == trim_end(v@.subrange(lo as int, hi as int)),
{
    let mut j = hi;
    while j > lo && is_ws_char(v[j - 1])
        invariant
            lo <= j <= hi <= v.len(),
            trail_ws(v@.subrange(lo as int, hi as int)) == (hi - j) + trail_ws(
                v@.subrange(lo as int, j as int),
            ),
        decreases j - lo,
    {
        proof {
            assert(v@.subrange(lo as int, j as int).drop_last() =~= v@.subrange(
                lo as int,
                j - 1,
            ));
        }
        j = j - 1;
    }
    proof {
        lemma_trail_ws_bound(v@.subrange(lo as int, hi as int));
        assert(trail_ws(v@.subrange(lo as int, j as int)) == 0);
        assert(v@.subrange(lo as int, hi as int).subrange(0, (j - lo) as int) =~= v@.subrange(
            lo as int,
            j as int,
        ));
    }
    j
}

/// Khoảng của `v[lo..hi]` sau khi bỏ khoảng trắng hai đầu.
pub fn trim_range(v: &Vec<char>, lo: usize, hi: usize) -> (r: (usize, usize))
    requires
        lo <= hi <= v.len(),
    ensures
        lo <= r.0 <= r.1 <= hi,
        v@.subrange(r.0 as int, r.1 as int) == trim(v@.subrange(lo as int, hi as int)),
{
    let a = trim_start_range(v, lo, hi);
    let b = trim_end_range(v, a, hi);
    (a, b)
}

// ===========================================================================
// Dựng chuỗi
// ===========================================================================

/// Chuỗi gồm các ký tự `v[lo..hi]`.
pub fn string_of(v: &Vec<char>, lo: usize, hi: usize) -> (r: String)
    requires
        lo <= hi <= v.len(),
    ensures
        r@ == v@.subrange(lo as int, hi as int),
{
    let mut s = String::new();
    let mut i = lo;
    while i < hi
        invariant
            lo <= i <= hi <= v.len(),
            s@ == v@.subrange(lo as int, i as int),
        decreases hi - i,
    {
        push_char(&mut s, v[i]);
        proof {
            assert(v@.subrange(lo as int, i + 1) =~= v@.subrange(lo as int, i as int).push(v@[i as int]));
        }
        i = i + 1;
    }
    s
}

/// Chuỗi gồm các ký tự của `v`.
pub fn string_of_all(v: &Vec<char>) -> (r: String)
    ensures
        r@ == v@,
{
    let r = string_of(v, 0, v.len());
    assert(v@.subrange(0, v.len() as int) =~= v@);
    r
}

/// Chuỗi đã cắt khoảng trắng hai đầu (`str::trim`, sở hữu kết quả).
pub fn trim_string(s: &str) -> (r: String)
    ensures
        r@ == trim(s@),
{
    let v = to_chars(s);
    let (a, b) = trim_range(&v, 0, v.len());
    assert(v@.subrange(0, v.len() as int) =~= s@);
    string_of(&v, a, b)
}

/// Các ký tự của chuỗi.
pub fn to_chars(s: &str) -> (r: Vec<char>)
    ensures
        r@ == s@,
{
    let mut out: Vec<char> = Vec::new();
    for c in it: s.chars()
        invariant
            out@ == it.seq().take(it.index() as int),
            it.seq() == s@,
    {
        out.push(c);
    }
    out
}

/// Nối các dãy ký tự với dấu phân cách `sep` giữa hai phần liên tiếp.
pub open spec fn join(parts: Seq<Seq<char>>, sep: Seq<char>) -> Seq<char>
    decreases parts.len(),
{
    if parts.len() == 0 {
        Seq::empty()
    } else if parts.len() == 1 {
        parts[0]
    } else {
        join(parts.drop_last(), sep) + sep + parts.last()
    }
}

/// Nối các chuỗi với dấu phân cách (`[String]::join`).
pub fn join_strings(parts: &Vec<String>, sep: &str) -> (r: String)
    ensures
        r@ == join(parts@.map_values(|p: String| p@), sep@),
{
    let ghost views = parts@.map_values(|p: String| p@);
    let mut s = String::new();
    let mut i: usize = 0;
    while i < parts.len()
        invariant
            i <= parts.len(),
            views == parts@.map_values(|p: String| p@),
            s@ == join(views.subrange(0, i as int), sep@),
        decreases parts.len() - i,
    {
        proof {
            assert(views.subrange(0, i as int + 1).drop_last() =~= views.subrange(0, i as int));
        }
        if i > 0 {
            s.append(sep);
        }
        s.append(parts[i].as_str());
        proof {
            if i == 0 {
                assert(s@ =~= views.subrange(0, 1)[0]);
            }
        }
        i = i + 1;
    }
    proof {
        assert(views.subrange(0, parts.len() as int) =~= views);
    }
    s
}

// ===========================================================================
// Tìm, tách
// ===========================================================================

/// `s` bắt đầu bằng `p`.
pub open spec fn starts_with(s: Seq<char>, p: Seq<char>) -> bool {
    p.len() <= s.len() && s.subrange(0, p.len() as int) == p
}

/// Vị trí xuất hiện đầu tiên của `p` trong `s` tính từ `i` (`str::find`).
pub open spec fn find_from(s: Seq<char>, p: Seq<char>, i: int) -> Option<int>
    decreases s.len() + 1 - i,
{
    if i < 0 || i + p.len() > s.len() {
        None
    } else if s.subrange(i, i + p.len()) == p {
        Some(i)
    } else {
        find_from(s, p, i + 1)
    }
}

/// Vị trí xuất hiện đầu tiên của `p` trong `s` (`str::find`).
pub open spec fn find(s: Seq<char>, p: Seq<char>) -> Option<int> {
    find_from(s, p, 0)
}

/// Vị trí tìm được (nếu có) nằm trong chuỗi và đúng là chỗ `p` xuất hiện.
pub proof fn lemma_find_from(s: Seq<char>, p: Seq<char>, i: int)
    ensures
        find_from(s, p, i) matches Some(k) ==> i <= k && k + p.len() <= s.len() && s.subrange(
            k,
            k + p.len(),
        ) == p,
    decreases s.len() + 1 - i,
{
    if !(i < 0 || i + p.len() > s.len()) && s.subrange(i, i + p.len()) != p {
        lemma_find_from(s, p, i + 1);
    }
}

/// Vị trí xuất hiện đầu tiên của `p` trong `v[lo..hi]`, tính theo chỉ số trong `v`.
pub fn find_range(v: &Vec<char>, lo: usize, hi: usize, p: &Vec<char>) -> (r: Option<usize>)
    requires
        lo <= hi <= v.len(),
    ensures
        r == (match find(v@.subrange(lo as int, hi as int), p@) {
            Some(k) => Some((k + lo) as usize),
            None => None,
        }),
{
    let ghost s = v@.subrange(lo as int, hi as int);
    let mut i = lo;
    while i <= hi && hi - i >= p.len()
        invariant
            lo <= i,
            lo <= hi <= v.len(),
            i <= hi + 1,
            s == v@.subrange(lo as int, hi as int),
            find(s, p@) == find_from(s, p@, i - lo),
        decreases hi + 1 - i,
    {
        let mut k: usize = 0;
        let mut same = true;
        while k < p.len()
            invariant
                k <= p.len(),
                i + p.len() <= hi <= v.len(),
                same == (forall|t: int| 0 <= t < k ==> v@[i + t] == p@[t]),
            decreases p.len() - k,
        {
            if v[i + k] != p[k] {
                same = false;
            }
            k = k + 1;
        }
        proof {
            let w = s.subrange(i - lo, i - lo + p.len());
            if same {
                assert(w =~= p@);
            } else {
                let t = choose|t: int| 0 <= t < p.len() && v@[i + t] != p@[t];
                assert(w[t] != p@[t]);
            }
        }
        if same {
            return Some(i);
        }
        i = i + 1;
    }
    None
}

/// `str::split_once(c)`: phần trước và phần sau lần xuất hiện đầu tiên của `c`.
pub open spec fn split_once(s: Seq<char>, c: char) -> Option<(Seq<char>, Seq<char>)> {
    match find(s, seq![c]) {
        Some(k) => Some((s.subrange(0, k), s.subrange(k + 1, s.len() as int))),
        None => None,
    }
}

/// `str::strip_prefix(p)`.
pub open spec fn strip_prefix(s: Seq<char>, p: Seq<char>) -> Option<Seq<char>> {
    if starts_with(s, p) {
        Some(s.subrange(p.len() as int, s.len() as int))
    } else {
        None
    }
}

/// Bỏ mọi ký tự đầu thuộc tập `set` (`str::trim_start_matches` với mảng ký tự).
pub open spec fn trim_start_chars(s: Seq<char>, set: Seq<char>) -> Seq<char>
    decreases s.len(),
{
    if s.len() > 0 && set.contains(s[0]) {
        trim_start_chars(s.subrange(1, s.len() as int), set)
    } else {
        s
    }
}

/// Bỏ mọi ký tự cuối thuộc tập `set` (`str::trim_end_matches` với ký tự).
pub open spec fn trim_end_chars(s: Seq<char>, set: Seq<char>) -> Seq<char>
    decreases s.len(),
{
    if s.len() > 0 && set.contains(s.last()) {
        trim_end_chars(s.drop_last(), set)
    } else {
        s
    }
}

/// Bỏ lặp lại tiền tố `p` ở đầu (`str::trim_start_matches` với chuỗi).
pub open spec fn trim_start_pat(s: Seq<char>, p: Seq<char>) -> Seq<char>
    decreases s.len(),
{
    if p.len() > 0 && starts_with(s, p) {
        trim_start_pat(s.subrange(p.len() as int, s.len() as int), p)
    } else {
        s
    }
}

// ===========================================================================
// Tách từ
// ===========================================================================

/// Số ký tự không phải khoảng trắng ở đầu `t`.
pub open spec fn word_len(t: Seq<char>) -> nat
    decreases t.len(),
{
    if t.len() > 0 && !is_ws(t[0]) {
        1 + word_len(t.subrange(1, t.len() as int))
    } else {
        0
    }
}

/// Sau khi bỏ khoảng trắng đầu, ký tự đầu (nếu có) không là khoảng trắng.
pub proof fn lemma_trim_start_first(s: Seq<char>)
    ensures
        lead_ws(s) <= s.len(),
        lead_ws(s) < s.len() ==> !is_ws(s[lead_ws(s) as int]),
    decreases s.len(),
{
    if s.len() > 0 && is_ws(s[0]) {
        let t = s.subrange(1, s.len() as int);
        lemma_trim_start_first(t);
        if lead_ws(t) < t.len() {
            assert(t[lead_ws(t) as int] == s[lead_ws(s) as int]);
        }
    }
}

/// Độ dài từ đầu tiên không vượt độ dài chuỗi, và dương khi ký tự đầu không là
/// khoảng trắng.
pub proof fn lemma_word_len(t: Seq<char>)
    ensures
        word_len(t) <= t.len(),
        t.len() > 0 && !is_ws(t[0]) ==> word_len(t) >= 1,
    decreases t.len(),
{
    if t.len() > 0 && !is_ws(t[0]) {
        lemma_word_len(t.subrange(1, t.len() as int));
    }
}

/// `str::split_whitespace`: các đoạn tối đa không chứa khoảng trắng.
pub open spec fn words(s: Seq<char>) -> Seq<Seq<char>>
    decreases s.len(),
{
    let t = trim_start(s);
    if t.len() == 0 {
        Seq::empty()
    } else {
        let k = word_len(t);
        proof {
            lemma_trim_start_first(s);
            lemma_word_len(t);
        }
        seq![t.subrange(0, k as int)] + words(t.subrange(k as int, t.len() as int))
    }
}

/// Các khoảng `(đầu, cuối)` của từng từ của `v[lo..hi]` (`str::split_whitespace`).
pub fn word_ranges(v: &Vec<char>, lo: usize, hi: usize) -> (r: Vec<(usize, usize)>)
    requires
        lo <= hi <= v.len(),
    ensures
        r.len() == words(v@.subrange(lo as int, hi as int)).len(),
        forall|i: int|
            0 <= i < r.len() ==> {
                let (a, b) = #[trigger] r@[i];
                &&& lo <= a <= b <= hi
                &&& v@.subrange(a as int, b as int) == words(v@.subrange(lo as int, hi as int))[i]
            },
    decreases hi - lo,
{
    let a = trim_start_range(v, lo, hi);
    if a == hi {
        return Vec::new();
    }
    let mut k = a;
    while k < hi && !is_ws_char(v[k])
        invariant
            a <= k <= hi <= v.len(),
            word_len(v@.subrange(a as int, hi as int)) == (k - a) + word_len(
                v@.subrange(k as int, hi as int),
            ),
        decreases hi - k,
    {
        proof {
            assert(v@.subrange(k as int, hi as int).subrange(1, (hi - k) as int) =~= v@.subrange(
                k + 1,
                hi as int,
            ));
        }
        k = k + 1;
    }
    proof {
        let s = v@.subrange(lo as int, hi as int);
        lemma_trim_start_first(s);
        assert(word_len(v@.subrange(k as int, hi as int)) == 0);
        assert(v@.subrange(a as int, hi as int)[0] == s[lead_ws(s) as int]);
    }
    let rest = word_ranges(v, k, hi);
    let mut r: Vec<(usize, usize)> = Vec::new();
    r.push((a, k));
    let mut i: usize = 0;
    while i < rest.len()
        invariant
            i <= rest.len(),
            r.len() == i + 1,
            lo <= a < k <= hi <= v.len(),
            r@[0] == (a, k),
            rest.len() == words(v@.subrange(k as int, hi as int)).len(),
            forall|j: int|
                0 <= j < rest.len() ==> {
                    let (x, y) = #[trigger] rest@[j];
                    &&& k <= x <= y <= hi
                    &&& v@.subrange(x as int, y as int) == words(v@.subrange(k as int, hi as int))[j]
                },
            forall|j: int| 1 <= j <= i ==> #[trigger] r@[j] == rest@[j - 1],
        decreases rest.len() - i,
    {
        r.push(rest[i]);
        i = i + 1;
    }
    proof {
        let s = v@.subrange(lo as int, hi as int);
        let t = trim_start(s);
        assert(t =~= v@.subrange(a as int, hi as int));
        let kk = word_len(t);
        assert(kk == k - a);
        assert(t.subrange(0, kk as int) =~= v@.subrange(a as int, k as int));
        assert(t.subrange(kk as int, t.len() as int) =~= v@.subrange(k as int, hi as int));
        assert(words(s) =~= seq![v@.subrange(a as int, k as int)] + words(
            v@.subrange(k as int, hi as int),
        ));
    }
    r
}

/// Nối các đoạn `v[a..b]` của danh sách khoảng với dấu phân cách `sep`.
pub fn join_ranges(v: &Vec<char>, rs: &Vec<(usize, usize)>, sep: &str) -> (r: String)
    requires
        forall|i: int| 0 <= i < rs.len() ==> (#[trigger] rs@[i]).0 <= rs@[i].1 <= v.len(),
    ensures
        r@ == join(rs@.map_values(|p: (usize, usize)| v@.subrange(p.0 as int, p.1 as int)), sep@),
{
    let ghost parts = rs@.map_values(|p: (usize, usize)| v@.subrange(p.0 as int, p.1 as int));
    let mut s = String::new();
    let mut i: usize = 0;
    while i < rs.len()
        invariant
            i <= rs.len(),
            forall|j: int| 0 <= j < rs.len() ==> (#[trigger] rs@[j]).0 <= rs@[j].1 <= v.len(),
            parts == rs@.map_values(|p: (usize, usize)| v@.subrange(p.0 as int, p.1 as int)),
            s@ == join(parts.subrange(0, i as int), sep@),
        decreases rs.len() - i,
    {
        proof {
            assert(parts.subrange(0, i as int + 1).drop_last() =~= parts.subrange(0, i as int));
        }
        if i > 0 {
            s.append(sep);
        }
        let (a, b) = rs[i];
        let piece = string_of(v, a, b);
        s.append(piece.as_str());
        proof {
            if i == 0 {
                assert(s@ =~= parts.subrange(0, 1)[0]);
            }
        }
        i = i + 1;
    }
    proof {
        assert(parts.subrange(0, rs.len() as int) =~= parts);
    }
    s
}

/// `v[lo..hi]` bắt đầu bằng `p`.
pub fn starts_with_range(v: &Vec<char>, lo: usize, hi: usize, p: &Vec<char>) -> (r: bool)
    requires
        lo <= hi <= v.len(),
    ensures
        r == starts_with(v@.subrange(lo as int, hi as int), p@),
{
    if hi - lo < p.len() {
        return false;
    }
    let mut k: usize = 0;
    while k < p.len()
        invariant
            k <= p.len(),
            lo + p.len() <= hi <= v.len(),
            forall|t: int| 0 <= t < k ==> v@[lo + t] == p@[t],
        decreases p.len() - k,
    {
        if v[lo + k] != p[k] {
            proof {
                assert(v@.subrange(lo as int, hi as int).subrange(0, p.len() as int)[k as int] != p@[k as int]);
            }
            return false;
        }
        k = k + 1;
    }
    proof {
        assert(v@.subrange(lo as int, hi as int).subrange(0, p.len() as int) =~= p@);
    }
    true
}

/// Bỏ mọi ký tự `'\r'`, `'\n'` ở đầu `v[lo..hi]`.
pub fn skip_crlf(v: &Vec<char>, lo: usize, hi: usize) -> (r: usize)
    requires
        lo <= hi <= v.len(),
    ensures
        lo <= r <= hi,
        v@.subrange(r as int, hi as int) == trim_start_chars(
            v@.subrange(lo as int, hi as int),
            seq!['\r', '\n'],
        ),
{
    let mut i = lo;
    while i < hi && (v[i] == '\r' || v[i] == '\n')
        invariant
            lo <= i <= hi <= v.len(),
            trim_start_chars(v@.subrange(lo as int, hi as int), seq!['\r', '\n'])
                == trim_start_chars(v@.subrange(i as int, hi as int), seq!['\r', '\n']),
        decreases hi - i,
    {
        proof {
            let w = v@.subrange(i as int, hi as int);
            assert(seq!['\r', '\n'].contains(w[0])) by {
                if w[0] == '\r' {
                    assert(seq!['\r', '\n'][0] == '\r');
                } else {
                    assert(seq!['\r', '\n'][1] == '\n');
                }
            }
            assert(w.subrange(1, w.len() as int) =~= v@.subrange(i + 1, hi as int));
        }
        i = i + 1;
    }
    proof {
        let w = v@.subrange(i as int, hi as int);
        if w.len() > 0 {
            assert(!seq!['\r', '\n'].contains(w[0])) by {
                if seq!['\r', '\n'].contains(w[0]) {
                    let k = choose|k: int| 0 <= k < 2 && seq!['\r', '\n'][k] == w[0];
                    assert(k == 0 || k == 1);
                }
            }
        }
    }
    i
}

/// Bỏ lặp lại tiền tố `p` ở đầu `v[lo..hi]`.
pub fn skip_pat(v: &Vec<char>, lo: usize, hi: usize, p: &Vec<char>) -> (r: usize)
    requires
        lo <= hi <= v.len(),
        p.len() > 0,
    ensures
        lo <= r <= hi,
        v@.subrange(r as int, hi as int) == trim_start_pat(v@.subrange(lo as int, hi as int), p@),
{
    let mut i = lo;
    while starts_with_range(v, i, hi, p)
        invariant
            lo <= i <= hi <= v.len(),
            p.len() > 0,
            trim_start_pat(v@.subrange(lo as int, hi as int), p@) == trim_start_pat(
                v@.subrange(i as int, hi as int),
                p@,
            ),
        decreases hi - i,
    {
        proof {
            let w = v@.subrange(i as int, hi as int);
            assert(w.subrange(p.len() as int, w.len() as int) =~= v@.subrange(
                i + p.len(),
                hi as int,
            ));
        }
        i = i + p.len();
    }
    i
}

// ===========================================================================
// Tách dòng
// ===========================================================================

/// Bỏ một `'\r'` ở cuối (nếu có).
pub open spec fn strip_cr(s: Seq<char>) -> Seq<char> {
    if s.len() > 0 && s.last() == '\r' {
        s.drop_last()
    } else {
        s
    }
}

/// `str::lines`: tách theo `'\n'` (bỏ `'\r'` đứng ngay trước), dòng cuối rỗng
/// sau ký tự xuống dòng cuối cùng không được tính.
pub open spec fn lines(s: Seq<char>) -> Seq<Seq<char>>
    decreases s.len(),
{
    if s.len() == 0 {
        Seq::empty()
    } else {
        match find(s, seq!['\n']) {
            Some(k) => {
                if 0 <= k < s.len() {
                    seq![strip_cr(s.subrange(0, k))] + lines(s.subrange(k + 1, s.len() as int))
                } else {
                    Seq::empty()
                }
            },
            None => seq![s],
        }
    }
}

/// Các khoảng `(đầu, cuối)` của từng dòng của `v[lo..hi]` (`str::lines`).
pub fn line_ranges(v: &Vec<char>, lo: usize, hi: usize) -> (r: Vec<(usize, usize)>)
    requires
        lo <= hi <= v.len(),
    ensures
        r.len() == lines(v@.subrange(lo as int, hi as int)).len(),
        forall|i: int|
            0 <= i < r.len() ==> {
                let (a, b) = #[trigger] r@[i];
                &&& lo <= a <= b <= hi
                &&& v@.subrange(a as int, b as int) == lines(v@.subrange(lo as int, hi as int))[i]
            },
    decreases hi - lo,
{
    if lo == hi {
        return Vec::new();
    }
    let nl = vec!['\n'];
    let f = find_range(v, lo, hi, &nl);
    proof {
        lemma_find_from(v@.subrange(lo as int, hi as int), seq!['\n'], 0);
        assert(nl@ =~= seq!['\n']);
    }
    match f {
        None => {
            let mut r: Vec<(usize, usize)> = Vec::new();
            r.push((lo, hi));
            r
        },
        Some(k) => {
            let mut e = k;
            if e > lo && v[e - 1] == '\r' {
                e = e - 1;
            }
            let rest = line_ranges(v, k + 1, hi);
            let mut r: Vec<(usize, usize)> = Vec::new();
            r.push((lo, e));
            let mut i: usize = 0;
            proof {
                let s = v@.subrange(lo as int, hi as int);
                assert(s.subrange(0, (k - lo) as int) =~= v@.subrange(lo as int, k as int));
                assert(s.subrange((k - lo) + 1, s.len() as int) =~= v@.subrange(k + 1, hi as int));
                assert(v@.subrange(lo as int, e as int) == strip_cr(v@.subrange(lo as int, k as int)))
                    by {
                    if k > lo && v@[k - 1] == '\r' {
                        assert(v@.subrange(lo as int, k as int).drop_last() =~= v@.subrange(
                            lo as int,
                            e as int,
                        ));
                    }
                }
            }
            while i < rest.len()
                invariant
                    i <= rest.len(),
                    r.len() == i + 1,
                    lo <= e <= k < hi <= v.len(),
                    r@[0] == (lo, e),
                    v@.subrange(lo as int, e as int) == strip_cr(v@.subrange(lo as int, k as int)),
                    rest.len() == lines(v@.subrange(k + 1, hi as int)).len(),
                    forall|j: int|
                        0 <= j < rest.len() ==> {
                            let (a, b) = #[trigger] rest@[j];
                            &&& k + 1 <= a <= b <= hi
                            &&& v@.subrange(a as int, b as int) == lines(
                                v@.subrange(k + 1, hi as int),
                            )[j]
                        },
                    forall|j: int| 1 <= j <= i ==> #[trigger] r@[j] == rest@[j - 1],
                decreases rest.len() - i,
            {
                r.push(rest[i]);
                i = i + 1;
            }
            proof {
                let s = v@.subrange(lo as int, hi as int);
                let ls = lines(s);
                assert(ls =~= seq![strip_cr(v@.subrange(lo as int, k as int))] + lines(
                    v@.subrange(k + 1, hi as int),
                ));
            }
            r
        },
    }
}

/// Mọi ký tự trong từ đầu tiên (dài `word_len(t)`) đều không là khoảng trắng.
proof fn lemma_word_len_khong_khoang_trang(t: Seq<char>)
    ensures
        word_len(t) <= t.len(),
        forall|i: int| 0 <= i < word_len(t) ==> !is_ws(#[trigger] t[i]),
    decreases t.len(),
{
    lemma_word_len(t);
    if t.len() > 0 && !is_ws(t[0]) {
        let u = t.subrange(1, t.len() as int);
        lemma_word_len_khong_khoang_trang(u);
        assert forall|i: int| 0 <= i < word_len(t) implies !is_ws(#[trigger] t[i]) by {
            if i > 0 {
                assert(t[i] == u[i - 1]);
            }
        }
    }
}

/// Mỗi từ của `words(s)` khác rỗng và không chứa khoảng trắng.
pub proof fn lemma_words_khong_khoang_trang(s: Seq<char>)
    ensures
        forall|k: int|
            0 <= k < words(s).len() ==> (#[trigger] words(s)[k]).len() > 0 && forall|i: int|
                0 <= i < words(s)[k].len() ==> !is_ws(#[trigger] words(s)[k][i]),
    decreases s.len(),
{
    let t = trim_start(s);
    lemma_trim_start_first(s);
    if t.len() > 0 {
        let k = word_len(t);
        lemma_word_len(t);
        lemma_word_len_khong_khoang_trang(t);
        let rest = t.subrange(k as int, t.len() as int);
        lemma_words_khong_khoang_trang(rest);
        let w0 = t.subrange(0, k as int);
        assert(words(s) == seq![w0] + words(rest));
        assert forall|q: int|
            0 <= q < words(s).len() implies (#[trigger] words(s)[q]).len() > 0 && forall|i: int|
                0 <= i < words(s)[q].len() ==> !is_ws(#[trigger] words(s)[q][i]) by {
            if q == 0 {
                assert(words(s)[0] == w0);
                assert forall|i: int| 0 <= i < w0.len() implies !is_ws(#[trigger] w0[i]) by {
                    assert(w0[i] == t[i]);
                }
            } else {
                assert(words(s)[q] == words(rest)[q - 1]);
            }
        }
    }
}

/// Chuỗi "gọn": không có khoảng trắng ở hai đầu, khoảng trắng duy nhất là dấu
/// cách và không có hai khoảng trắng liền nhau.
pub open spec fn gon(r: Seq<char>) -> bool {
    &&& r.len() > 0 ==> !is_ws(r[0]) && !is_ws(r[r.len() - 1])
    &&& forall|i: int| 0 <= i < r.len() && is_ws(#[trigger] r[i]) ==> r[i] == ' '
    &&& forall|i: int, j: int|
        0 <= i < r.len() && j == i + 1 && j < r.len() && is_ws(#[trigger] r[i]) ==> !is_ws(
            #[trigger] r[j],
        )
}

/// Nối các từ khác rỗng, không chứa khoảng trắng, bằng một dấu cách cho ra chuỗi
/// gọn.
pub proof fn lemma_join_gon(parts: Seq<Seq<char>>)
    requires
        forall|k: int|
            0 <= k < parts.len() ==> (#[trigger] parts[k]).len() > 0 && forall|i: int|
                0 <= i < parts[k].len() ==> !is_ws(#[trigger] parts[k][i]),
    ensures
        gon(join(parts, " "@)),
        parts.len() > 0 ==> join(parts, " "@).len() > 0,
    decreases parts.len(),
{
    reveal_strlit(" ");
    if parts.len() == 1 {
        let w = parts[0];
        assert(join(parts, " "@) == w);
        assert forall|i: int| 0 <= i < w.len() implies !is_ws(#[trigger] w[i]) by {
            assert(w[i] == parts[0][i]);
        }
    } else if parts.len() > 1 {
        let p = parts.drop_last();
        assert forall|k: int|
            0 <= k < p.len() implies (#[trigger] p[k]).len() > 0 && forall|i: int|
                0 <= i < p[k].len() ==> !is_ws(#[trigger] p[k][i]) by {
            assert(p[k] == parts[k]);
        }
        lemma_join_gon(p);
        let a = join(p, " "@);
        let w = parts.last();
        let r = join(parts, " "@);
        assert(r == a + " "@ + w);
        assert(is_ws(' '));
        assert forall|i: int| 0 <= i < w.len() implies !is_ws(#[trigger] w[i]) by {
            assert(w[i] == parts[parts.len() - 1][i]);
        }
        assert(r.len() == a.len() + 1 + w.len());
        assert forall|i: int| 0 <= i < r.len() implies (#[trigger] r[i]) == (if i < a.len() {
            a[i]
        } else if i == a.len() {
            ' '
        } else {
            w[i - a.len() - 1]
        }) by {}
        assert forall|i: int| 0 <= i < r.len() && is_ws(#[trigger] r[i]) implies r[i] == ' ' by {
            if i < a.len() {
                assert(r[i] == a[i]);
            } else if i > a.len() {
                assert(r[i] == w[i - a.len() - 1]);
            }
        }
        assert forall|i: int, j: int|
            0 <= i < r.len() && j == i + 1 && j < r.len() && is_ws(#[trigger] r[i]) implies !is_ws(
            #[trigger] r[j],
        ) by {
            assert(r[i] == (if i < a.len() {
                a[i]
            } else if i == a.len() {
                ' '
            } else {
                w[i - a.len() - 1]
            }));
            assert(r[j] == (if j < a.len() {
                a[j]
            } else if j == a.len() {
                ' '
            } else {
                w[j - a.len() - 1]
            }));
            if j < a.len() {
                assert(a[i] == r[i] && a[j] == r[j]);
            }
        }
        assert(r[0] == a[0]);
        assert(r[r.len() - 1] == w[w.len() - 1]);
    }
}

} // verus!
