//! Cục (Ngũ Hành Cục) — từ Nạp Âm của Can–Chi cung Mệnh.

use vstd::prelude::*;

use crate::canchi::{spec_month_can_chi, stem_of, EarthlyBranch, HeavenlyStem, NguHanh};
use crate::modulo::rem_euclid_i64;
use crate::text::push_str;

verus! {

/// Tên gọi khác của [`Cuc`].
pub type CucInfo = Cuc;

/// Cục: số (2..6) và hành.
#[derive(Debug, Clone, Copy, PartialEq, Eq, Structural, Hash)]
pub struct Cuc {
    pub so: u8,
    pub hanh: NguHanh,
}

/// Tên tiếng Việt của số Cục.
pub open spec fn so_vn(so: int) -> Seq<char> {
    if so == 2 {
        "nhị"@
    } else if so == 3 {
        "tam"@
    } else if so == 4 {
        "tứ"@
    } else if so == 5 {
        "ngũ"@
    } else if so == 6 {
        "lục"@
    } else {
        "?"@
    }
}

impl Cuc {
    /// Tên đầy đủ, ví dụ "Thủy nhị Cục".
    pub open spec fn name_seq(self) -> Seq<char> {
        self.hanh.name_seq() + " "@ + so_vn(self.so as int) + " Cục"@
    }

    /// Tên đầy đủ, ví dụ "Thủy nhị Cục", "Hỏa lục Cục".
    pub fn name_vn(self) -> (r: String)
        ensures
            r@ == self.name_seq(),
    {
        let so = if self.so == 2 {
            "nhị"
        } else if self.so == 3 {
            "tam"
        } else if self.so == 4 {
            "tứ"
        } else if self.so == 5 {
            "ngũ"
        } else if self.so == 6 {
            "lục"
        } else {
            "?"
        };
        let mut s = String::from_str(self.hanh.name_vn());
        push_str(&mut s, " ");
        push_str(&mut s, so);
        push_str(&mut s, " Cục");
        s
    }
}

/// Hành thứ `i` của dãy Kim, Thủy, Hỏa, Thổ, Mộc (thứ tự các hành Nạp Âm trong
/// một hàng của bảng).
pub open spec fn nap_am_base(i: int) -> NguHanh {
    if i == 0 {
        NguHanh::Kim
    } else if i == 1 {
        NguHanh::Thuy
    } else if i == 2 {
        NguHanh::Hoa
    } else if i == 3 {
        NguHanh::Tho
    } else {
        NguHanh::Moc
    }
}

/// Nạp Âm của cặp Can–Chi. Chỉ các cặp cùng âm dương (tổng chỉ số chẵn) thuộc
/// vòng 60 Giáp Tý; mỗi hàng Chi đi qua 5 hành theo thứ tự Kim, Thủy, Hỏa, Thổ,
/// Mộc, hàng Tý/Sửu bắt đầu ở Kim, Dần/Mão ở Thủy, Thìn/Tỵ ở Hỏa, rồi lặp lại từ
/// Ngọ. Cặp không có thật (lệch âm dương) được quy về Thổ.
pub open spec fn spec_nap_am(chi: EarthlyBranch, can: HeavenlyStem) -> NguHanh {
    if (chi.idx() + can.idx()) % 2 == 1 {
        NguHanh::Tho
    } else {
        nap_am_base((((can.idx() / 2) + (chi.idx() / 2) % 3) % 5) as int)
    }
}

/// Số Cục của hành: Thủy 2, Mộc 3, Kim 4, Thổ 5, Hỏa 6.
pub open spec fn cuc_so_of(h: NguHanh) -> int {
    match h {
        NguHanh::Kim => 4,
        NguHanh::Moc => 3,
        NguHanh::Thuy => 2,
        NguHanh::Hoa => 6,
        NguHanh::Tho => 5,
    }
}

/// Can (1..10) của tháng đóng ở cung Mệnh, theo Can năm (Ngũ Hổ Độn).
pub open spec fn can_thang_menh_1(menh: EarthlyBranch, year_stem: HeavenlyStem) -> int {
    let g = ((year_stem.idx() + 1) * 2 + 1) % 10;
    let gieng = if g == 0 { 10 } else { g };
    let t = ((menh.idx() + 1 - 3) % 12 + gieng) % 10;
    if t == 0 { 10 } else { t }
}

/// Cục của lá số có cung Mệnh ở `menh` và Can năm `year_stem`.
pub open spec fn spec_tinh_cuc(menh: EarthlyBranch, year_stem: HeavenlyStem) -> Cuc {
    let hanh = spec_nap_am(menh, HeavenlyStem::at(can_thang_menh_1(menh, year_stem) - 1));
    Cuc { so: cuc_so_of(hanh) as u8, hanh }
}

/// Nạp Âm của cặp Can–Chi (cặp lệch âm dương quy về Thổ).
pub fn nap_am(chi: EarthlyBranch, can: HeavenlyStem) -> (r: NguHanh)
    ensures
        r == spec_nap_am(chi, can),
{
    let ci = chi.index();
    let si = can.index();
    if (ci + si) % 2 == 1 {
        return NguHanh::Tho;
    }
    let k = ((si / 2) + (ci / 2) % 3) % 5;
    if k == 0 {
        NguHanh::Kim
    } else if k == 1 {
        NguHanh::Thuy
    } else if k == 2 {
        NguHanh::Hoa
    } else if k == 3 {
        NguHanh::Tho
    } else {
        NguHanh::Moc
    }
}

/// Tính Cục từ cung Mệnh và Can năm sinh.
pub fn tinh_cuc(menh_branch: EarthlyBranch, year_stem: HeavenlyStem) -> (r: Cuc)
    ensures
        r == spec_tinh_cuc(menh_branch, year_stem),
        2 <= r.so <= 6,
{
    let can_nam_1 = year_stem.index() as i64 + 1;
    let g = rem_euclid_i64(can_nam_1 * 2 + 1, 10);
    let can_thang_gieng_1 = if g == 0 {
        10
    } else {
        g
    };
    let vi_tri_menh_1 = menh_branch.index() as i64 + 1;
    let term1 = rem_euclid_i64(vi_tri_menh_1 - 3, 12);
    let mut can_thang_menh = rem_euclid_i64(term1 + can_thang_gieng_1, 10);
    if can_thang_menh == 0 {
        can_thang_menh = 10;
    }
    let hanh = nap_am(menh_branch, stem_of((can_thang_menh - 1) as u8));
    let (so, hanh_cuc): (u8, NguHanh) = match hanh {
        NguHanh::Kim => (4, NguHanh::Kim),
        NguHanh::Moc => (3, NguHanh::Moc),
        NguHanh::Thuy => (2, NguHanh::Thuy),
        NguHanh::Hoa => (6, NguHanh::Hoa),
        NguHanh::Tho => (5, NguHanh::Tho),
    };
    Cuc { so, hanh: hanh_cuc }
}

/// Bảng Nạp Âm của vòng 60 Giáp Tý: hành của cặp thứ `k` (0..29), mỗi cặp gồm
/// hai Can Chi liền nhau — Giáp Tý, Ất Sửu: Hải Trung Kim; Bính Dần, Đinh Mão:
/// Lô Trung Hỏa; … ; Nhâm Tuất, Quý Hợi: Đại Hải Thủy.
pub open spec fn nap_am_60(k: int) -> NguHanh {
    seq![
        NguHanh::Kim, NguHanh::Hoa, NguHanh::Moc, NguHanh::Tho, NguHanh::Kim, NguHanh::Hoa,
        NguHanh::Thuy, NguHanh::Tho, NguHanh::Kim, NguHanh::Moc, NguHanh::Thuy, NguHanh::Tho,
        NguHanh::Hoa, NguHanh::Moc, NguHanh::Thuy, NguHanh::Kim, NguHanh::Hoa, NguHanh::Moc,
        NguHanh::Tho, NguHanh::Kim, NguHanh::Hoa, NguHanh::Thuy, NguHanh::Tho, NguHanh::Kim,
        NguHanh::Moc, NguHanh::Thuy, NguHanh::Tho, NguHanh::Hoa, NguHanh::Moc, NguHanh::Thuy,
    ][k]
}

/// Công thức Nạp Âm khớp bảng 60 Giáp Tý: Can Chi thứ `n` của vòng (Can `n mod
/// 10`, Chi `n mod 12`) có hành của cặp thứ `n / 2`.
pub proof fn lemma_nap_am_bang_60(n: int)
    requires
        0 <= n < 60,
    ensures
        spec_nap_am(EarthlyBranch::at(n % 12), HeavenlyStem::at(n % 10)) == nap_am_60(n / 2),
{
    if n == 0 {
    } else if n == 1 {
    } else if n == 2 {
    } else if n == 3 {
    } else if n == 4 {
    } else if n == 5 {
    } else if n == 6 {
    } else if n == 7 {
    } else if n == 8 {
    } else if n == 9 {
    } else if n == 10 {
    } else if n == 11 {
    } else if n == 12 {
    } else if n == 13 {
    } else if n == 14 {
    } else if n == 15 {
    } else if n == 16 {
    } else if n == 17 {
    } else if n == 18 {
    } else if n == 19 {
    } else if n == 20 {
    } else if n == 21 {
    } else if n == 22 {
    } else if n == 23 {
    } else if n == 24 {
    } else if n == 25 {
    } else if n == 26 {
    } else if n == 27 {
    } else if n == 28 {
    } else if n == 29 {
    } else if n == 30 {
    } else if n == 31 {
    } else if n == 32 {
    } else if n == 33 {
    } else if n == 34 {
    } else if n == 35 {
    } else if n == 36 {
    } else if n == 37 {
    } else if n == 38 {
    } else if n == 39 {
    } else if n == 40 {
    } else if n == 41 {
    } else if n == 42 {
    } else if n == 43 {
    } else if n == 44 {
    } else if n == 45 {
    } else if n == 46 {
    } else if n == 47 {
    } else if n == 48 {
    } else if n == 49 {
    } else if n == 50 {
    } else if n == 51 {
    } else if n == 52 {
    } else if n == 53 {
    } else if n == 54 {
    } else if n == 55 {
    } else if n == 56 {
    } else if n == 57 {
    } else if n == 58 {
    } else if n == 59 {
    }
}

/// Can tháng đóng ở cung Mệnh luôn cùng âm dương với Chi cung Mệnh.
proof fn lemma_can_thang_menh_cung_am_duong(menh: EarthlyBranch, year_stem: HeavenlyStem)
    ensures
        1 <= can_thang_menh_1(menh, year_stem) <= 10,
        (can_thang_menh_1(menh, year_stem) - 1 + menh.idx()) % 2 == 0,
{
    let m = menh.idx() as int;
    let ys = year_stem.idx() as int;
    let x = (ys + 1) * 2 + 1;
    let g = x % 10;
    assert(x == 2 * (ys + 1) + 1);
    assert(g % 2 == 1) by {
        assert(x == 10 * (x / 10) + g);
    }
    let u = (m + 1 - 3) % 12;
    assert(u % 2 == m % 2) by {
        assert(m - 2 == 12 * ((m - 2) / 12) + u);
    }
    let t = (u + g) % 10;
    assert(t % 2 != m % 2) by {
        assert(u + g == 10 * ((u + g) / 10) + t);
    }
}

/// Cặp Can `c`, Chi `h` cùng âm dương là Can Chi thứ `(6c − 5h) mod 60` của vòng
/// 60 Giáp Tý.
proof fn lemma_thu_tu_60(c: int, h: int)
    requires
        0 <= c < 10,
        0 <= h < 12,
        (c + h) % 2 == 0,
    ensures
        ({
            let n = (6 * c - 5 * h) % 60;
            &&& 0 <= n < 60
            &&& n % 10 == c
            &&& n % 12 == h
        }),
{
    let x = 6 * c - 5 * h;
    let k = (c - h) / 2;
    assert(c - h == 2 * k) by {
        assert(c + h == 2 * ((c + h) / 2));
    }
    assert(x == c + 10 * k);
    assert(x == h + 12 * k);
    let n = x % 60;
    let q = x / 60;
    assert(x == 60 * q + n);
    assert(n == c + 10 * (k - 6 * q));
    assert(n == h + 12 * (k - 5 * q));
    vstd::arithmetic::div_mod::lemma_mod_multiples_vanish(k - 6 * q, c, 10);
    vstd::arithmetic::div_mod::lemma_mod_multiples_vanish(k - 5 * q, h, 12);
    assert(10 * (k - 6 * q) + c == n);
    assert(12 * (k - 5 * q) + h == n);
}

/// Công thức Can tháng đóng ở cung Mệnh (theo chỉ số Chi `b`, Can năm `ys`)
/// cho đúng Can tháng âm `(b + 10) mod 12 + 1` theo Ngũ Hổ Độn.
#[verifier::spinoff_prover]
#[verifier::rlimit(50)]
proof fn lemma_can_thang_so(b: int, ys: int)
    requires
        0 <= b < 12,
        0 <= ys < 10,
    ensures
        ({
            let g = ((ys + 1) * 2 + 1) % 10;
            let gieng = if g == 0 { 10 } else { g };
            let t = ((b + 1 - 3) % 12 + gieng) % 10;
            let c1 = if t == 0 { 10 } else { t };
            c1 - 1 == ((((ys % 5) * 2 + 2) % 10) + ((b + 10) % 12 + 1) - 1) % 10
        }),
{
    if ys == 0 {
        if b == 0 {} else if b == 1 {} else if b == 2 {} else if b == 3 {} else if b == 4 {} else if b == 5 {} else if b == 6 {} else if b == 7 {} else if b == 8 {} else if b == 9 {} else if b == 10 {} else if b == 11 {}
    } else if ys == 1 {
        if b == 0 {} else if b == 1 {} else if b == 2 {} else if b == 3 {} else if b == 4 {} else if b == 5 {} else if b == 6 {} else if b == 7 {} else if b == 8 {} else if b == 9 {} else if b == 10 {} else if b == 11 {}
    } else if ys == 2 {
        if b == 0 {} else if b == 1 {} else if b == 2 {} else if b == 3 {} else if b == 4 {} else if b == 5 {} else if b == 6 {} else if b == 7 {} else if b == 8 {} else if b == 9 {} else if b == 10 {} else if b == 11 {}
    } else if ys == 3 {
        if b == 0 {} else if b == 1 {} else if b == 2 {} else if b == 3 {} else if b == 4 {} else if b == 5 {} else if b == 6 {} else if b == 7 {} else if b == 8 {} else if b == 9 {} else if b == 10 {} else if b == 11 {}
    } else if ys == 4 {
        if b == 0 {} else if b == 1 {} else if b == 2 {} else if b == 3 {} else if b == 4 {} else if b == 5 {} else if b == 6 {} else if b == 7 {} else if b == 8 {} else if b == 9 {} else if b == 10 {} else if b == 11 {}
    } else if ys == 5 {
        if b == 0 {} else if b == 1 {} else if b == 2 {} else if b == 3 {} else if b == 4 {} else if b == 5 {} else if b == 6 {} else if b == 7 {} else if b == 8 {} else if b == 9 {} else if b == 10 {} else if b == 11 {}
    } else if ys == 6 {
        if b == 0 {} else if b == 1 {} else if b == 2 {} else if b == 3 {} else if b == 4 {} else if b == 5 {} else if b == 6 {} else if b == 7 {} else if b == 8 {} else if b == 9 {} else if b == 10 {} else if b == 11 {}
    } else if ys == 7 {
        if b == 0 {} else if b == 1 {} else if b == 2 {} else if b == 3 {} else if b == 4 {} else if b == 5 {} else if b == 6 {} else if b == 7 {} else if b == 8 {} else if b == 9 {} else if b == 10 {} else if b == 11 {}
    } else if ys == 8 {
        if b == 0 {} else if b == 1 {} else if b == 2 {} else if b == 3 {} else if b == 4 {} else if b == 5 {} else if b == 6 {} else if b == 7 {} else if b == 8 {} else if b == 9 {} else if b == 10 {} else if b == 11 {}
    } else if ys == 9 {
        if b == 0 {} else if b == 1 {} else if b == 2 {} else if b == 3 {} else if b == 4 {} else if b == 5 {} else if b == 6 {} else if b == 7 {} else if b == 8 {} else if b == 9 {} else if b == 10 {} else if b == 11 {}
    }
}

/// Can tháng đóng ở cung Mệnh đúng là Can của tháng âm có Chi trùng Chi cung
/// Mệnh (tháng `(Chi + 10) mod 12 + 1`, Ngũ Hổ Độn theo Can năm).
pub proof fn lemma_can_thang_menh_la_can_thang(menh: EarthlyBranch, year_stem: HeavenlyStem)
    ensures
        ({
            let thang = spec_month_can_chi(year_stem, ((menh.idx() + 10) % 12 + 1) as int);
            &&& thang.branch == menh
            &&& thang.stem.idx() == can_thang_menh_1(menh, year_stem) - 1
        }),
{
    let b = menh.idx() as int;
    let ys = year_stem.idx() as int;
    lemma_can_thang_so(b, ys);
    let v = ((((ys % 5) * 2 + 2) % 10) + ((b + 10) % 12 + 1) - 1) % 10;
    crate::canchi::lemma_stem_at_idx(v, HeavenlyStem::Giap);
    crate::canchi::lemma_branch_at_idx(b, menh);
    assert(((b + 10) % 12 + 1 + 1) % 12 == b) by {
        if b >= 2 {
            assert((b + 10) % 12 == b - 2);
        } else {
            assert((b + 10) % 12 == b + 10);
        }
    }
}

/// Cục của lá số lấy đúng theo bảng Nạp Âm: cặp (Can tháng đóng ở cung Mệnh, Chi
/// cung Mệnh) luôn cùng âm dương nên là Can Chi thứ `n = (6·Can − 5·Chi) mod 60`
/// của vòng 60 Giáp Tý, hành Cục là hành Nạp Âm của cặp đó và số Cục theo hành.
pub proof fn lemma_cuc_theo_bang_nap_am(menh: EarthlyBranch, year_stem: HeavenlyStem)
    ensures
        ({
            let can = can_thang_menh_1(menh, year_stem) - 1;
            let n = (6 * can - 5 * menh.idx()) % 60;
            &&& 0 <= can < 10
            &&& can == spec_month_can_chi(year_stem, ((menh.idx() + 10) % 12 + 1) as int).stem.idx()
            &&& (can + menh.idx()) % 2 == 0
            &&& n % 10 == can
            &&& n % 12 == menh.idx()
            &&& spec_tinh_cuc(menh, year_stem).hanh == nap_am_60(n / 2)
            &&& spec_tinh_cuc(menh, year_stem).so == cuc_so_of(nap_am_60(n / 2))
        }),
{
    lemma_can_thang_menh_cung_am_duong(menh, year_stem);
    lemma_can_thang_menh_la_can_thang(menh, year_stem);
    let can = can_thang_menh_1(menh, year_stem) - 1;
    let m = menh.idx() as int;
    lemma_thu_tu_60(can, m);
    let n = (6 * can - 5 * m) % 60;
    lemma_nap_am_bang_60(n);
    crate::canchi::lemma_branch_at_idx(m, menh);
    crate::canchi::lemma_stem_at_idx(can, HeavenlyStem::Giap);
}

/// Số Cục theo hành: Thủy nhị Cục, Mộc tam Cục, Kim tứ Cục, Thổ ngũ Cục, Hỏa lục
/// Cục.
pub proof fn lemma_so_cuc_theo_hanh(menh: EarthlyBranch, year_stem: HeavenlyStem)
    ensures
        spec_tinh_cuc(menh, year_stem).so == match spec_tinh_cuc(menh, year_stem).hanh {
            NguHanh::Thuy => 2u8,
            NguHanh::Moc => 3u8,
            NguHanh::Kim => 4u8,
            NguHanh::Tho => 5u8,
            NguHanh::Hoa => 6u8,
        },
{
}

} // verus!
