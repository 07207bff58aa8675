//! Tính chất của mọi lá số Tử Vi do `lap_la_so` lập ra.

use vstd::prelude::*;

use crate::canchi::{EarthlyBranch, HeavenlyStem};
use crate::lich::{BirthMoment, LunarDate};
use crate::tuvi::chart::lemma_index_of;
use crate::tuvi::cuc::spec_tinh_cuc;
use crate::tuvi::lap::{la_so_is, menh_idx, ts_placements, ts_reverse};
use crate::tuvi::stars::chinh_tinh::chinh_tinh_placements;
use crate::tuvi::stars::phu_tinh::phu_tinh_placements;
use crate::tuvi::stars::sao::Sao;
use crate::tuvi::truong_sinh::{lemma_truong_sinh_visits_all, spec_truong_sinh_branch, truong_sinh_index_of, TruongSinhState};
use crate::tuvi::types::{placed_at, Gender, TuViChart};

verus! {

/// Một phần tử nằm trong danh sách đóng ở cung `b` đúng khi nó được an vào `b`.
pub proof fn lemma_placed_at_contains<T>(ps: Seq<(T, EarthlyBranch)>, b: EarthlyBranch, x: T)
    ensures
        placed_at(ps, b).contains(x) <==> exists|k: int|
            0 <= k < ps.len() && #[trigger] ps[k] == (x, b),
    decreases ps.len(),
{
    if ps.len() > 0 {
        let p = ps.drop_last();
        lemma_placed_at_contains(p, b, x);
        if placed_at(ps, b).contains(x) {
            if ps.last().1 == b && ps.last().0 == x {
                assert(ps[ps.len() - 1] == (x, b));
            } else {
                if ps.last().1 == b {
                    let i = choose|i: int| 0 <= i < placed_at(ps, b).len() && placed_at(ps, b)[i] == x;
                    assert(placed_at(p, b)[i] == x);
                }
                let k = choose|k: int| 0 <= k < p.len() && #[trigger] p[k] == (x, b);
                assert(ps[k] == (x, b));
            }
        }
        if exists|k: int| 0 <= k < ps.len() && #[trigger] ps[k] == (x, b) {
            let k = choose|k: int| 0 <= k < ps.len() && #[trigger] ps[k] == (x, b);
            if k == ps.len() - 1 {
                assert(placed_at(ps, b) == placed_at(p, b).push(x));
                assert(placed_at(ps, b)[placed_at(p, b).len() as int] == x);
            } else {
                assert(p[k] == (x, b));
                let i = choose|i: int| 0 <= i < placed_at(p, b).len() && placed_at(p, b)[i] == x;
                if ps.last().1 == b {
                    assert(placed_at(ps, b)[i] == x);
                }
            }
        }
    }
}

/// Cung Mệnh là cung đầu tiên và là cung duy nhất được đánh dấu Mệnh; cung an
/// Thân là cung duy nhất được đánh dấu Thân.
pub proof fn lemma_one_menh_one_than(c: TuViChart, birth: BirthMoment, lunar: LunarDate, gender: Gender)
    requires
        la_so_is(c, birth, lunar, gender),
    ensures
        forall|i: int| 0 <= i < 12 ==> (#[trigger] c.palaces@[i].is_menh <==> i == 0),
        c.palaces@[0].branch == c.menh_branch,
        0 <= c.index_of(c.than_branch) < 12,
        forall|i: int|
            0 <= i < 12 ==> (#[trigger] c.palaces@[i].is_than <==> i == c.index_of(c.than_branch)),
{
    lemma_index_of(c, c.than_branch);
    let m = menh_idx(lunar.month as int, birth.hour as int);
    assert(c.palaces@[0].branch == EarthlyBranch::at((m + 0) % 12));
    crate::modulo::lemma_mod12_near(m);
    assert forall|i: int| 0 <= i < 12 implies (#[trigger] c.palaces@[i].is_than <==> i == c.index_of(
        c.than_branch,
    )) by {
        assert(c.palaces@[i].is_than == (c.palaces@[i].branch == c.than_branch));
    }
}

/// Lá số Tử Vi chỉ phụ thuộc ngày Âm lịch, giờ sinh và giới tính: hai lá số
/// lập cho hai ngày dương khác nhau (chẳng hạn hai bên một mốc tiết khí) nhưng
/// cùng ngày Âm, cùng giờ, cùng giới tính có cùng cục, cùng cung Mệnh, cung Thân
/// và từng cung mang cùng sao, cùng trạng thái Trường Sinh.
pub proof fn lemma_la_so_chi_theo_ngay_am(
    c1: TuViChart,
    c2: TuViChart,
    b1: BirthMoment,
    b2: BirthMoment,
    lunar: LunarDate,
    gender: Gender,
)
    requires
        la_so_is(c1, b1, lunar, gender),
        la_so_is(c2, b2, lunar, gender),
        b1.hour == b2.hour,
    ensures
        c1.cuc == c2.cuc,
        c1.menh_branch == c2.menh_branch,
        c1.than_branch == c2.than_branch,
        c1.palaces@.len() == c2.palaces@.len(),
        forall|i: int|
            0 <= i < c1.palaces@.len() ==> {
                &&& (#[trigger] c1.palaces@[i]).name == c2.palaces@[i].name
                &&& c1.palaces@[i].branch == c2.palaces@[i].branch
                &&& c1.palaces@[i].is_menh == c2.palaces@[i].is_menh
                &&& c1.palaces@[i].is_than == c2.palaces@[i].is_than
                &&& c1.palaces@[i].stars@ == c2.palaces@[i].stars@
                &&& c1.palaces@[i].truong_sinh@ == c2.palaces@[i].truong_sinh@
            },
{
    assert forall|i: int| 0 <= i < c1.palaces@.len() implies {
        &&& (#[trigger] c1.palaces@[i]).name == c2.palaces@[i].name
        &&& c1.palaces@[i].branch == c2.palaces@[i].branch
        &&& c1.palaces@[i].is_menh == c2.palaces@[i].is_menh
        &&& c1.palaces@[i].is_than == c2.palaces@[i].is_than
        &&& c1.palaces@[i].stars@ == c2.palaces@[i].stars@
        &&& c1.palaces@[i].truong_sinh@ == c2.palaces@[i].truong_sinh@
    } by {
        let _ = c2.palaces@[i];
    }
}

/// Danh sách (sao, cung) của cả 27 sao của lá số: 14 chính tinh rồi 13 phụ tinh.
pub open spec fn all_star_placements(birth: BirthMoment, lunar: LunarDate, gender: Gender) -> Seq<(Sao, EarthlyBranch)> {
    let m = menh_idx(lunar.month as int, birth.hour as int);
    let cuc = spec_tinh_cuc(EarthlyBranch::at(m), HeavenlyStem::at((lunar.year + 6) % 10));
    chinh_tinh_placements(cuc.so as int, lunar.day as int) + phu_tinh_placements(
        lunar.month as int,
        birth.hour as int,
        lunar.year as int,
        gender,
    )
}

/// Trong danh sách 27 vị trí, sao thứ `i` có thứ tự an `i`: 27 sao khác nhau.
pub proof fn lemma_star_order(birth: BirthMoment, lunar: LunarDate, gender: Gender)
    ensures
        all_star_placements(birth, lunar, gender).len() == 27,
        forall|i: int|
            0 <= i < 27 ==> #[trigger] all_star_placements(birth, lunar, gender)[i].0.placement_pos() == i,
{
    let m = menh_idx(lunar.month as int, birth.hour as int);
    let cuc = spec_tinh_cuc(EarthlyBranch::at(m), HeavenlyStem::at((lunar.year + 6) % 10));
    let chinh = chinh_tinh_placements(cuc.so as int, lunar.day as int);
    let phu = phu_tinh_placements(lunar.month as int, birth.hour as int, lunar.year as int, gender);
    crate::tuvi::stars::chinh_tinh::lemma_chinh_tinh_shape(cuc.so as int, lunar.day as int);
    crate::tuvi::stars::phu_tinh::lemma_phu_tinh_shape(
        lunar.month as int,
        birth.hour as int,
        lunar.year as int,
        gender,
    );
    let all = all_star_placements(birth, lunar, gender);
    assert forall|i: int| 0 <= i < 27 implies #[trigger] all[i].0.placement_pos() == i by {
        if i < 14 {
            assert(all[i] == chinh[i]);
        } else {
            assert(all[i] == phu[i - 14]);
        }
    }
}

/// Nối hai danh sách vị trí rồi lọc theo cung bằng lọc từng danh sách rồi nối.
pub proof fn lemma_placed_at_concat<T>(a: Seq<(T, EarthlyBranch)>, b: Seq<(T, EarthlyBranch)>, br: EarthlyBranch)
    ensures
        placed_at(a + b, br) == placed_at(a, br) + placed_at(b, br),
    decreases b.len(),
{
    if b.len() == 0 {
        assert(a + b =~= a);
        assert(placed_at(a, br) + placed_at(b, br) =~= placed_at(a, br));
    } else {
        assert((a + b).drop_last() =~= a + b.drop_last());
        assert((a + b).last() == b.last());
        lemma_placed_at_concat(a, b.drop_last(), br);
        if b.last().1 == br {
            assert(placed_at(a, br) + placed_at(b.drop_last(), br).push(b.last().0) =~= (placed_at(a, br)
                + placed_at(b.drop_last(), br)).push(b.last().0));
        }
    }
}

/// Danh sách vị trí có phần tử đôi một khác nhau thì mỗi cung nhận các phần tử
/// không lặp.
pub proof fn lemma_placed_at_no_dup<T>(ps: Seq<(T, EarthlyBranch)>, br: EarthlyBranch)
    requires
        forall|i: int, j: int| 0 <= i < ps.len() && 0 <= j < ps.len() && i != j ==> #[trigger] ps[i].0
            != #[trigger] ps[j].0,
    ensures
        placed_at(ps, br).no_duplicates(),
    decreases ps.len(),
{
    if ps.len() > 0 {
        let p = ps.drop_last();
        assert forall|i: int, j: int| 0 <= i < p.len() && 0 <= j < p.len() && i != j implies #[trigger] p[i].0
            != #[trigger] p[j].0 by {
            assert(p[i] == ps[i] && p[j] == ps[j]);
        }
        lemma_placed_at_no_dup(p, br);
        if ps.last().1 == br {
            let x = ps.last().0;
            lemma_placed_at_contains(p, br, x);
            if placed_at(p, br).contains(x) {
                let k = choose|k: int| 0 <= k < p.len() && #[trigger] p[k] == (x, br);
                assert(ps[k] == p[k]);
                assert(ps[ps.len() - 1].0 == x);
                assert(false);
            }
            let q = placed_at(ps, br);
            assert(q == placed_at(p, br).push(x));
            assert forall|i: int, j: int| 0 <= i < q.len() && 0 <= j < q.len() && i != j implies q[i]
                != q[j] by {
                if i < q.len() - 1 && j < q.len() - 1 {
                    assert(q[i] == placed_at(p, br)[i] && q[j] == placed_at(p, br)[j]);
                } else if i == q.len() - 1 {
                    assert(q[j] == placed_at(p, br)[j]);
                } else {
                    assert(q[i] == placed_at(p, br)[i]);
                }
            }
        }
    }
}

/// Không cung nào chứa một sao hai lần: cùng với việc mỗi sao đứng ở đúng một
/// cung, mỗi sao trong 27 sao xuất hiện đúng một lần trên cả lá số.
pub proof fn lemma_cung_khong_lap_sao(
    c: TuViChart,
    birth: BirthMoment,
    lunar: LunarDate,
    gender: Gender,
    j: int,
)
    requires
        la_so_is(c, birth, lunar, gender),
        0 <= j < 12,
    ensures
        c.palaces@[j].stars@.no_duplicates(),
{
    let m = menh_idx(lunar.month as int, birth.hour as int);
    let cuc = spec_tinh_cuc(EarthlyBranch::at(m), HeavenlyStem::at((lunar.year + 6) % 10));
    let chinh = chinh_tinh_placements(cuc.so as int, lunar.day as int);
    let phu = phu_tinh_placements(lunar.month as int, birth.hour as int, lunar.year as int, gender);
    let all = all_star_placements(birth, lunar, gender);
    lemma_star_order(birth, lunar, gender);
    assert(all == chinh + phu);
    assert forall|i: int, k: int| 0 <= i < all.len() && 0 <= k < all.len() && i != k implies #[trigger] all[i].0
        != #[trigger] all[k].0 by {
        assert(all[i].0.placement_pos() == i);
        assert(all[k].0.placement_pos() == k);
    }
    let br = c.palaces@[j].branch;
    lemma_placed_at_no_dup(all, br);
    lemma_placed_at_concat(chinh, phu, br);
}

/// Mỗi sao trong 27 sao của lá số đứng ở đúng một cung: cung có Chi là vị trí an
/// của nó, và không ở cung nào khác (nên lá số có đủ 14 chính tinh và 13 phụ tinh).
#[verifier::spinoff_prover]
#[verifier::rlimit(50)]
pub proof fn lemma_each_star_in_one_palace(
    c: TuViChart,
    birth: BirthMoment,
    lunar: LunarDate,
    gender: Gender,
    k: int,
)
    requires
        la_so_is(c, birth, lunar, gender),
        0 <= k < 27,
    ensures
        ({
            let all = all_star_placements(birth, lunar, gender);
            let s = all[k].0;
            let b = all[k].1;
            &&& all.len() == 27
                        &&& (k < 14 <==> s.spec_category() == crate::tuvi::stars::sao::SaoCategory::ChinhTinh)
            &&& 0 <= c.index_of(b) < 12
            &&& c.palaces@[c.index_of(b)].stars@.contains(s)
            &&& forall|j: int|
                0 <= j < 12 && j != c.index_of(b) ==> !(#[trigger] c.palaces@[j].stars@).contains(s)
        }),
{
    let m = menh_idx(lunar.month as int, birth.hour as int);
    let cuc = spec_tinh_cuc(EarthlyBranch::at(m), HeavenlyStem::at((lunar.year + 6) % 10));
    let chinh = chinh_tinh_placements(cuc.so as int, lunar.day as int);
    let phu = phu_tinh_placements(lunar.month as int, birth.hour as int, lunar.year as int, gender);
    let all = all_star_placements(birth, lunar, gender);
    lemma_star_order(birth, lunar, gender);
    crate::tuvi::stars::chinh_tinh::lemma_chinh_tinh_shape(cuc.so as int, lunar.day as int);
    crate::tuvi::stars::phu_tinh::lemma_phu_tinh_shape(
        lunar.month as int,
        birth.hour as int,
        lunar.year as int,
        gender,
    );
    assert(all =~= chinh + phu);
    let s = all[k].0;
    let b = all[k].1;
    s.lemma_category_by_placement();
    // Mỗi sao xuất hiện đúng một lần trong danh sách.
    assert forall|i: int| 0 <= i < 27 && i != k implies #[trigger] all[i].0 != s by {
        assert(all[i].0.placement_pos() == i);
        assert(all[k].0.placement_pos() == k);
    }
    lemma_index_of(c, b);
    assert forall|j: int| 0 <= j < 12 implies ((#[trigger] c.palaces@[j]).stars@.contains(s)
        <==> c.palaces@[j].branch == b) by {
        let pb = c.palaces@[j].branch;
        let a = placed_at(chinh, pb);
        let bb = placed_at(phu, pb);
        let st = c.palaces@[j].stars@;
        lemma_placed_at_contains(chinh, pb, s);
        lemma_placed_at_contains(phu, pb, s);
        assert(st == a + bb);
        if pb == b {
            if k < 14 {
                assert(all[k] == chinh[k]);
                assert(chinh[k] == (s, b));
                assert(a.contains(s));
                let i = choose|i: int| 0 <= i < a.len() && a[i] == s;
                assert(st[i] == s);
            } else {
                assert(all[k] == phu[k - 14]);
                assert(phu[k - 14] == (s, b));
                assert(bb.contains(s));
                let i = choose|i: int| 0 <= i < bb.len() && bb[i] == s;
                assert(st[a.len() + i] == s);
            }
            assert(st.contains(s));
        } else {
            if st.contains(s) {
                let i = choose|i: int| 0 <= i < st.len() && st[i] == s;
                if i < a.len() {
                    assert(a[i] == s);
                    assert(a.contains(s));
                    let q = choose|q: int| 0 <= q < chinh.len() && #[trigger] chinh[q] == (s, pb);
                    assert(all[q] == chinh[q]);
                    assert(all[q].0 == s);
                    assert(false);
                } else {
                    assert(bb[i - a.len()] == s);
                    assert(bb.contains(s));
                    let q = choose|q: int| 0 <= q < phu.len() && #[trigger] phu[q] == (s, pb);
                    assert(all[q + 14] == phu[q]);
                    assert(all[q + 14].0 == s);
                    assert(false);
                }
            }
        }
    }
}

/// Mỗi cung mang đúng một trạng thái của vòng Trường Sinh.
pub proof fn lemma_one_truong_sinh_per_palace(
    c: TuViChart,
    birth: BirthMoment,
    lunar: LunarDate,
    gender: Gender,
    j: int,
)
    requires
        la_so_is(c, birth, lunar, gender),
        0 <= j < 12,
    ensures
        c.palaces@[j].truong_sinh@.len() == 1,
        c.palaces@[j].truong_sinh@[0] == TruongSinhState::at(
            truong_sinh_index_of(
                c.cuc.so as int,
                ts_reverse(gender, lunar.year as int),
                c.palaces@[j].branch,
            ),
        ),
{
    let rev = ts_reverse(gender, lunar.year as int);
    let so = c.cuc.so as int;
    let ts = ts_placements(so, rev);
    let b = c.palaces@[j].branch;
    lemma_truong_sinh_visits_all(so, rev);
    let t = truong_sinh_index_of(so, rev, b);
    lemma_placed_at_single(ts, b, t);
}

/// Mười hai cung mang mười hai trạng thái Trường Sinh khác nhau: mỗi trạng thái
/// của vòng đứng ở đúng một cung.
#[verifier::spinoff_prover]
#[verifier::rlimit(50)]
pub proof fn lemma_truong_sinh_khac_nhau(
    c: TuViChart,
    birth: BirthMoment,
    lunar: LunarDate,
    gender: Gender,
    i: int,
    j: int,
)
    requires
        la_so_is(c, birth, lunar, gender),
        0 <= i < 12,
        0 <= j < 12,
        i != j,
    ensures
        c.palaces@[i].truong_sinh@[0] != c.palaces@[j].truong_sinh@[0],
{
    lemma_one_truong_sinh_per_palace(c, birth, lunar, gender, i);
    lemma_one_truong_sinh_per_palace(c, birth, lunar, gender, j);
    crate::tuvi::chart::lemma_wf_cung_rieng(c);
    let rev = ts_reverse(gender, lunar.year as int);
    let so = c.cuc.so as int;
    lemma_truong_sinh_visits_all(so, rev);
    let bi = c.palaces@[i].branch;
    let bj = c.palaces@[j].branch;
    assert(bi != bj);
    let ti = truong_sinh_index_of(so, rev, bi);
    let tj = truong_sinh_index_of(so, rev, bj);
    assert(0 <= ti < 12 && 0 <= tj < 12);
    assert(ti != tj);
    assert(TruongSinhState::at(ti).idx() == ti);
    assert(TruongSinhState::at(tj).idx() == tj);
}

/// Nếu đúng một vị trí `t` của danh sách đóng ở cung `b` thì danh sách ở `b` chỉ
/// gồm phần tử đó.
pub proof fn lemma_placed_at_single<T>(ps: Seq<(T, EarthlyBranch)>, b: EarthlyBranch, t: int)
    requires
        0 <= t < ps.len(),
        ps[t].1 == b,
        forall|i: int| 0 <= i < ps.len() && i != t ==> (#[trigger] ps[i]).1 != b,
    ensures
        placed_at(ps, b) == seq![ps[t].0],
    decreases ps.len(),
{
    let p = ps.drop_last();
    if t == ps.len() - 1 {
        lemma_placed_at_none(p, b);
        assert(placed_at(ps, b) =~= seq![ps[t].0]);
    } else {
        assert forall|i: int| 0 <= i < p.len() && i != t implies (#[trigger] p[i]).1 != b by {
            assert(p[i] == ps[i]);
        }
        lemma_placed_at_single(p, b, t);
    }
}

/// Danh sách không có vị trí nào ở cung `b` thì không đóng gì ở `b`.
pub proof fn lemma_placed_at_none<T>(ps: Seq<(T, EarthlyBranch)>, b: EarthlyBranch)
    requires
        forall|i: int| 0 <= i < ps.len() ==> (#[trigger] ps[i]).1 != b,
    ensures
        placed_at(ps, b) == Seq::<T>::empty(),
    decreases ps.len(),
{
    if ps.len() > 0 {
        let p = ps.drop_last();
        assert forall|i: int| 0 <= i < p.len() implies (#[trigger] p[i]).1 != b by {
            assert(p[i] == ps[i]);
        }
        lemma_placed_at_none(p, b);
    }
}

/// Chỉ số cung Mệnh, cung Thân theo tháng âm và giờ sinh.
#[verifier::spinoff_prover]
proof fn lemma_chi_so_menh_than(month: int, hour: int, year: int)
    requires
        0 <= hour <= 23,
    ensures
        menh_idx(month, hour) == (month + 1 - seq![0int, 1, 1, 2, 2, 3, 3, 4, 4, 5, 5, 6, 6, 7, 7, 8, 8, 9, 9, 10, 10, 11, 11, 0][hour]) % 12,
        crate::tuvi::lap::than_idx(month, hour) == (month + 1 + seq![0int, 1, 1, 2, 2, 3, 3, 4, 4, 5, 5, 6, 6, 7, 7, 8, 8, 9, 9, 10, 10, 11, 11, 0][hour]) % 12,
        ((year + 8) % 12) % 2 == year % 2,
{
    crate::canchi::lemma_bang_can_chi_gio(HeavenlyStem::Giap, hour);
    let r = (year + 8) % 12;
    let q = (year + 8) / 12;
    assert(year + 8 == 12 * q + r);
    assert(year == 2 * (6 * q - 4) + r);
    vstd::arithmetic::div_mod::lemma_mod_multiples_vanish(6 * q - 4, r, 2);
}

/// Cung Mệnh và cung Thân: từ Dần đếm thuận tới tháng sinh âm, rồi nghịch (Mệnh)
/// hoặc thuận (Thân) theo Chi giờ sinh (giờ Tý gồm 23h và 0h). Vòng Trường Sinh
/// đi thuận với nam sinh năm dương (năm chẵn, như Giáp Tý 1984) và nữ sinh năm
/// âm, đi nghịch với hai trường hợp còn lại.
#[verifier::spinoff_prover]
pub proof fn lemma_menh_than_va_chieu_truong_sinh(
    c: TuViChart,
    birth: BirthMoment,
    lunar: LunarDate,
    gender: Gender,
)
    requires
        la_so_is(c, birth, lunar, gender),
        birth.hour <= 23,
    ensures
        c.menh_branch.idx() == (lunar.month + 1 - seq![0int, 1, 1, 2, 2, 3, 3, 4, 4, 5, 5, 6, 6, 7, 7, 8, 8, 9, 9, 10, 10, 11, 11, 0][birth.hour as int]) % 12,
        c.than_branch.idx() == (lunar.month + 1 + seq![0int, 1, 1, 2, 2, 3, 3, 4, 4, 5, 5, 6, 6, 7, 7, 8, 8, 9, 9, 10, 10, 11, 11, 0][birth.hour as int]) % 12,
        ts_reverse(gender, lunar.year as int) <==> ((gender == Gender::Nam) != (lunar.year % 2 == 0)),
{
    lemma_chi_so_menh_than(lunar.month as int, birth.hour as int, lunar.year as int);
    let m = menh_idx(lunar.month as int, birth.hour as int);
    let t = crate::tuvi::lap::than_idx(lunar.month as int, birth.hour as int);
    assert(c.menh_branch == EarthlyBranch::at(m));
    assert(c.than_branch == EarthlyBranch::at(t));
    crate::canchi::lemma_branch_at_idx(m, c.menh_branch);
    crate::canchi::lemma_branch_at_idx(t, c.than_branch);
}

} // verus!
