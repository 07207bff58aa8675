//! Lập lá số Bát Tự (Tứ Trụ) từ ngày giờ sinh và các mốc tiết khí.
//!
//! - Trụ Năm theo năm Bát Tự: đổi năm ở Lập Xuân (315°), không phải ở Tết.
//! - Trụ Tháng theo tháng tiết khí (12 tiết), không phải tháng âm lịch.
//! - Trụ Ngày theo Julian Day; trụ Giờ theo Ngũ Thử Độn Thời.
//! - Thập Thần cho Can của trụ Năm, Tháng, Giờ (trụ Ngày là Nhật Chủ) và cho
//!   mọi Tàng Can; thống kê Ngũ Hành chính của 8 chữ.
//!
//! Mốc Lập Xuân và 12 mốc tiết là kết quả tính thiên văn bằng số thực, nằm ngoài
//! thư viện và được truyền vào dưới dạng JD.

use vstd::prelude::*;

use crate::bat_tu::hidden_stems::{hidden_stems, spec_hidden_stems};
use crate::bat_tu::thap_than::{spec_ten_god_of, ten_god_of, TenGod};
use crate::bat_tu::types::{BatTuChart, BatTuError, NguHanhCount, Pillar};
use crate::canchi::{
    nguhanh_of_branch, nguhanh_of_stem, spec_day_can_chi, spec_hour_can_chi, spec_month_can_chi,
    spec_nguhanh_of_branch, spec_nguhanh_of_stem, spec_year_can_chi, CanChi, EarthlyBranch,
    HeavenlyStem, NguHanh,
};
use crate::lich::{
    check_range, day_can_chi, hour_can_chi, in_range, is_invalid_with, is_out_of_range_with,
    month_can_chi, msg_bad_hour, msg_out_of_range, year_can_chi, BirthMoment, LunarError,
};
use crate::tuvi::types::Gender;

verus! {

// ===========================================================================
// Năm và tháng Bát Tự
// ===========================================================================

/// Năm Bát Tự của ngày JD `birth_jd` thuộc năm dương `year`: trước Lập Xuân
/// năm đó là năm trước, từ Lập Xuân năm sau là năm sau.
pub open spec fn spec_nam_bat_tu(year: int, birth_jd: int, lap_xuan_curr: int, lap_xuan_next: int) -> int {
    if birth_jd < lap_xuan_curr {
        year - 1
    } else if birth_jd >= lap_xuan_next {
        year + 1
    } else {
        year
    }
}

/// Chỉ số (0..11) của tiết cuối cùng trong `n` tiết đầu mà ngày `birth_jd` đã
/// tới; 0 nếu chưa tới tiết nào.
pub open spec fn spec_thang_bat_tu(birth_jd: int, jds: Seq<i64>, n: int) -> int
    decreases n,
{
    if n <= 0 {
        0
    } else if birth_jd >= jds[n - 1] {
        n - 1
    } else {
        spec_thang_bat_tu(birth_jd, jds, n - 1)
    }
}

/// Năm Bát Tự (đổi ở Lập Xuân).
pub fn nam_bat_tu(year: i32, birth_jd: i64, lap_xuan_curr: i64, lap_xuan_next: i64) -> (r: i32)
    requires
        i32::MIN < year < i32::MAX,
    ensures
        r == spec_nam_bat_tu(year as int, birth_jd as int, lap_xuan_curr as int, lap_xuan_next as int),
{
    if birth_jd < lap_xuan_curr {
        year - 1
    } else if birth_jd >= lap_xuan_next {
        year + 1
    } else {
        year
    }
}

/// Chỉ số tháng Bát Tự (0 = tháng Dần … 11 = tháng Sửu): tiết cuối cùng trong
/// 12 tiết của năm Bát Tự mà ngày sinh đã tới.
pub fn thang_bat_tu(birth_jd: i64, tiet_jds: &[i64; 12]) -> (r: u8)
    ensures
        r == spec_thang_bat_tu(birth_jd as int, tiet_jds@, 12),
        r < 12,
{
    let mut n: usize = 12;
    while n > 0 && !(birth_jd >= tiet_jds[n - 1])
        invariant
            n <= 12,
            tiet_jds@.len() == 12,
            spec_thang_bat_tu(birth_jd as int, tiet_jds@, n as int) == spec_thang_bat_tu(
                birth_jd as int,
                tiet_jds@,
                12,
            ),
        decreases n,
    {
        n = n - 1;
    }
    if n == 0 {
        0
    } else {
        (n - 1) as u8
    }
}

// ===========================================================================
// Trụ, Tàng Can, Ngũ Hành
// ===========================================================================

/// Tàng Can của Chi `b` kèm Thập Thần so với Nhật Chủ `nhat`.
pub open spec fn spec_hidden_with_tg(b: EarthlyBranch, nhat: HeavenlyStem) -> Seq<(HeavenlyStem, TenGod)> {
    spec_hidden_stems(b).map_values(|s: HeavenlyStem| (s, spec_ten_god_of(nhat, s)))
}

/// Trụ `p` đúng là trụ Can–Chi `cc` so với Nhật Chủ `nhat`; `is_day` cho trụ Ngày
/// (không có Thập Thần của Thiên Can).
pub open spec fn pillar_is(p: Pillar, cc: CanChi, nhat: HeavenlyStem, is_day: bool) -> bool {
    &&& p.can_chi == cc
    &&& p.ten_god == (if is_day {
        None
    } else {
        Some(spec_ten_god_of(nhat, cc.stem))
    })
    &&& p.hidden_stems@ == spec_hidden_with_tg(cc.branch, nhat)
}

/// Tàng Can của Chi kèm Thập Thần so với Nhật Chủ.
pub fn hidden_stems_with_tg(branch: EarthlyBranch, nhat_chu: HeavenlyStem) -> (r: Vec<(HeavenlyStem, TenGod)>)
    ensures
        r@ == spec_hidden_with_tg(branch, nhat_chu),
{
    let stems = hidden_stems(branch);
    let mut out: Vec<(HeavenlyStem, TenGod)> = Vec::new();
    let mut i: usize = 0;
    while i < stems.len()
        invariant
            i <= stems.len(),
            stems@ == spec_hidden_stems(branch),
            out@ =~= spec_hidden_with_tg(branch, nhat_chu).subrange(0, i as int),
        decreases stems.len() - i,
    {
        let s = stems[i];
        out.push((s, ten_god_of(nhat_chu, s)));
        i = i + 1;
    }
    out
}

/// Dựng một trụ.
fn make_pillar(cc: CanChi, nhat_chu: HeavenlyStem, is_day: bool) -> (r: Pillar)
    ensures
        pillar_is(r, cc, nhat_chu, is_day),
{
    let ten_god = if is_day {
        None
    } else {
        Some(ten_god_of(nhat_chu, cc.stem))
    };
    Pillar { can_chi: cc, ten_god, hidden_stems: hidden_stems_with_tg(cc.branch, nhat_chu) }
}

/// Thêm 1 vào số đếm của hành `h`.
pub open spec fn count_add(c: NguHanhCount, h: NguHanh) -> NguHanhCount {
    match h {
        NguHanh::Kim => NguHanhCount { kim: (c.kim + 1) as u8, ..c },
        NguHanh::Moc => NguHanhCount { moc: (c.moc + 1) as u8, ..c },
        NguHanh::Thuy => NguHanhCount { thuy: (c.thuy + 1) as u8, ..c },
        NguHanh::Hoa => NguHanhCount { hoa: (c.hoa + 1) as u8, ..c },
        NguHanh::Tho => NguHanhCount { tho: (c.tho + 1) as u8, ..c },
    }
}

/// Số đếm Ngũ Hành của một dãy hành.
pub open spec fn spec_count(s: Seq<NguHanh>) -> NguHanhCount
    decreases s.len(),
{
    if s.len() == 0 {
        NguHanhCount { kim: 0, moc: 0, thuy: 0, hoa: 0, tho: 0 }
    } else {
        count_add(spec_count(s.drop_last()), s.last())
    }
}

/// Hành chính của 8 chữ theo thứ tự Can năm, Chi năm, Can tháng, … Chi giờ.
pub open spec fn eight_hanh(y: CanChi, m: CanChi, d: CanChi, h: CanChi) -> Seq<NguHanh> {
    seq![
        spec_nguhanh_of_stem(y.stem),
        spec_nguhanh_of_branch(y.branch),
        spec_nguhanh_of_stem(m.stem),
        spec_nguhanh_of_branch(m.branch),
        spec_nguhanh_of_stem(d.stem),
        spec_nguhanh_of_branch(d.branch),
        spec_nguhanh_of_stem(h.stem),
        spec_nguhanh_of_branch(h.branch),
    ]
}

/// Số lần hành `h` xuất hiện trong dãy `s`.
pub open spec fn occurrences(s: Seq<NguHanh>, h: NguHanh) -> int
    decreases s.len(),
{
    if s.len() == 0 {
        0
    } else {
        occurrences(s.drop_last(), h) + if s.last() == h { 1int } else { 0int }
    }
}

/// Số đếm của một dãy ngắn (dưới 256 phần tử): mỗi hành đếm đúng số lần nó xuất
/// hiện, và tổng bằng độ dài dãy.
pub proof fn lemma_count_total(s: Seq<NguHanh>)
    requires
        s.len() < 256,
    ensures
        spec_count(s).sum() == s.len(),
        forall|h: NguHanh| #[trigger] spec_count(s).of(h) == occurrences(s, h),
    decreases s.len(),
{
    if s.len() > 0 {
        let p = s.drop_last();
        lemma_count_total(p);
        assert forall|h: NguHanh| #[trigger] spec_count(s).of(h) == occurrences(s, h) by {
            assert(spec_count(p).of(h) == occurrences(p, h));
            assert(spec_count(p).of(s.last()) <= spec_count(p).sum());
        }
    }
}

/// Thêm 1 vào số đếm của hành `h`.
pub fn increment_hanh(c: &mut NguHanhCount, h: NguHanh)
    requires
        old(c).of(h) < 255,
    ensures
        *final(c) == count_add(*old(c), h),
{
    match h {
        NguHanh::Kim => c.kim = c.kim + 1,
        NguHanh::Moc => c.moc = c.moc + 1,
        NguHanh::Thuy => c.thuy = c.thuy + 1,
        NguHanh::Hoa => c.hoa = c.hoa + 1,
        NguHanh::Tho => c.tho = c.tho + 1,
    }
}

/// Đếm Ngũ Hành của 8 chữ của bốn trụ.
fn count_eight(y: CanChi, m: CanChi, d: CanChi, h: CanChi) -> (r: NguHanhCount)
    ensures
        r == spec_count(eight_hanh(y, m, d, h)),
{
    let hs: Vec<NguHanh> = vec![
        nguhanh_of_stem(y.stem),
        nguhanh_of_branch(y.branch),
        nguhanh_of_stem(m.stem),
        nguhanh_of_branch(m.branch),
        nguhanh_of_stem(d.stem),
        nguhanh_of_branch(d.branch),
        nguhanh_of_stem(h.stem),
        nguhanh_of_branch(h.branch),
    ];
    assert(hs@ =~= eight_hanh(y, m, d, h));
    let mut count = NguHanhCount::default();
    let mut i: usize = 0;
    while i < hs.len()
        invariant
            i <= hs.len(),
            hs.len() == 8,
            count == spec_count(hs@.subrange(0, i as int)),
        decreases hs.len() - i,
    {
        proof {
            lemma_count_total(hs@.subrange(0, i as int));
            assert(hs@.subrange(0, i as int + 1).drop_last() =~= hs@.subrange(0, i as int));
        }
        increment_hanh(&mut count, hs[i]);
        i = i + 1;
    }
    assert(hs@.subrange(0, 8) =~= hs@);
    count
}

// ===========================================================================
// Lập lá số
// ===========================================================================

/// Trụ Năm, Tháng, Ngày, Giờ (theo Can–Chi) của lá số, khi không có lỗi.
pub open spec fn spec_four_pillars(
    birth: BirthMoment,
    lap_xuan_curr: int,
    lap_xuan_next: int,
    tiet_jds: Seq<i64>,
) -> (CanChi, CanChi, CanChi, CanChi) {
    let jd = birth.solar_date.jd();
    let bt_year = spec_nam_bat_tu(birth.solar_date.year as int, jd, lap_xuan_curr, lap_xuan_next);
    let y = spec_year_can_chi(bt_year);
    let m = spec_month_can_chi(y.stem, spec_thang_bat_tu(jd, tiet_jds, 12) + 1);
    let d = spec_day_can_chi(jd);
    let h = spec_hour_can_chi(d.stem, birth.hour as int);
    (y, m, d, h)
}

/// `c` là lá số Bát Tự đúng của `birth`, `gender` với các mốc tiết khí đã cho.
pub open spec fn chart_is(
    c: BatTuChart,
    birth: BirthMoment,
    gender: Gender,
    lap_xuan_curr: int,
    lap_xuan_next: int,
    tiet_jds: Seq<i64>,
) -> bool {
    let (y, m, d, h) = spec_four_pillars(birth, lap_xuan_curr, lap_xuan_next, tiet_jds);
    &&& c.birth == birth
    &&& c.gender == gender
    &&& pillar_is(c.year_pillar, y, d.stem, false)
    &&& pillar_is(c.month_pillar, m, d.stem, false)
    &&& pillar_is(c.day_pillar, d, d.stem, true)
    &&& pillar_is(c.hour_pillar, h, d.stem, false)
    &&& c.nguhanh_count == spec_count(eight_hanh(y, m, d, h))
}

/// Lập lá số Bát Tự.
///
/// `lap_xuan_curr`, `lap_xuan_next`: JD ngày Lập Xuân của năm dương sinh và năm
/// sau; `tiet_jds`: JD 12 tiết (Lập Xuân … Tiểu Hàn) của năm Bát Tự
/// (`nam_bat_tu` cho biết năm nào).
///
/// Lỗi, theo thứ tự kiểm tra: năm sinh ngoài 1900–2100 (`OutOfRange`); năm Bát
/// Tự ngoài 1900–2100 (`Lunar(OutOfRange)`); giờ sinh lớn hơn 23
/// (`Lunar(InvalidLunarDate)`).
pub fn lap_bat_tu(
    birth: BirthMoment,
    gender: Gender,
    lap_xuan_curr: i64,
    lap_xuan_next: i64,
    tiet_jds: &[i64; 12],
) -> (r: Result<BatTuChart, BatTuError>)
    requires
        birth.solar_date.valid(),
    ensures
        ({
            let year = birth.solar_date.year as int;
            let bt_year = spec_nam_bat_tu(
                year,
                birth.solar_date.jd(),
                lap_xuan_curr as int,
                lap_xuan_next as int,
            );
            &&& !in_range(year) ==> (r matches Err(BatTuError::OutOfRange(m)) && m@ == msg_out_of_range(year))
            &&& (in_range(year) && !in_range(bt_year)) ==> (r matches Err(BatTuError::Lunar(e))
                && is_out_of_range_with(e, msg_out_of_range(bt_year)))
            &&& (in_range(year) && in_range(bt_year) && birth.hour > 23) ==> (r matches Err(
                BatTuError::Lunar(e),
            ) && is_invalid_with(e, msg_bad_hour(birth.hour as int)))
            &&& (in_range(year) && in_range(bt_year) && birth.hour <= 23) ==> (r matches Ok(c)
                && chart_is(c, birth, gender, lap_xuan_curr as int, lap_xuan_next as int, tiet_jds@))
        }),
{
    let date = birth.solar_date;
    if let Err(e) = check_range(date.year) {
        return Err(
            match e {
                LunarError::OutOfRange(m) => BatTuError::OutOfRange(m),
                LunarError::InvalidLunarDate(m) => BatTuError::OutOfRange(m),
            },
        );
    }
    let birth_jd = date.to_jd();

    // 1. Năm Bát Tự theo Lập Xuân.
    let bt_year = nam_bat_tu(date.year, birth_jd, lap_xuan_curr, lap_xuan_next);
    let year_cc = match year_can_chi(bt_year) {
        Ok(cc) => cc,
        Err(e) => return Err(BatTuError::Lunar(e)),
    };

    // 2. Tháng Bát Tự theo 12 tiết.
    let idx0 = thang_bat_tu(birth_jd, tiet_jds);

    // 3. Các trụ Can–Chi.
    let month_cc = match month_can_chi(year_cc.stem, idx0 + 1) {
        Ok(cc) => cc,
        Err(e) => return Err(BatTuError::Lunar(e)),
    };
    let day_cc = match day_can_chi(date) {
        Ok(cc) => cc,
        Err(e) => return Err(BatTuError::Lunar(e)),
    };
    let hour_cc = match hour_can_chi(day_cc.stem, birth.hour) {
        Ok(cc) => cc,
        Err(e) => return Err(BatTuError::Lunar(e)),
    };

    // 4. Thập Thần và Tàng Can.
    let nhat_chu = day_cc.stem;
    let year_pillar = make_pillar(year_cc, nhat_chu, false);
    let month_pillar = make_pillar(month_cc, nhat_chu, false);
    let day_pillar = make_pillar(day_cc, nhat_chu, true);
    let hour_pillar = make_pillar(hour_cc, nhat_chu, false);

    // 5. Thống kê Ngũ Hành.
    let count = count_eight(year_cc, month_cc, day_cc, hour_cc);

    Ok(
        BatTuChart {
            birth,
            gender,
            year_pillar,
            month_pillar,
            day_pillar,
            hour_pillar,
            nguhanh_count: count,
        },
    )
}

// ===========================================================================
// Luật
// ===========================================================================

/// Mỗi lá số Bát Tự đếm đúng 8 chữ: tổng Ngũ Hành bằng 8, và mỗi hành đếm đúng
/// số chữ (trong 4 Can + 4 Chi) mang hành đó.
pub proof fn lemma_nguhanh_total_is_eight(y: CanChi, m: CanChi, d: CanChi, h: CanChi)
    ensures
        spec_count(eight_hanh(y, m, d, h)).sum() == 8,
        forall|x: NguHanh| #[trigger] spec_count(eight_hanh(y, m, d, h)).of(x) == occurrences(
            eight_hanh(y, m, d, h),
            x,
        ),
{
    lemma_count_total(eight_hanh(y, m, d, h));
}

/// Mỗi can tàng trong mỗi trụ của lá số mang Thập Thần của chính can đó so với
/// Nhật Chủ (Can trụ Ngày), như Thập Thần của Thiên Can các trụ: Nhật Chủ là vế
/// so sánh. Cụ thể, can tàng sinh Nhật Chủ là Ấn, Nhật Chủ sinh can tàng là Thực
/// Thương, Nhật Chủ khắc can tàng là Tài, can tàng khắc Nhật Chủ là Quan Sát.
pub proof fn lemma_thap_than_can_tang(
    c: BatTuChart,
    birth: BirthMoment,
    gender: Gender,
    lap_xuan_curr: int,
    lap_xuan_next: int,
    tiet_jds: Seq<i64>,
    p: Pillar,
    k: int,
)
    requires
        chart_is(c, birth, gender, lap_xuan_curr, lap_xuan_next, tiet_jds),
        p == c.year_pillar || p == c.month_pillar || p == c.day_pillar || p == c.hour_pillar,
        0 <= k < p.hidden_stems@.len(),
    ensures
        ({
            let nhat = c.day_pillar.can_chi.stem;
            let (s, t) = p.hidden_stems@[k];
            let a = spec_nguhanh_of_stem(nhat);
            let b = spec_nguhanh_of_stem(s);
            &&& t == spec_ten_god_of(nhat, s)
            &&& (t == TenGod::ThienAn || t == TenGod::ChinhAn) <==> crate::bat_tu::thap_than::spec_sinh(b, a)
            &&& (t == TenGod::ThucThan || t == TenGod::ThuongQuan) <==> crate::bat_tu::thap_than::spec_sinh(a, b)
            &&& (t == TenGod::ThienTai || t == TenGod::ChinhTai) <==> crate::bat_tu::thap_than::spec_khac(a, b)
            &&& (t == TenGod::ThatSat || t == TenGod::ChinhQuan) <==> crate::bat_tu::thap_than::spec_khac(b, a)
            &&& (t == TenGod::TyKien || t == TenGod::KiepTai) <==> a == b
        }),
{
    let nhat = c.day_pillar.can_chi.stem;
    let s = p.hidden_stems@[k].0;
    assert(p.hidden_stems@[k] == (s, spec_ten_god_of(nhat, s)));
    crate::bat_tu::thap_than::lemma_thap_than_theo_quan_he(nhat, s);
}

/// Với 12 mốc tiết tăng dần, tháng Bát Tự là tháng `k` của tiết cuối cùng ngày
/// sinh đã tới (tháng 0 cả khi chưa tới Lập Xuân).
proof fn lemma_thang_bat_tu_la_tiet_da_qua(jd: int, jds: Seq<i64>, n: int, k: int)
    requires
        jds.len() == 12,
        forall|i: int, j: int| 0 <= i <= j < 12 ==> jds[i] <= jds[j],
        0 <= k < n <= 12,
        k == 0 || jds[k] <= jd,
        k == 11 || jd < jds[k + 1],
    ensures
        spec_thang_bat_tu(jd, jds, n) == k,
    decreases n,
{
    if n - 1 > k {
        assert(jds[k + 1] <= jds[n - 1]);
        lemma_thang_bat_tu_la_tiet_da_qua(jd, jds, n - 1, k);
    } else if k == 0 && jd < jds[0] {
        assert(spec_thang_bat_tu(jd, jds, 0) == 0);
    }
}

/// Tứ Trụ của lá số theo các mốc và bảng Can Chi, nêu độc lập với cách tính:
/// - năm Bát Tự đổi ở Lập Xuân (trước Lập Xuân năm dương `Y` là năm `Y − 1`, từ
///   Lập Xuân năm sau là `Y + 1`), Can Chi năm lấy mốc Giáp Tý 1984;
/// - tháng Bát Tự là tiết cuối cùng ngày sinh đã tới (`k` = 0 là tháng Dần), Can
///   tháng theo Ngũ Hổ Độn của Can năm Bát Tự;
/// - Can Chi ngày lấy mốc Giáp Tý JD 2451551;
/// - giờ theo Chi giờ sinh (Tý gồm 23h, 0h) và Ngũ Thử Độn của Can ngày.
#[verifier::spinoff_prover]
#[verifier::rlimit(50)]
pub proof fn lemma_tu_tru(
    c: BatTuChart,
    birth: BirthMoment,
    gender: Gender,
    lap_xuan_curr: int,
    lap_xuan_next: int,
    tiet_jds: Seq<i64>,
    k: int,
)
    requires
        chart_is(c, birth, gender, lap_xuan_curr, lap_xuan_next, tiet_jds),
        birth.hour <= 23,
        tiet_jds.len() == 12,
        forall|i: int, j: int| 0 <= i <= j < 12 ==> tiet_jds[i] <= tiet_jds[j],
        0 <= k < 12,
        k == 0 || tiet_jds[k] <= birth.solar_date.jd(),
        k == 11 || birth.solar_date.jd() < tiet_jds[k + 1],
    ensures
        ({
            let y0 = birth.solar_date.year as int;
            let jd = birth.solar_date.jd();
            let y = if jd < lap_xuan_curr { y0 - 1 } else if jd >= lap_xuan_next { y0 + 1 } else { y0 };
            let ys = (y - 1984) % 10;
            let ds = (jd - 2451551) % 10;
            let h = seq![0int, 1, 1, 2, 2, 3, 3, 4, 4, 5, 5, 6, 6, 7, 7, 8, 8, 9, 9, 10, 10, 11, 11, 0][birth.hour as int];
            &&& c.year_pillar.can_chi.stem.idx() == ys
            &&& c.year_pillar.can_chi.branch.idx() == (y - 1984) % 12
            &&& c.month_pillar.can_chi.stem.idx() == (seq![2int, 4, 6, 8, 0, 2, 4, 6, 8, 0][ys] + k) % 10
            &&& c.month_pillar.can_chi.branch.idx() == (k + 2) % 12
            &&& c.day_pillar.can_chi.stem.idx() == ds
            &&& c.day_pillar.can_chi.branch.idx() == (jd - 2451551) % 12
            &&& c.hour_pillar.can_chi.stem.idx() == (seq![0int, 2, 4, 6, 8, 0, 2, 4, 6, 8][ds] + h) % 10
            &&& c.hour_pillar.can_chi.branch.idx() == h
        }),
{
    let jd = birth.solar_date.jd();
    lemma_thang_bat_tu_la_tiet_da_qua(jd, tiet_jds, 12, k);
    let y = spec_nam_bat_tu(birth.solar_date.year as int, jd, lap_xuan_curr, lap_xuan_next);
    crate::canchi::lemma_moc_can_chi_nam_ngay(y, jd);
    let yc = spec_year_can_chi(y);
    crate::canchi::lemma_bang_can_chi_thang(yc.stem, k + 1);
    let dc = spec_day_can_chi(jd);
    crate::canchi::lemma_bang_can_chi_gio(dc.stem, birth.hour as int);
}

/// Thập Thần của Thiên Can các trụ Năm, Tháng, Giờ là Thập Thần của Can trụ đó so
/// với Nhật Chủ (Can trụ Ngày, vế so sánh thứ nhất); trụ Ngày là chính Nhật Chủ
/// nên không có Thập Thần.
pub proof fn lemma_thap_than_thien_can(
    c: BatTuChart,
    birth: BirthMoment,
    gender: Gender,
    lap_xuan_curr: int,
    lap_xuan_next: int,
    tiet_jds: Seq<i64>,
)
    requires
        chart_is(c, birth, gender, lap_xuan_curr, lap_xuan_next, tiet_jds),
    ensures
        ({
            let nhat = c.day_pillar.can_chi.stem;
            &&& c.day_pillar.ten_god is None
            &&& c.year_pillar.ten_god == Some(spec_ten_god_of(nhat, c.year_pillar.can_chi.stem))
            &&& c.month_pillar.ten_god == Some(spec_ten_god_of(nhat, c.month_pillar.can_chi.stem))
            &&& c.hour_pillar.ten_god == Some(spec_ten_god_of(nhat, c.hour_pillar.can_chi.stem))
            &&& spec_ten_god_of(nhat, nhat) == TenGod::TyKien
        }),
{
    crate::bat_tu::thap_than::lemma_thap_than_theo_quan_he(c.day_pillar.can_chi.stem, c.day_pillar.can_chi.stem);
}

} // verus!
