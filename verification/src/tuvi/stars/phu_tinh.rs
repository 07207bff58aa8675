//! An 13 phụ tinh: Tả Phù, Hữu Bật, Văn Xương, Văn Khúc, Thiên Khôi, Thiên Việt,
//! Lộc Tồn, Kình Dương, Đà La, Hỏa Tinh, Linh Tinh, Thiên Mã, Đào Hoa.

use vstd::prelude::*;

use crate::canchi::{branch_of, hour_branch_idx, EarthlyBranch, HeavenlyStem};
use crate::modulo::rem_euclid_i64;
use crate::tuvi::palaces::{dich_cung, spec_dich_cung};
use crate::tuvi::stars::sao::Sao;
use crate::tuvi::types::{placed_at, same_but_stars, same_frame, Gender, TuViChart, TuViError};

verus! {

/// Chỉ số Chi (0..11) của giờ sinh: giờ Tý gồm 23h và 0h.
pub fn hour_branch_index_pub(hour: u8) -> (r: u8)
    ensures
        r == hour_branch_idx(hour as int),
        r < 12,
{
    (((hour as u16) + 1) / 2 % 12) as u8
}

/// Dời cung theo cách đánh số 1..12 (Tý = 1): kết quả trong 1..12.
pub open spec fn spec_dich_cung_1(base: int, offset: int) -> int {
    let v = (base + offset) % 12;
    if v == 0 {
        12
    } else {
        v
    }
}

/// Dời cung theo cách đánh số 1..12 (Tý = 1).
pub fn dich_cung_1(base: i64, offset: i64) -> (r: i64)
    requires
        -1_000_000 <= base <= 1_000_000,
        -1_000_000 <= offset <= 1_000_000,
    ensures
        r == spec_dich_cung_1(base as int, offset as int),
        1 <= r <= 12,
{
    let v = rem_euclid_i64(base + offset, 12);
    if v == 0 {
        12
    } else {
        v
    }
}

/// Cung khởi (1..12) của Hỏa Tinh và Linh Tinh theo Chi năm (1..12, Tý = 1),
/// theo tam hợp: Dần Ngọ Tuất (3, 7, 11) khởi Sửu/Mão; Thân Tý Thìn (9, 1, 5)
/// khởi Dần/Tuất; Tỵ Dậu Sửu (6, 10, 2) khởi Tuất/Mão; Hợi Mão Mùi (12, 4, 8)
/// khởi Dậu/Tuất.
pub open spec fn khoi_hoa_linh(chi_year_1: int) -> (int, int) {
    if chi_year_1 == 3 || chi_year_1 == 7 || chi_year_1 == 11 {
        (2, 4)
    } else if chi_year_1 == 1 || chi_year_1 == 5 || chi_year_1 == 9 {
        (3, 11)
    } else if chi_year_1 == 6 || chi_year_1 == 10 || chi_year_1 == 2 {
        (11, 4)
    } else {
        (10, 11)
    }
}

/// Cung của Hỏa Tinh và Linh Tinh: người âm dương thuận (tích dấu giới tính và
/// dấu năm bằng +1) an Hỏa thuận, Linh nghịch theo giờ sinh; ngược lại thì đảo.
pub open spec fn spec_tim_hoa_linh(chi_year_1: int, gio_1: int, gender: Gender, am_duong_year: int) -> (
    EarthlyBranch,
    EarthlyBranch,
) {
    let (kh, kl) = khoi_hoa_linh(chi_year_1);
    let nghich = gender.sign() * am_duong_year == -1;
    let hoa_1 = if nghich { spec_dich_cung_1(kh + 1, -gio_1) } else { spec_dich_cung_1(kh - 1, gio_1) };
    let linh_1 = if nghich { spec_dich_cung_1(kl - 1, gio_1) } else { spec_dich_cung_1(kl + 1, -gio_1) };
    (EarthlyBranch::at((hoa_1 - 1) % 12), EarthlyBranch::at((linh_1 - 1) % 12))
}

/// Cung của Hỏa Tinh và Linh Tinh.
pub fn tim_hoa_linh(chi_year_1: i64, gio_1: i64, gender: Gender, am_duong_year: i64) -> (r: (
    EarthlyBranch,
    EarthlyBranch,
))
    requires
        1 <= chi_year_1 <= 12,
        -1000 <= gio_1 <= 1000,
        am_duong_year == 1 || am_duong_year == -1,
    ensures
        r == spec_tim_hoa_linh(chi_year_1 as int, gio_1 as int, gender, am_duong_year as int),
{
    let khoi_hoa_1: i64;
    let khoi_linh_1: i64;
    if chi_year_1 == 3 || chi_year_1 == 7 || chi_year_1 == 11 {
        khoi_hoa_1 = 2;
        khoi_linh_1 = 4;
    } else if chi_year_1 == 1 || chi_year_1 == 5 || chi_year_1 == 9 {
        khoi_hoa_1 = 3;
        khoi_linh_1 = 11;
    } else if chi_year_1 == 6 || chi_year_1 == 10 || chi_year_1 == 2 {
        khoi_hoa_1 = 11;
        khoi_linh_1 = 4;
    } else {
        khoi_hoa_1 = 10;
        khoi_linh_1 = 11;
    }
    let sign = gender.sign_i64() * am_duong_year;
    let hoa_1: i64;
    let linh_1: i64;
    if sign == -1 {
        hoa_1 = dich_cung_1(khoi_hoa_1 + 1, -gio_1);
        linh_1 = dich_cung_1(khoi_linh_1 - 1, gio_1);
    } else {
        hoa_1 = dich_cung_1(khoi_hoa_1 - 1, gio_1);
        linh_1 = dich_cung_1(khoi_linh_1 + 1, -gio_1);
    }
    let hoa_0 = rem_euclid_i64(hoa_1 - 1, 12);
    let linh_0 = rem_euclid_i64(linh_1 - 1, 12);
    (branch_of(hoa_0 as u8), branch_of(linh_0 as u8))
}

/// Cung (1..12) khởi Thiên Khôi theo chỉ số Can năm (0..9).
pub open spec fn khoi_1_of(year_stem: int) -> int {
    if year_stem == 0 {
        2
    } else if year_stem == 1 {
        1
    } else if year_stem == 2 {
        12
    } else if year_stem == 3 {
        10
    } else if year_stem == 4 {
        8
    } else if year_stem == 5 {
        1
    } else if year_stem == 6 {
        8
    } else if year_stem == 7 {
        7
    } else if year_stem == 8 {
        6
    } else {
        4
    }
}

/// Cung (1..12) của Lộc Tồn theo Can năm.
pub open spec fn loc_ton_1_of(s: HeavenlyStem) -> int {
    match s {
        HeavenlyStem::Giap => 3,
        HeavenlyStem::At => 4,
        HeavenlyStem::Binh => 6,
        HeavenlyStem::Dinh => 7,
        HeavenlyStem::Mau => 6,
        HeavenlyStem::Ky => 7,
        HeavenlyStem::Canh => 9,
        HeavenlyStem::Tan => 10,
        HeavenlyStem::Nham => 12,
        HeavenlyStem::Quy => 1,
    }
}

/// Cung (1..12) của Thiên Mã theo Chi năm (1..12): Dần, Hợi, Thân, Tỵ theo dư 4.
pub open spec fn thien_ma_1_of(chi_year_1: int) -> int {
    let d = chi_year_1 % 4;
    if d == 1 {
        3
    } else if d == 2 {
        12
    } else if d == 3 {
        9
    } else {
        6
    }
}

/// Vị trí (sao, cung) của 13 phụ tinh theo thứ tự an, cho tháng âm `month`
/// (1..12), giờ sinh `hour`, năm âm `year` và giới tính.
#[verifier::opaque]
pub open spec fn phu_tinh_placements(month: int, hour: int, year: int, gender: Gender) -> Seq<(Sao, EarthlyBranch)> {
    let month_idx = month - 1;
    let hour_idx = hour_branch_idx(hour);
    let ys = (year + 6) % 10;
    let yb = (year + 8) % 12;
    let ta_phu = (4 + month_idx) % 12;
    let vk1 = spec_dich_cung_1(5, hour_idx);
    let k1 = khoi_1_of(ys);
    let loc = EarthlyBranch::at((loc_ton_1_of(HeavenlyStem::at(ys)) - 1) % 12);
    let am_duong = if ys % 2 == 0 { 1int } else { -1int };
    let hl = spec_tim_hoa_linh(yb + 1, hour_idx + 1, gender, am_duong);
    let ma = EarthlyBranch::at((thien_ma_1_of(yb + 1) - 1) % 12);
    seq![
        (Sao::TaPhu, EarthlyBranch::at(ta_phu)),
        (Sao::HuuBat, EarthlyBranch::at((2 - ta_phu) % 12)),
        (Sao::VanKhuc, EarthlyBranch::at((vk1 - 1) % 12)),
        (Sao::VanXuong, EarthlyBranch::at((3 - vk1) % 12)),
        (Sao::ThienKhoi, EarthlyBranch::at((k1 - 1) % 12)),
        (Sao::ThienViet, EarthlyBranch::at((9 - k1) % 12)),
        (Sao::LocTon, loc),
        (Sao::DaLa, spec_dich_cung(loc, -1)),
        (Sao::KinhDuong, spec_dich_cung(loc, 1)),
        (Sao::HoaTinh, hl.0),
        (Sao::LinhTinh, hl.1),
        (Sao::ThienMa, ma),
        (Sao::DaoHoa, spec_dich_cung(spec_dich_cung(ma, 3), 4)),
    ]
}

/// Danh sách vị trí 13 phụ tinh.
fn phu_tinh_list(month: u8, hour: u8, year: i32, gender: Gender) -> (r: Vec<(Sao, EarthlyBranch)>)
    requires
        1 <= month <= 12,
    ensures
        r@ == phu_tinh_placements(month as int, hour as int, year as int, gender),
{
    let month_idx = (month - 1) as i64;
    let hour_idx = hour_branch_index_pub(hour) as i64;
    let year_stem_idx = rem_euclid_i64(year as i64 + 6, 10);
    let year_branch_idx = rem_euclid_i64(year as i64 + 8, 12);
    let year_stem = crate::canchi::stem_of(year_stem_idx as u8);

    // Tả Phù, Hữu Bật theo tháng.
    let ta_phu_idx = rem_euclid_i64(4 + month_idx, 12);
    let ta_phu = branch_of(ta_phu_idx as u8);
    let huu_bat = branch_of(rem_euclid_i64(2 - ta_phu_idx, 12) as u8);

    // Văn Khúc, Văn Xương theo giờ.
    let gio_1 = hour_idx + 1;
    let van_khuc_1 = dich_cung_1(5, gio_1 - 1);
    let van_khuc = branch_of(rem_euclid_i64(van_khuc_1 - 1, 12) as u8);
    let van_xuong = branch_of(rem_euclid_i64(3 - van_khuc_1, 12) as u8);

    // Thiên Khôi, Thiên Việt theo Can năm.
    let khoi_1: i64 = if year_stem_idx == 0 {
        2
    } else if year_stem_idx == 1 {
        1
    } else if year_stem_idx == 2 {
        12
    } else if year_stem_idx == 3 {
        10
    } else if year_stem_idx == 4 {
        8
    } else if year_stem_idx == 5 {
        1
    } else if year_stem_idx == 6 {
        8
    } else if year_stem_idx == 7 {
        7
    } else if year_stem_idx == 8 {
        6
    } else {
        4
    };
    let khoi = branch_of(rem_euclid_i64(khoi_1 - 1, 12) as u8);
    let viet = branch_of(rem_euclid_i64(9 - khoi_1, 12) as u8);

    // Lộc Tồn, Đà La, Kình Dương theo Can năm.
    let loc_ton_1: i64 = match year_stem {
        HeavenlyStem::Giap => 3,
        HeavenlyStem::At => 4,
        HeavenlyStem::Binh => 6,
        HeavenlyStem::Dinh => 7,
        HeavenlyStem::Mau => 6,
        HeavenlyStem::Ky => 7,
        HeavenlyStem::Canh => 9,
        HeavenlyStem::Tan => 10,
        HeavenlyStem::Nham => 12,
        HeavenlyStem::Quy => 1,
    };
    let loc_ton = branch_of(rem_euclid_i64(loc_ton_1 - 1, 12) as u8);
    let da_la = dich_cung(loc_ton, -1);
    let kinh_duong = dich_cung(loc_ton, 1);

    // Hỏa Tinh, Linh Tinh theo Chi năm, giờ sinh, âm dương.
    let am_duong_nam_sinh: i64 = match year_stem {
        HeavenlyStem::Giap | HeavenlyStem::Binh | HeavenlyStem::Mau | HeavenlyStem::Canh
        | HeavenlyStem::Nham => 1,
        _ => -1,
    };
    let (hoa_tinh, linh_tinh) = tim_hoa_linh(
        year_branch_idx + 1,
        hour_idx + 1,
        gender,
        am_duong_nam_sinh,
    );

    // Thiên Mã theo Chi năm, Đào Hoa từ Kiếp Sát (Thiên Mã + 3) tiến 4.
    let chi_year_1 = year_branch_idx + 1;
    let dem = chi_year_1 % 4;
    let thien_ma_1: i64 = if dem == 1 {
        3
    } else if dem == 2 {
        12
    } else if dem == 3 {
        9
    } else {
        6
    };
    let thien_ma = branch_of(rem_euclid_i64(thien_ma_1 - 1, 12) as u8);
    let kiep_sat = dich_cung(thien_ma, 3);
    let dao_hoa = dich_cung(kiep_sat, 4);

    let r = vec![
        (Sao::TaPhu, ta_phu),
        (Sao::HuuBat, huu_bat),
        (Sao::VanKhuc, van_khuc),
        (Sao::VanXuong, van_xuong),
        (Sao::ThienKhoi, khoi),
        (Sao::ThienViet, viet),
        (Sao::LocTon, loc_ton),
        (Sao::DaLa, da_la),
        (Sao::KinhDuong, kinh_duong),
        (Sao::HoaTinh, hoa_tinh),
        (Sao::LinhTinh, linh_tinh),
        (Sao::ThienMa, thien_ma),
        (Sao::DaoHoa, dao_hoa),
    ];
    assert(r@ =~= phu_tinh_placements(month as int, hour as int, year as int, gender)) by {
        reveal(phu_tinh_placements);
    }
    r
}

/// An 13 phụ tinh vào lá số (theo tháng, năm âm, giờ sinh, giới tính của lá số):
/// mỗi sao vào cung mang Chi của nó, các cung được tìm theo Chi nên thứ tự cung
/// tuỳ ý.
pub fn an_phu_tinh(chart: &mut TuViChart) -> (r: Result<(), TuViError>)
    requires
        old(chart).cung_rieng(),
        1 <= old(chart).lunar.month <= 12,
    ensures
        r is Ok,
        final(chart).cung_rieng(),
        old(chart).wf() ==> final(chart).wf(),
        same_frame(*final(chart), *old(chart)),
        forall|j: int|
            0 <= j < 12 ==> same_but_stars(#[trigger] final(chart).palaces@[j], old(chart).palaces@[j])
                && final(chart).palaces@[j].stars@ == old(chart).palaces@[j].stars@ + placed_at(
                phu_tinh_placements(
                    old(chart).lunar.month as int,
                    old(chart).birth.hour as int,
                    old(chart).lunar.year as int,
                    old(chart).gender,
                ),
                old(chart).palaces@[j].branch,
            ),
{
    let ps = phu_tinh_list(chart.lunar.month, chart.birth.hour, chart.lunar.year, chart.gender);
    chart.place_stars(&ps);
    Ok(())
}

/// Danh sách phụ tinh có đúng 13 vị trí, sao thứ `i` có thứ tự an `14 + i`.
pub proof fn lemma_phu_tinh_shape(month: int, hour: int, year: int, gender: Gender)
    ensures
        phu_tinh_placements(month, hour, year, gender).len() == 13,
        forall|i: int|
            0 <= i < 13 ==> #[trigger] phu_tinh_placements(month, hour, year, gender)[i].0.placement_pos()
                == i + 14,
{
    reveal(phu_tinh_placements);
    let ps = phu_tinh_placements(month, hour, year, gender);
    assert(ps[0].0.placement_pos() == 0 + 14);
    assert(ps[1].0.placement_pos() == 1 + 14);
    assert(ps[2].0.placement_pos() == 2 + 14);
    assert(ps[3].0.placement_pos() == 3 + 14);
    assert(ps[4].0.placement_pos() == 4 + 14);
    assert(ps[5].0.placement_pos() == 5 + 14);
    assert(ps[6].0.placement_pos() == 6 + 14);
    assert(ps[7].0.placement_pos() == 7 + 14);
    assert(ps[8].0.placement_pos() == 8 + 14);
    assert(ps[9].0.placement_pos() == 9 + 14);
    assert(ps[10].0.placement_pos() == 10 + 14);
    assert(ps[11].0.placement_pos() == 11 + 14);
    assert(ps[12].0.placement_pos() == 12 + 14);
}

/// Kình Dương đứng ngay sau, Đà La ngay trước Lộc Tồn.
pub proof fn lemma_kinh_da_around_loc_ton(month: int, hour: int, year: int, gender: Gender)
    ensures
        ({
            let ps = phu_tinh_placements(month, hour, year, gender);
            &&& ps[6].0 == Sao::LocTon
            &&& ps[7].0 == Sao::DaLa
            &&& ps[8].0 == Sao::KinhDuong
            &&& ps[8].1.idx() == (ps[6].1.idx() + 1) % 12
            &&& ps[7].1.idx() == (ps[6].1.idx() + 11) % 12
        }),
{
    reveal(phu_tinh_placements);
    let ps = phu_tinh_placements(month, hour, year, gender);
    let l = ps[6].1.idx() as int;
    crate::canchi::lemma_branch_at_idx(0, ps[6].1);
    crate::modulo::lemma_mod12_near(l + 1);
    crate::modulo::lemma_mod12_near(l - 1);
    crate::modulo::lemma_mod12_near(l + 11);
    crate::canchi::lemma_branch_at_idx((l + 1) % 12, ps[6].1);
    crate::canchi::lemma_branch_at_idx((l - 1) % 12, ps[6].1);
}

/// Bảng Lộc Tồn (chỉ số Chi 0..11) theo chỉ số Can năm.
proof fn lemma_so_loc_ton(st: int)
    requires
        0 <= st < 10,
    ensures
        (loc_ton_1_of(HeavenlyStem::at(st)) - 1) % 12 == seq![2int, 3, 5, 6, 5, 6, 8, 9, 11, 0][st],
{
    if st == 0 {
    } else if st == 1 {
    } else if st == 2 {
    } else if st == 3 {
    } else if st == 4 {
    } else if st == 5 {
    } else if st == 6 {
    } else if st == 7 {
    } else if st == 8 {
    } else {
    }
}

/// Bảng Thiên Khôi, Thiên Việt (chỉ số Chi 0..11) theo chỉ số Can năm.
proof fn lemma_so_khoi_viet(st: int)
    requires
        0 <= st < 10,
    ensures
        (khoi_1_of(st) - 1) % 12 == seq![1int, 0, 11, 9, 7, 0, 7, 6, 5, 3][st],
        (9 - khoi_1_of(st)) % 12 == seq![7int, 8, 9, 11, 1, 8, 1, 2, 3, 5][st],
{
    if st == 0 {
    } else if st == 1 {
    } else if st == 2 {
    } else if st == 3 {
    } else if st == 4 {
    } else if st == 5 {
    } else if st == 6 {
    } else if st == 7 {
    } else if st == 8 {
    } else {
    }
}

/// Bảng Thiên Mã (chỉ số Chi 0..11) theo chỉ số Chi năm.
proof fn lemma_so_thien_ma(ch: int)
    requires
        0 <= ch < 12,
    ensures
        (thien_ma_1_of(ch + 1) - 1) % 12 == seq![5int, 2, 11, 8][(ch + 1) % 4],
{
    let r = (ch + 1) % 4;
    if r == 0 {
    } else if r == 1 {
    } else if r == 2 {
    } else {
    }
}

/// Tả Phù ở Thìn dời thuận theo tháng (`tháng + 3`), Hữu Bật đối xứng qua trục
/// Sửu–Mùi (`2 − Tả Phù`); Văn Khúc ở Thìn dời thuận theo Chi giờ, Văn Xương ở
/// Tuất dời nghịch.
#[verifier::spinoff_prover]
pub proof fn lemma_bang_ta_huu_van(month: int, hour: int, year: int, gender: Gender)
    ensures
        ({
            let ps = phu_tinh_placements(month, hour, year, gender);
            let h = ((hour + 1) / 2) % 12;
            let ta = (month + 3) % 12;
            &&& ps[0] == (Sao::TaPhu, EarthlyBranch::at(ta))
            &&& ps[1] == (Sao::HuuBat, EarthlyBranch::at((14 - ta) % 12))
            &&& ps[2] == (Sao::VanKhuc, EarthlyBranch::at((4 + h) % 12))
            &&& ps[3] == (Sao::VanXuong, EarthlyBranch::at((22 - h) % 12))
        }),
{
    let h = ((hour + 1) / 2) % 12;
    let ta = (month + 3) % 12;
    assert((4 + (month - 1)) % 12 == ta);
    assert((2 - ta) % 12 == (14 - ta) % 12);
    let vk1 = spec_dich_cung_1(5, h);
    assert((vk1 - 1) % 12 == (4 + h) % 12);
    assert((3 - vk1) % 12 == (22 - h) % 12);
    reveal(phu_tinh_placements);
}

/// Thiên Khôi / Thiên Việt theo Can năm: Giáp Sửu/Mùi, Ất Tý/Thân, Bính Hợi/Dậu,
/// Đinh Dậu/Hợi, Mậu Mùi/Sửu, Kỷ Tý/Thân, Canh Mùi/Sửu, Tân Ngọ/Dần, Nhâm Tỵ/Mão,
/// Quý Mão/Tỵ.
#[verifier::spinoff_prover]
pub proof fn lemma_bang_khoi_viet(month: int, hour: int, year: int, gender: Gender)
    ensures
        ({
            let ps = phu_tinh_placements(month, hour, year, gender);
            let st = (year + 6) % 10;
            &&& ps[4] == (Sao::ThienKhoi, EarthlyBranch::at(seq![1int, 0, 11, 9, 7, 0, 7, 6, 5, 3][st]))
            &&& ps[5] == (Sao::ThienViet, EarthlyBranch::at(seq![7int, 8, 9, 11, 1, 8, 1, 2, 3, 5][st]))
        }),
{
    lemma_so_khoi_viet((year + 6) % 10);
    reveal(phu_tinh_placements);
}

/// Lộc Tồn theo Can năm: Giáp Dần, Ất Mão, Bính Tỵ, Đinh Ngọ, Mậu Tỵ, Kỷ Ngọ, Canh
/// Thân, Tân Dậu, Nhâm Hợi, Quý Tý; Kình Dương ở cung sau, Đà La ở cung trước.
#[verifier::spinoff_prover]
pub proof fn lemma_bang_loc_ton(month: int, hour: int, year: int, gender: Gender)
    ensures
        ({
            let ps = phu_tinh_placements(month, hour, year, gender);
            let loc = seq![2int, 3, 5, 6, 5, 6, 8, 9, 11, 0][(year + 6) % 10];
            &&& ps[6] == (Sao::LocTon, EarthlyBranch::at(loc))
            &&& ps[7] == (Sao::DaLa, EarthlyBranch::at((loc + 11) % 12))
            &&& ps[8] == (Sao::KinhDuong, EarthlyBranch::at((loc + 1) % 12))
        }),
{
    let st = (year + 6) % 10;
    lemma_so_loc_ton(st);
    let loc = seq![2int, 3, 5, 6, 5, 6, 8, 9, 11, 0][st];
    assert(0 <= loc < 12) by {
        lemma_so_loc_ton(st);
    }
    let lb = EarthlyBranch::at(loc);
    crate::canchi::lemma_branch_at_idx(loc, lb);
    assert((loc - 1) % 12 == (loc + 11) % 12);
    reveal(phu_tinh_placements);
}

/// Thiên Mã theo tam hợp của Chi năm: Thân Tý Thìn → Dần, Dần Ngọ Tuất → Thân,
/// Tỵ Dậu Sửu → Hợi, Hợi Mão Mùi → Tỵ; Đào Hoa cách Thiên Mã 7 cung.
#[verifier::spinoff_prover]
pub proof fn lemma_bang_thien_ma(month: int, hour: int, year: int, gender: Gender)
    ensures
        ({
            let ps = phu_tinh_placements(month, hour, year, gender);
            let ma = seq![5int, 2, 11, 8][((year + 8) % 12 + 1) % 4];
            &&& ps[11] == (Sao::ThienMa, EarthlyBranch::at(ma))
            &&& ps[12] == (Sao::DaoHoa, EarthlyBranch::at((ma + 7) % 12))
        }),
{
    let ch = (year + 8) % 12;
    lemma_so_thien_ma(ch);
    let ma = seq![5int, 2, 11, 8][(ch + 1) % 4];
    assert(0 <= ma < 12);
    let mb = EarthlyBranch::at(ma);
    crate::canchi::lemma_branch_at_idx(ma, mb);
    let kb = spec_dich_cung(mb, 3);
    crate::canchi::lemma_branch_at_idx((ma + 3) % 12, kb);
    assert(kb.idx() == (ma + 3) % 12);
    assert(((ma + 3) % 12 + 4) % 12 == (ma + 7) % 12);
    reveal(phu_tinh_placements);
}

/// Lộc Tồn, Kình Dương, Đà La trên lá số: với mọi lá số, cung mang Chi của Lộc
/// Tồn theo Can năm (Giáp Dần, Ất Mão, Bính Tỵ, Đinh Ngọ, Mậu Tỵ, Kỷ Ngọ, Canh
/// Thân, Tân Dậu, Nhâm Hợi, Quý Tý) chứa Lộc Tồn; Kình Dương ở cung sau, Đà La ở
/// cung trước.
pub proof fn lemma_loc_ton_tren_la_so(
    c: TuViChart,
    birth: crate::lich::BirthMoment,
    lunar: crate::lich::LunarDate,
    gender: Gender,
)
    requires
        crate::tuvi::lap::la_so_is(c, birth, lunar, gender),
    ensures
        ({
            let loc = seq![2int, 3, 5, 6, 5, 6, 8, 9, 11, 0][(lunar.year + 6) % 10];
            &&& c.palaces@[c.index_of(EarthlyBranch::at(loc))].stars@.contains(Sao::LocTon)
            &&& c.palaces@[c.index_of(EarthlyBranch::at((loc + 1) % 12))].stars@.contains(Sao::KinhDuong)
            &&& c.palaces@[c.index_of(EarthlyBranch::at((loc + 11) % 12))].stars@.contains(Sao::DaLa)
        }),
{
    lemma_bang_loc_ton(lunar.month as int, birth.hour as int, lunar.year as int, gender);
    crate::tuvi::laws::lemma_star_order(birth, lunar, gender);
    let m = crate::tuvi::lap::menh_idx(lunar.month as int, birth.hour as int);
    let cuc = crate::tuvi::cuc::spec_tinh_cuc(EarthlyBranch::at(m), HeavenlyStem::at((lunar.year + 6) % 10));
    crate::tuvi::stars::chinh_tinh::lemma_chinh_tinh_shape(cuc.so as int, lunar.day as int);
    crate::tuvi::laws::lemma_each_star_in_one_palace(c, birth, lunar, gender, 20);
    crate::tuvi::laws::lemma_each_star_in_one_palace(c, birth, lunar, gender, 21);
    crate::tuvi::laws::lemma_each_star_in_one_palace(c, birth, lunar, gender, 22);
    let all = crate::tuvi::laws::all_star_placements(birth, lunar, gender);
    let phu = phu_tinh_placements(lunar.month as int, birth.hour as int, lunar.year as int, gender);
    assert(all[20] == phu[6]);
    assert(all[21] == phu[7]);
    assert(all[22] == phu[8]);
}

/// Cung khởi (chỉ số 0..11) của Hỏa Tinh, Linh Tinh theo chỉ số Chi năm.
proof fn lemma_so_khoi_hoa_linh(ch: int)
    requires
        0 <= ch < 12,
    ensures
        (khoi_hoa_linh(ch + 1).0 - 1) == seq![2int, 10, 1, 9][ch % 4],
        (khoi_hoa_linh(ch + 1).1 - 1) == seq![10int, 3, 3, 10][ch % 4],
{
    if ch == 0 {} else if ch == 1 {} else if ch == 2 {} else if ch == 3 {} else if ch == 4 {}
    else if ch == 5 {} else if ch == 6 {} else if ch == 7 {} else if ch == 8 {}
    else if ch == 9 {} else if ch == 10 {} else {}
}

/// Can năm cùng chẵn lẻ với năm.
proof fn lemma_chan_le_can_nam(year: int)
    ensures
        ((year + 6) % 10) % 2 == year % 2,
{
    let ys = (year + 6) % 10;
    let q = (year + 6) / 10;
    assert(year + 6 == 10 * q + ys);
    assert(year == 2 * (5 * q - 3) + ys);
    vstd::arithmetic::div_mod::lemma_mod_multiples_vanish(5 * q - 3, ys, 2);
}

/// Dời cung theo cách đánh số 1..12 rồi đổi về chỉ số 0..11.
proof fn lemma_dich_cung_1_chi_so(base: int, offset: int)
    ensures
        (spec_dich_cung_1(base, offset) - 1) % 12 == (base + offset - 1) % 12,
{
    let v = (base + offset) % 12;
    if v == 0 {
        assert((base + offset - 1) % 12 == 11) by {
            let q = (base + offset) / 12;
            assert(base + offset == 12 * q);
            assert(base + offset - 1 == 12 * (q - 1) + 11);
            vstd::arithmetic::div_mod::lemma_mod_multiples_vanish(q - 1, 11, 12);
        }
    } else {
        let q = (base + offset) / 12;
        assert(base + offset == 12 * q + v);
        assert(base + offset - 1 == 12 * q + (v - 1));
        vstd::arithmetic::div_mod::lemma_mod_multiples_vanish(q, v - 1, 12);
    }
}

/// Cung Hỏa Tinh, Linh Tinh (chỉ số 0..11) theo Chi năm `ch`, Chi giờ `h` và
/// chiều an.
#[verifier::spinoff_prover]
proof fn lemma_cong_thuc_hoa_linh(ch: int, h: int, gender: Gender, am_duong: int, nghich: bool)
    requires
        0 <= ch < 12,
        0 <= h < 12,
        am_duong == 1 || am_duong == -1,
        nghich == (gender.sign() * am_duong == -1),
    ensures
        ({
            let kh = seq![2int, 10, 1, 9][ch % 4];
            let kl = seq![10int, 3, 3, 10][ch % 4];
            spec_tim_hoa_linh(ch + 1, h + 1, gender, am_duong) == (
                EarthlyBranch::at(if nghich { (kh - h) % 12 } else { (kh + h) % 12 }),
                EarthlyBranch::at(if nghich { (kl + h) % 12 } else { (kl - h) % 12 }),
            )
        }),
{
    lemma_so_khoi_hoa_linh(ch);
    let (kh1, kl1) = khoi_hoa_linh(ch + 1);
    let g = h + 1;
    lemma_dich_cung_1_chi_so(kh1 - 1, g);
    lemma_dich_cung_1_chi_so(kh1 + 1, -g);
    lemma_dich_cung_1_chi_so(kl1 - 1, g);
    lemma_dich_cung_1_chi_so(kl1 + 1, -g);
}

/// Hỏa Tinh, Linh Tinh theo tam hợp Chi năm và giờ sinh: năm Thân Tý Thìn khởi
/// Dần / Tuất, Tỵ Dậu Sửu khởi Tuất / Mão, Dần Ngọ Tuất khởi Sửu / Mão, Hợi Mão Mùi
/// khởi Dậu / Tuất. Nam sinh năm dương (năm chẵn) và nữ sinh năm âm an Hỏa Tinh
/// thuận, Linh Tinh nghịch theo Chi giờ; hai trường hợp còn lại thì đảo lại.
#[verifier::spinoff_prover]
pub proof fn lemma_bang_hoa_linh(month: int, hour: int, year: int, gender: Gender)
    ensures
        ({
            let ps = phu_tinh_placements(month, hour, year, gender);
            let ch = (year + 8) % 12;
            let h = ((hour + 1) / 2) % 12;
            let kh = seq![2int, 10, 1, 9][ch % 4];
            let kl = seq![10int, 3, 3, 10][ch % 4];
            let nghich = (gender == Gender::Nam) != (year % 2 == 0);
            &&& ps[9] == (Sao::HoaTinh, EarthlyBranch::at(if nghich { (kh - h) % 12 } else { (kh + h) % 12 }))
            &&& ps[10] == (Sao::LinhTinh, EarthlyBranch::at(if nghich { (kl + h) % 12 } else { (kl - h) % 12 }))
        }),
{
    let ch = (year + 8) % 12;
    let h = ((hour + 1) / 2) % 12;
    let ys = (year + 6) % 10;
    lemma_chan_le_can_nam(year);
    let am_duong = if ys % 2 == 0 { 1int } else { -1int };
    let nghich = (gender == Gender::Nam) != (year % 2 == 0);
    assert(nghich == (gender.sign() * am_duong == -1)) by {
        match gender {
            Gender::Nam => {},
            Gender::Nu => {},
        }
    }
    lemma_cong_thuc_hoa_linh(ch, h, gender, am_duong, nghich);
    assert(hour_branch_idx(hour) == h);
    reveal(phu_tinh_placements);
}
} // verus!
