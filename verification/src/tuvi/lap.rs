//! Lập lá số Tử Vi: an 12 cung, Mệnh, Thân, Cục, chính tinh, phụ tinh, vòng
//! Trường Sinh.
//!
//! Ngày âm của ngày sinh là kết quả phép đổi lịch thiên văn (số thực), nằm ngoài
//! thư viện, và được truyền vào cùng thời điểm sinh.

use vstd::prelude::*;

use crate::canchi::{branch_of, hour_branch_idx, stem_of, EarthlyBranch, HeavenlyStem};
use crate::lich::{check_range, in_range, msg_out_of_range, BirthMoment, LunarDate, LunarError};
use crate::modulo::rem_euclid_i64;
use crate::tuvi::chart::lemma_wf_cung_rieng;
use crate::tuvi::cuc::{spec_tinh_cuc, tinh_cuc, Cuc};
use crate::tuvi::palaces::{Palace, PalaceName};
use crate::tuvi::stars::chinh_tinh::{an_chinh_tinh, chinh_tinh_placements};
use crate::tuvi::stars::phu_tinh::{an_phu_tinh, phu_tinh_placements};
use crate::tuvi::stars::sao::Sao;
use crate::tuvi::truong_sinh::{spec_truong_sinh_branch, truong_sinh_positions, TruongSinhState};
use crate::tuvi::types::{placed_at, Gender, TuViChart, TuViError};

verus! {

/// Chỉ số Chi (0..11) của giờ sinh.
pub fn hour_branch_index(hour: u8) -> (r: u8)
    ensures
        r == hour_branch_idx(hour as int),
        r < 12,
{
    (((hour as u16) + 1) / 2 % 12) as u8
}

/// Chỉ số Can (0..9) của năm âm.
pub fn can_of_year_idx(year: i32) -> (r: u8)
    ensures
        r == (year + 6) % 10,
        r < 10,
{
    rem_euclid_i64(year as i64 + 6, 10) as u8
}

/// Âm dương của năm theo Chi: `+1` cho Chi dương (chỉ số chẵn), `−1` cho Chi âm.
pub open spec fn spec_am_duong_of_year(year: int) -> int {
    if ((year + 8) % 12) % 2 == 0 {
        1
    } else {
        -1
    }
}

/// Âm dương của năm theo Chi.
pub fn am_duong_of_year_chi(year: i32) -> (r: i64)
    ensures
        r == spec_am_duong_of_year(year as int),
{
    let chi_i = rem_euclid_i64(year as i64 + 8, 12);
    if chi_i % 2 == 0 {
        1
    } else {
        -1
    }
}

/// Chỉ số (0..11) của cung dời `offset` từ chỉ số `base`.
pub fn dich_cung_i64(base: i64, offset: i64) -> (r: i8)
    requires
        -1_000_000 <= base <= 1_000_000,
        -1_000_000 <= offset <= 1_000_000,
    ensures
        r == (base + offset) % 12,
        0 <= r < 12,
{
    rem_euclid_i64(base + offset, 12) as i8
}

/// Chỉ số Chi của cung Mệnh: từ Dần đếm thuận đến tháng sinh, nghịch đến giờ sinh.
pub open spec fn menh_idx(month: int, hour: int) -> int {
    (2 + (month - 1) - hour_branch_idx(hour)) % 12
}

/// Chỉ số Chi của cung an Thân: từ Dần đếm thuận đến tháng sinh, thuận đến giờ sinh.
pub open spec fn than_idx(month: int, hour: int) -> int {
    (2 + (month - 1) + hour_branch_idx(hour)) % 12
}

/// Vòng Trường Sinh đi nghịch khi giới tính và âm dương năm trái dấu.
pub open spec fn ts_reverse(gender: Gender, year: int) -> bool {
    gender.sign() * spec_am_duong_of_year(year) < 0
}

/// 12 cặp (trạng thái Trường Sinh, cung) của lá số.
pub open spec fn ts_placements(cuc_so: int, reverse: bool) -> Seq<(TruongSinhState, EarthlyBranch)> {
    Seq::new(12, |i: int| (TruongSinhState::at(i), spec_truong_sinh_branch(cuc_so, reverse, i)))
}

/// `c` là lá số Tử Vi đúng của thời điểm sinh `birth` (ngày âm `lunar`) và giới tính `gender`.
pub open spec fn la_so_is(c: TuViChart, birth: BirthMoment, lunar: LunarDate, gender: Gender) -> bool {
    let m = menh_idx(lunar.month as int, birth.hour as int);
    let t = than_idx(lunar.month as int, birth.hour as int);
    let cuc = spec_tinh_cuc(EarthlyBranch::at(m), HeavenlyStem::at((lunar.year + 6) % 10));
    let chinh = chinh_tinh_placements(cuc.so as int, lunar.day as int);
    let phu = phu_tinh_placements(lunar.month as int, birth.hour as int, lunar.year as int, gender);
    let ts = ts_placements(cuc.so as int, ts_reverse(gender, lunar.year as int));
    &&& c.birth == birth
    &&& c.gender == gender
    &&& c.lunar == lunar
    &&& c.cuc == cuc
    &&& c.menh_branch == EarthlyBranch::at(m)
    &&& c.than_branch == EarthlyBranch::at(t)
    &&& c.wf()
    &&& forall|i: int|
        0 <= i < 12 ==> {
            let p = #[trigger] c.palaces@[i];
            &&& p.name == PalaceName::at(i)
            &&& p.branch == EarthlyBranch::at((m + i) % 12)
            &&& p.is_menh == (i == 0)
            &&& p.is_than == (p.branch == c.than_branch)
            &&& p.stars@ == placed_at(chinh, p.branch) + placed_at(phu, p.branch)
            &&& p.truong_sinh@ == placed_at(ts, p.branch)
        }
}

/// Lập lá số Tử Vi. `lunar` là ngày âm của `birth.solar_date`.
///
/// Lỗi `OutOfRange` khi năm dương của ngày sinh ngoài 1900–2100.
pub fn lap_la_so(birth: BirthMoment, lunar: LunarDate, gender: Gender) -> (r: Result<TuViChart, TuViError>)
    requires
        1 <= lunar.month <= 12,
    ensures
        !in_range(birth.solar_date.year as int) ==> (r matches Err(TuViError::OutOfRange(m))
            && m@ == msg_out_of_range(birth.solar_date.year as int)),
        in_range(birth.solar_date.year as int) ==> (r matches Ok(c) && la_so_is(c, birth, lunar, gender)),
{
    if let Err(e) = check_range(birth.solar_date.year) {
        return match e {
            LunarError::OutOfRange(m) => Err(TuViError::OutOfRange(m)),
            LunarError::InvalidLunarDate(m) => Err(TuViError::Lunar(LunarError::InvalidLunarDate(m))),
        };
    }
    let birth_hour_chi = hour_branch_index(birth.hour);
    let month_idx = (lunar.month - 1) as i64;
    let hour_idx = birth_hour_chi as i64;
    let dan_0: i64 = 2;
    let menh_i = dich_cung_i64(dan_0, month_idx - hour_idx);
    let than_i = dich_cung_i64(dan_0, month_idx + hour_idx);
    let menh_branch = branch_of(menh_i as u8);
    let than_branch = branch_of(than_i as u8);

    let year_stem = stem_of(can_of_year_idx(lunar.year));
    let cuc = tinh_cuc(menh_branch, year_stem);

    let names = PalaceName::all_in_order();
    let mut palaces: Vec<Palace> = Vec::new();
    let mut i: usize = 0;
    while i < 12
        invariant
            i <= 12,
            palaces.len() == i,
            0 <= menh_i < 12,
            menh_i == menh_idx(lunar.month as int, birth.hour as int),
            than_branch == EarthlyBranch::at(than_idx(lunar.month as int, birth.hour as int)),
            forall|k: int| 0 <= k < 12 ==> #[trigger] names@[k] == PalaceName::at(k),
            forall|k: int|
                0 <= k < i ==> {
                    let p = #[trigger] palaces@[k];
                    &&& p.name == PalaceName::at(k)
                    &&& p.branch == EarthlyBranch::at((menh_i + k) % 12)
                    &&& p.is_menh == (k == 0)
                    &&& p.is_than == (p.branch == than_branch)
                    &&& p.stars@ == Seq::<Sao>::empty()
                    &&& p.truong_sinh@ == Seq::<TruongSinhState>::empty()
                },
        decreases 12 - i,
    {
        let branch_idx = dich_cung_i64(menh_i as i64, i as i64) as u8;
        let branch = branch_of(branch_idx);
        let name = names[i];
        let mut palace = Palace::new(name, branch);
        if i == 0 {
            palace.is_menh = true;
        }
        if branch == than_branch {
            palace.is_than = true;
        }
        palaces.push(palace);
        i = i + 1;
    }

    let mut chart = TuViChart {
        birth,
        gender,
        lunar,
        cuc,
        palaces,
        menh_branch,
        than_branch,
    };
    let ghost empty_chart = chart;
    proof {
        lemma_wf_cung_rieng(chart);
    }
    let _ = an_chinh_tinh(&mut chart);
    let ghost after_chinh = chart;
    let _ = an_phu_tinh(&mut chart);
    let ghost after_phu = chart;

    let am_duong_year = am_duong_of_year_chi(lunar.year);
    let reverse = gender.sign_i64() * am_duong_year < 0;
    let ts = truong_sinh_positions(chart.cuc.so, menh_branch, reverse);
    chart.place_truong_sinh(&ts);

    proof {
        let ts_seq = ts_placements(cuc.so as int, reverse);
        assert(ts@ =~= ts_seq);
        assert forall|k: int|
            0 <= k < 12 implies (#[trigger] chart.palaces@[k]).stars@ == placed_at(
            chinh_tinh_placements(cuc.so as int, lunar.day as int),
            chart.palaces@[k].branch,
        ) + placed_at(
            phu_tinh_placements(lunar.month as int, birth.hour as int, lunar.year as int, gender),
            chart.palaces@[k].branch,
        ) by {
            assert(empty_chart.palaces@[k].stars@ == Seq::<Sao>::empty());
            assert(after_chinh.palaces@[k].stars@ =~= placed_at(
                chinh_tinh_placements(cuc.so as int, lunar.day as int),
                chart.palaces@[k].branch,
            ));
        }
        assert forall|k: int|
            0 <= k < 12 implies (#[trigger] chart.palaces@[k]).truong_sinh@ == placed_at(
            ts_seq,
            chart.palaces@[k].branch,
        ) by {
            assert(after_phu.palaces@[k].truong_sinh@ == Seq::<TruongSinhState>::empty());
            assert(after_phu.palaces@[k].truong_sinh@ + placed_at(ts@, chart.palaces@[k].branch)
                =~= placed_at(ts_seq, chart.palaces@[k].branch));
        }
    }
    Ok(chart)
}

} // verus!
