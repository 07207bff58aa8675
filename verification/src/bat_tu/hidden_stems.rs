//! Tàng Can (Hidden Stems) của 12 Địa Chi: Bản khí, Trung khí, Dư khí.

use vstd::prelude::*;

use crate::canchi::{EarthlyBranch, HeavenlyStem};

verus! {

/// Bảng Tàng Can chuẩn, theo thứ tự Bản khí → Trung khí → Dư khí.
pub open spec fn spec_hidden_stems(b: EarthlyBranch) -> Seq<HeavenlyStem> {
    match b {
        EarthlyBranch::Ty => seq![HeavenlyStem::Quy],
        EarthlyBranch::Suu => seq![HeavenlyStem::Ky, HeavenlyStem::Quy, HeavenlyStem::Tan],
        EarthlyBranch::Dan => seq![HeavenlyStem::Giap, HeavenlyStem::Binh, HeavenlyStem::Mau],
        EarthlyBranch::Mao => seq![HeavenlyStem::At],
        EarthlyBranch::Thin => seq![HeavenlyStem::Mau, HeavenlyStem::At, HeavenlyStem::Quy],
        EarthlyBranch::Ty2 => seq![HeavenlyStem::Binh, HeavenlyStem::Mau, HeavenlyStem::Canh],
        EarthlyBranch::Ngo => seq![HeavenlyStem::Dinh, HeavenlyStem::Ky],
        EarthlyBranch::Mui => seq![HeavenlyStem::Ky, HeavenlyStem::Dinh, HeavenlyStem::At],
        EarthlyBranch::Than => seq![HeavenlyStem::Canh, HeavenlyStem::Nham, HeavenlyStem::Mau],
        EarthlyBranch::Dau => seq![HeavenlyStem::Tan],
        EarthlyBranch::Tuat => seq![HeavenlyStem::Mau, HeavenlyStem::Tan, HeavenlyStem::Dinh],
        EarthlyBranch::Hoi => seq![HeavenlyStem::Nham, HeavenlyStem::Giap],
    }
}

/// Mỗi Chi có từ 1 đến 3 Can tàng.
pub proof fn lemma_hidden_stems_len(b: EarthlyBranch)
    ensures
        1 <= spec_hidden_stems(b).len() <= 3,
{
}

/// Danh sách Tàng Can của Chi, theo thứ tự Bản khí → Trung khí → Dư khí.
pub fn hidden_stems(branch: EarthlyBranch) -> (r: Vec<HeavenlyStem>)
    ensures
        r@ == spec_hidden_stems(branch),
        1 <= r.len() <= 3,
{
    let r = match branch {
        EarthlyBranch::Ty => vec![HeavenlyStem::Quy],
        EarthlyBranch::Suu => vec![HeavenlyStem::Ky, HeavenlyStem::Quy, HeavenlyStem::Tan],
        EarthlyBranch::Dan => vec![HeavenlyStem::Giap, HeavenlyStem::Binh, HeavenlyStem::Mau],
        EarthlyBranch::Mao => vec![HeavenlyStem::At],
        EarthlyBranch::Thin => vec![HeavenlyStem::Mau, HeavenlyStem::At, HeavenlyStem::Quy],
        EarthlyBranch::Ty2 => vec![HeavenlyStem::Binh, HeavenlyStem::Mau, HeavenlyStem::Canh],
        EarthlyBranch::Ngo => vec![HeavenlyStem::Dinh, HeavenlyStem::Ky],
        EarthlyBranch::Mui => vec![HeavenlyStem::Ky, HeavenlyStem::Dinh, HeavenlyStem::At],
        EarthlyBranch::Than => vec![HeavenlyStem::Canh, HeavenlyStem::Nham, HeavenlyStem::Mau],
        EarthlyBranch::Dau => vec![HeavenlyStem::Tan],
        EarthlyBranch::Tuat => vec![HeavenlyStem::Mau, HeavenlyStem::Tan, HeavenlyStem::Dinh],
        EarthlyBranch::Hoi => vec![HeavenlyStem::Nham, HeavenlyStem::Giap],
    };
    assert(r@ =~= spec_hidden_stems(branch));
    r
}

/// Tàng Can dạng bộ ba: Bản khí (luôn có), Trung khí và Dư khí (nếu có).
pub fn hidden_stems_tuple(branch: EarthlyBranch) -> (r: (
    HeavenlyStem,
    Option<HeavenlyStem>,
    Option<HeavenlyStem>,
))
    ensures
        r.0 == spec_hidden_stems(branch)[0],
        r.1 == (if spec_hidden_stems(branch).len() > 1 {
            Some(spec_hidden_stems(branch)[1])
        } else {
            None
        }),
        r.2 == (if spec_hidden_stems(branch).len() > 2 {
            Some(spec_hidden_stems(branch)[2])
        } else {
            None
        }),
{
    let stems = hidden_stems(branch);
    let ban = stems[0];
    let trung = if stems.len() > 1 {
        Some(stems[1])
    } else {
        None
    };
    let du = if stems.len() > 2 {
        Some(stems[2])
    } else {
        None
    };
    (ban, trung, du)
}

/// Tàng Can theo bảng (chỉ số Can, Giáp = 0 … Quý = 9), Bản khí đứng đầu: Tý
/// Quý; Sửu Kỷ Quý Tân; Dần Giáp Bính Mậu; Mão Ất; Thìn Mậu Ất Quý; Tỵ Bính Mậu
/// Canh; Ngọ Đinh Kỷ; Mùi Kỷ Đinh Ất; Thân Canh Nhâm Mậu; Dậu Tân; Tuất Mậu Tân
/// Đinh; Hợi Nhâm Giáp. Bản khí cùng hành với Chi.
pub proof fn lemma_bang_tang_can(b: EarthlyBranch)
    ensures
        spec_hidden_stems(b).map_values(|s: HeavenlyStem| s.idx() as int) == seq![
            seq![9int],
            seq![5int, 9, 7],
            seq![0int, 2, 4],
            seq![1int],
            seq![4int, 1, 9],
            seq![2int, 4, 6],
            seq![3int, 5],
            seq![5int, 3, 1],
            seq![6int, 8, 4],
            seq![7int],
            seq![4int, 7, 3],
            seq![8int, 0],
        ][b.idx() as int],
        crate::canchi::spec_nguhanh_of_stem(spec_hidden_stems(b)[0]) == crate::canchi::spec_nguhanh_of_branch(b),
{
    let t = seq![
        seq![9int],
        seq![5int, 9, 7],
        seq![0int, 2, 4],
        seq![1int],
        seq![4int, 1, 9],
        seq![2int, 4, 6],
        seq![3int, 5],
        seq![5int, 3, 1],
        seq![6int, 8, 4],
        seq![7int],
        seq![4int, 7, 3],
        seq![8int, 0],
    ];
    assert(spec_hidden_stems(b).map_values(|s: HeavenlyStem| s.idx() as int) =~= t[b.idx() as int]);
}

} // verus!
