//! Tiết khí: 12 tiết mở đầu tháng Bát Tự và 24 tiết khí theo kinh độ Mặt Trời.
//!
//! Kinh độ Mặt Trời là kết quả tính thiên văn bằng số thực, nằm ngoài thư viện.
//! Các hàm ở đây nhận phần nguyên (độ) của kinh độ Mặt Trời lúc cuối ngày, tức
//! `⌊λ⌋` với `λ ∈ [0, 360]`: mọi mốc tháng tiết (bội của 30°) và mốc tiết khí
//! (bội của 15°) đều là số nguyên độ, nên phần nguyên là đủ.

use vstd::prelude::*;

use crate::astronomy::{jd_to_date, spec_jd_to_date};

verus! {

/// 12 tiết (Tiết, không gồm Khí) mở đầu 12 tháng Bát Tự: (kinh độ, tên).
pub const TIET_KHI_TABLE: [(u32, &'static str); 12] = [
    (315, "Lập Xuân"),
    (345, "Kinh Trập"),
    (15, "Thanh Minh"),
    (45, "Lập Hạ"),
    (75, "Mang Chủng"),
    (105, "Tiểu Thử"),
    (135, "Lập Thu"),
    (165, "Bạch Lộ"),
    (195, "Hàn Lộ"),
    (225, "Lập Đông"),
    (255, "Đại Tuyết"),
    (285, "Tiểu Hàn"),
];

/// 24 tiết khí, bắt đầu từ Lập Xuân (315°), mỗi mục cách nhau 15°.
pub const TIET_KHI_24: [(u32, &'static str); 24] = [
    (315, "Lập Xuân"),
    (330, "Vũ Thủy"),
    (345, "Kinh Trập"),
    (0, "Xuân Phân"),
    (15, "Thanh Minh"),
    (30, "Cốc Vũ"),
    (45, "Lập Hạ"),
    (60, "Tiểu Mãn"),
    (75, "Mang Chủng"),
    (90, "Hạ Chí"),
    (105, "Tiểu Thử"),
    (120, "Đại Thử"),
    (135, "Lập Thu"),
    (150, "Xử Thử"),
    (165, "Bạch Lộ"),
    (180, "Thu Phân"),
    (195, "Hàn Lộ"),
    (210, "Sương Giáng"),
    (225, "Lập Đông"),
    (240, "Tiểu Tuyết"),
    (255, "Đại Tuyết"),
    (270, "Đông Chí"),
    (285, "Tiểu Hàn"),
    (300, "Đại Hàn"),
];

/// Số độ đã đi được kể từ Lập Xuân (315°), trong `0..360`.
pub open spec fn deg_from_lap_xuan(sun_deg: int) -> int {
    (sun_deg + 45) % 360
}

/// Tháng Bát Tự (1 = tháng Dần … 12 = tháng Sửu) khi kinh độ Mặt Trời là `sun_deg`.
pub open spec fn spec_tiet_month_index(sun_deg: int) -> int {
    deg_from_lap_xuan(sun_deg) / 30 + 1
}

/// Tên của tiết khí thứ `i` (0 = Lập Xuân) trong bảng 24 tiết khí.
pub open spec fn tiet_khi_name(i: int) -> Seq<char> {
    if i == 0 { "Lập Xuân"@ }
    else if i == 1 { "Vũ Thủy"@ }
    else if i == 2 { "Kinh Trập"@ }
    else if i == 3 { "Xuân Phân"@ }
    else if i == 4 { "Thanh Minh"@ }
    else if i == 5 { "Cốc Vũ"@ }
    else if i == 6 { "Lập Hạ"@ }
    else if i == 7 { "Tiểu Mãn"@ }
    else if i == 8 { "Mang Chủng"@ }
    else if i == 9 { "Hạ Chí"@ }
    else if i == 10 { "Tiểu Thử"@ }
    else if i == 11 { "Đại Thử"@ }
    else if i == 12 { "Lập Thu"@ }
    else if i == 13 { "Xử Thử"@ }
    else if i == 14 { "Bạch Lộ"@ }
    else if i == 15 { "Thu Phân"@ }
    else if i == 16 { "Hàn Lộ"@ }
    else if i == 17 { "Sương Giáng"@ }
    else if i == 18 { "Lập Đông"@ }
    else if i == 19 { "Tiểu Tuyết"@ }
    else if i == 20 { "Đại Tuyết"@ }
    else if i == 21 { "Đông Chí"@ }
    else if i == 22 { "Tiểu Hàn"@ }
    else { "Đại Hàn"@ }
}

/// Kinh độ của tiết khí thứ `i` (0 = Lập Xuân) trong bảng 24 tiết khí.
pub open spec fn tiet_khi_deg(i: int) -> int {
    (315 + 15 * i) % 360
}

/// Chỉ số (0..23) của tiết khí đang hiệu lực khi kinh độ Mặt Trời là `sun_deg`.
pub open spec fn spec_tiet_khi_index(sun_deg: int) -> int {
    deg_from_lap_xuan(sun_deg) / 15
}

/// Tháng Bát Tự (1..12) của ngày có kinh độ Mặt Trời cuối ngày `sun_deg` độ.
pub fn tiet_month_index(sun_deg: u32) -> (r: u8)
    requires
        sun_deg <= 360,
    ensures
        r == spec_tiet_month_index(sun_deg as int),
        1 <= r <= 12,
{
    let from_lap_xuan = (sun_deg + 45) % 360;
    (from_lap_xuan / 30 + 1) as u8
}

/// Chỉ số Địa Chi (0..11) của tháng Bát Tự: tháng 1 là Dần (2).
pub fn tiet_month_branch_index(sun_deg: u32) -> (r: u8)
    requires
        sun_deg <= 360,
    ensures
        r == (spec_tiet_month_index(sun_deg as int) + 1) % 12,
        r < 12,
{
    (tiet_month_index(sun_deg) + 1) % 12
}

/// Tiết khí (kinh độ mốc, tên) đang hiệu lực khi kinh độ Mặt Trời là `sun_deg`.
pub fn current_tiet_khi(sun_deg: u32) -> (r: (u32, &'static str))
    requires
        sun_deg <= 360,
    ensures
        r.0 == tiet_khi_deg(spec_tiet_khi_index(sun_deg as int)),
        r.1@ == tiet_khi_name(spec_tiet_khi_index(sun_deg as int)),
        r.0 == TIET_KHI_24@[spec_tiet_khi_index(sun_deg as int)].0,
        r.1@ == TIET_KHI_24@[spec_tiet_khi_index(sun_deg as int)].1@,
        (sun_deg - r.0) % 360 < 15,
{
    proof {
        lemma_tiet_khi_hien_hanh(sun_deg as int);
    }
    let idx = (sun_deg + 45) % 360 / 15;
    let name = if idx == 0 { "Lập Xuân" }
        else if idx == 1 { "Vũ Thủy" }
        else if idx == 2 { "Kinh Trập" }
        else if idx == 3 { "Xuân Phân" }
        else if idx == 4 { "Thanh Minh" }
        else if idx == 5 { "Cốc Vũ" }
        else if idx == 6 { "Lập Hạ" }
        else if idx == 7 { "Tiểu Mãn" }
        else if idx == 8 { "Mang Chủng" }
        else if idx == 9 { "Hạ Chí" }
        else if idx == 10 { "Tiểu Thử" }
        else if idx == 11 { "Đại Thử" }
        else if idx == 12 { "Lập Thu" }
        else if idx == 13 { "Xử Thử" }
        else if idx == 14 { "Bạch Lộ" }
        else if idx == 15 { "Thu Phân" }
        else if idx == 16 { "Hàn Lộ" }
        else if idx == 17 { "Sương Giáng" }
        else if idx == 18 { "Lập Đông" }
        else if idx == 19 { "Tiểu Tuyết" }
        else if idx == 20 { "Đại Tuyết" }
        else if idx == 21 { "Đông Chí" }
        else if idx == 22 { "Tiểu Hàn" }
        else { "Đại Hàn" };
    ((315 + 15 * idx) % 360, name)
}

/// `(năm, tháng, ngày)` dương lịch của Julian Day Number `jd`.
pub fn jd_to_ymd(jd: i64) -> (r: (i32, u32, u32))
    requires
        -1_000_000_000_000 <= jd <= 1_000_000_000_000,
    ensures
        r.0 == spec_jd_to_date(jd as int).2 as i32,
        r.1 == spec_jd_to_date(jd as int).1 as u32,
        r.2 == spec_jd_to_date(jd as int).0 as u32,
{
    let (d, m, y) = jd_to_date(jd);
    (y as i32, m as u32, d as u32)
}

/// Tên và kinh độ mốc của tiết khí thứ `i` khớp bảng 24 tiết khí `TIET_KHI_24`.
pub proof fn lemma_bang_24_tiet_khi()
    ensures
        forall|i: int|
            0 <= i < 24 ==> tiet_khi_name(i) == (#[trigger] TIET_KHI_24@[i]).1@ && tiet_khi_deg(i)
                == TIET_KHI_24@[i].0,
{
    assert(tiet_khi_name(0) == TIET_KHI_24@[0].1@ && tiet_khi_deg(0) == TIET_KHI_24@[0].0);
    assert(tiet_khi_name(1) == TIET_KHI_24@[1].1@ && tiet_khi_deg(1) == TIET_KHI_24@[1].0);
    assert(tiet_khi_name(2) == TIET_KHI_24@[2].1@ && tiet_khi_deg(2) == TIET_KHI_24@[2].0);
    assert(tiet_khi_name(3) == TIET_KHI_24@[3].1@ && tiet_khi_deg(3) == TIET_KHI_24@[3].0);
    assert(tiet_khi_name(4) == TIET_KHI_24@[4].1@ && tiet_khi_deg(4) == TIET_KHI_24@[4].0);
    assert(tiet_khi_name(5) == TIET_KHI_24@[5].1@ && tiet_khi_deg(5) == TIET_KHI_24@[5].0);
    assert(tiet_khi_name(6) == TIET_KHI_24@[6].1@ && tiet_khi_deg(6) == TIET_KHI_24@[6].0);
    assert(tiet_khi_name(7) == TIET_KHI_24@[7].1@ && tiet_khi_deg(7) == TIET_KHI_24@[7].0);
    assert(tiet_khi_name(8) == TIET_KHI_24@[8].1@ && tiet_khi_deg(8) == TIET_KHI_24@[8].0);
    assert(tiet_khi_name(9) == TIET_KHI_24@[9].1@ && tiet_khi_deg(9) == TIET_KHI_24@[9].0);
    assert(tiet_khi_name(10) == TIET_KHI_24@[10].1@ && tiet_khi_deg(10) == TIET_KHI_24@[10].0);
    assert(tiet_khi_name(11) == TIET_KHI_24@[11].1@ && tiet_khi_deg(11) == TIET_KHI_24@[11].0);
    assert(tiet_khi_name(12) == TIET_KHI_24@[12].1@ && tiet_khi_deg(12) == TIET_KHI_24@[12].0);
    assert(tiet_khi_name(13) == TIET_KHI_24@[13].1@ && tiet_khi_deg(13) == TIET_KHI_24@[13].0);
    assert(tiet_khi_name(14) == TIET_KHI_24@[14].1@ && tiet_khi_deg(14) == TIET_KHI_24@[14].0);
    assert(tiet_khi_name(15) == TIET_KHI_24@[15].1@ && tiet_khi_deg(15) == TIET_KHI_24@[15].0);
    assert(tiet_khi_name(16) == TIET_KHI_24@[16].1@ && tiet_khi_deg(16) == TIET_KHI_24@[16].0);
    assert(tiet_khi_name(17) == TIET_KHI_24@[17].1@ && tiet_khi_deg(17) == TIET_KHI_24@[17].0);
    assert(tiet_khi_name(18) == TIET_KHI_24@[18].1@ && tiet_khi_deg(18) == TIET_KHI_24@[18].0);
    assert(tiet_khi_name(19) == TIET_KHI_24@[19].1@ && tiet_khi_deg(19) == TIET_KHI_24@[19].0);
    assert(tiet_khi_name(20) == TIET_KHI_24@[20].1@ && tiet_khi_deg(20) == TIET_KHI_24@[20].0);
    assert(tiet_khi_name(21) == TIET_KHI_24@[21].1@ && tiet_khi_deg(21) == TIET_KHI_24@[21].0);
    assert(tiet_khi_name(22) == TIET_KHI_24@[22].1@ && tiet_khi_deg(22) == TIET_KHI_24@[22].0);
    assert(tiet_khi_name(23) == TIET_KHI_24@[23].1@ && tiet_khi_deg(23) == TIET_KHI_24@[23].0);
    assert forall|i: int| 0 <= i < 24 implies tiet_khi_name(i) == (#[trigger] TIET_KHI_24@[i]).1@
        && tiet_khi_deg(i) == TIET_KHI_24@[i].0 by {
        if i == 0 {} else if i == 1 {} else if i == 2 {} else if i == 3 {} else if i == 4 {}
        else if i == 5 {} else if i == 6 {} else if i == 7 {} else if i == 8 {} else if i == 9 {}
        else if i == 10 {} else if i == 11 {} else if i == 12 {} else if i == 13 {}
        else if i == 14 {} else if i == 15 {} else if i == 16 {} else if i == 17 {}
        else if i == 18 {} else if i == 19 {} else if i == 20 {} else if i == 21 {}
        else if i == 22 {} else {}
    }
}

/// Tiết khí hiện hành là một mục của bảng 24 tiết khí: mục có mốc kinh độ
/// `r.0` mà Mặt Trời đã qua chưa tới 15°, tức `0 <= (sun_deg − r.0) mod 360 < 15`.
pub proof fn lemma_tiet_khi_hien_hanh(sun_deg: int)
    requires
        0 <= sun_deg <= 360,
    ensures
        ({
            let k = spec_tiet_khi_index(sun_deg);
            &&& 0 <= k < 24
            &&& tiet_khi_name(k) == TIET_KHI_24@[k].1@
            &&& tiet_khi_deg(k) == TIET_KHI_24@[k].0
            &&& (sun_deg - tiet_khi_deg(k)) % 360 < 15
        }),
{
    lemma_bang_24_tiet_khi();
    let k = spec_tiet_khi_index(sun_deg);
    let x = (sun_deg + 45) % 360;
    assert(0 <= k < 24);
    assert(x - 15 * k < 15 && x - 15 * k >= 0);
    assert((sun_deg - tiet_khi_deg(k)) % 360 == x - 15 * k) by {
        assert(tiet_khi_deg(k) == (315 + 15 * k) % 360);
    }
}

/// Bảng 24 tiết khí: từ Lập Xuân (315°) mỗi mục cách nhau 15° kinh độ Mặt Trời,
/// theo thứ tự Lập Xuân, Vũ Thủy, Kinh Trập, Xuân Phân, Thanh Minh, Cốc Vũ, Lập
/// Hạ, Tiểu Mãn, Mang Chủng, Hạ Chí, Tiểu Thử, Đại Thử, Lập Thu, Xử Thử, Bạch Lộ,
/// Thu Phân, Hàn Lộ, Sương Giáng, Lập Đông, Tiểu Tuyết, Đại Tuyết, Đông Chí, Tiểu
/// Hàn, Đại Hàn; 12 tiết mở tháng Bát Tự là các mục chẵn của bảng.
pub proof fn lemma_bang_tiet_khi_hang()
    ensures
        TIET_KHI_24@[0].0 == 315 && TIET_KHI_24@[0].1@ == "Lập Xuân"@,
        TIET_KHI_24@[1].0 == 330 && TIET_KHI_24@[1].1@ == "Vũ Thủy"@,
        TIET_KHI_24@[2].0 == 345 && TIET_KHI_24@[2].1@ == "Kinh Trập"@,
        TIET_KHI_24@[3].0 == 0 && TIET_KHI_24@[3].1@ == "Xuân Phân"@,
        TIET_KHI_24@[4].0 == 15 && TIET_KHI_24@[4].1@ == "Thanh Minh"@,
        TIET_KHI_24@[5].0 == 30 && TIET_KHI_24@[5].1@ == "Cốc Vũ"@,
        TIET_KHI_24@[6].0 == 45 && TIET_KHI_24@[6].1@ == "Lập Hạ"@,
        TIET_KHI_24@[7].0 == 60 && TIET_KHI_24@[7].1@ == "Tiểu Mãn"@,
        TIET_KHI_24@[8].0 == 75 && TIET_KHI_24@[8].1@ == "Mang Chủng"@,
        TIET_KHI_24@[9].0 == 90 && TIET_KHI_24@[9].1@ == "Hạ Chí"@,
        TIET_KHI_24@[10].0 == 105 && TIET_KHI_24@[10].1@ == "Tiểu Thử"@,
        TIET_KHI_24@[11].0 == 120 && TIET_KHI_24@[11].1@ == "Đại Thử"@,
        TIET_KHI_24@[12].0 == 135 && TIET_KHI_24@[12].1@ == "Lập Thu"@,
        TIET_KHI_24@[13].0 == 150 && TIET_KHI_24@[13].1@ == "Xử Thử"@,
        TIET_KHI_24@[14].0 == 165 && TIET_KHI_24@[14].1@ == "Bạch Lộ"@,
        TIET_KHI_24@[15].0 == 180 && TIET_KHI_24@[15].1@ == "Thu Phân"@,
        TIET_KHI_24@[16].0 == 195 && TIET_KHI_24@[16].1@ == "Hàn Lộ"@,
        TIET_KHI_24@[17].0 == 210 && TIET_KHI_24@[17].1@ == "Sương Giáng"@,
        TIET_KHI_24@[18].0 == 225 && TIET_KHI_24@[18].1@ == "Lập Đông"@,
        TIET_KHI_24@[19].0 == 240 && TIET_KHI_24@[19].1@ == "Tiểu Tuyết"@,
        TIET_KHI_24@[20].0 == 255 && TIET_KHI_24@[20].1@ == "Đại Tuyết"@,
        TIET_KHI_24@[21].0 == 270 && TIET_KHI_24@[21].1@ == "Đông Chí"@,
        TIET_KHI_24@[22].0 == 285 && TIET_KHI_24@[22].1@ == "Tiểu Hàn"@,
        TIET_KHI_24@[23].0 == 300 && TIET_KHI_24@[23].1@ == "Đại Hàn"@,
        TIET_KHI_TABLE@[0].0 == 315 && TIET_KHI_TABLE@[0].1@ == "Lập Xuân"@,
        TIET_KHI_TABLE@[1].0 == 345 && TIET_KHI_TABLE@[1].1@ == "Kinh Trập"@,
        TIET_KHI_TABLE@[2].0 == 15 && TIET_KHI_TABLE@[2].1@ == "Thanh Minh"@,
        TIET_KHI_TABLE@[3].0 == 45 && TIET_KHI_TABLE@[3].1@ == "Lập Hạ"@,
        TIET_KHI_TABLE@[4].0 == 75 && TIET_KHI_TABLE@[4].1@ == "Mang Chủng"@,
        TIET_KHI_TABLE@[5].0 == 105 && TIET_KHI_TABLE@[5].1@ == "Tiểu Thử"@,
        TIET_KHI_TABLE@[6].0 == 135 && TIET_KHI_TABLE@[6].1@ == "Lập Thu"@,
        TIET_KHI_TABLE@[7].0 == 165 && TIET_KHI_TABLE@[7].1@ == "Bạch Lộ"@,
        TIET_KHI_TABLE@[8].0 == 195 && TIET_KHI_TABLE@[8].1@ == "Hàn Lộ"@,
        TIET_KHI_TABLE@[9].0 == 225 && TIET_KHI_TABLE@[9].1@ == "Lập Đông"@,
        TIET_KHI_TABLE@[10].0 == 255 && TIET_KHI_TABLE@[10].1@ == "Đại Tuyết"@,
        TIET_KHI_TABLE@[11].0 == 285 && TIET_KHI_TABLE@[11].1@ == "Tiểu Hàn"@,
{
}

} // verus!
