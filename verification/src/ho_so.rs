//! Hồ sơ người đã xem: kiểm tra thông tin nhập vào, lập hai lá số, và cảnh báo
//! khi hồ sơ cũ được tính bằng phiên bản engine khác bản đang chạy.
//!
//! Lá số được lưu nguyên dạng (JSON) thay vì tính lại mỗi lần: hiển thị lại không
//! cần chạy engine, và giữ đúng "lá số người dùng đã thấy". Đổi lại, hồ sơ cũ
//! không tự hưởng bản sửa lỗi về sau; [`canh_bao_phien_ban`] báo điều đó.

use vstd::prelude::*;

use chrono::Datelike;

use crate::bat_tu::lap::{chart_is, lap_bat_tu, spec_nam_bat_tu};
use crate::bat_tu::types::{BatTuChart, BatTuError};
use crate::db::HoSo;
use crate::lich::{in_range, msg_bad_hour, msg_out_of_range, version, BirthMoment, LunarDate, SolarDate};
use crate::strs::{to_chars, trim, trim_string};
use crate::text::push_str;
use crate::tuvi::lap::{la_so_is, lap_la_so};
use crate::tuvi::types::{Gender, TuViChart, TuViError};

verus! {

/// Phiên bản engine hiện tại — ghi vào mỗi hồ sơ mới.
pub fn engine_ver() -> (r: &'static str)
    ensures
        r@ == "0.1.0"@,
{
    version()
}

// ===========================================================================
// Lỗi
// ===========================================================================

/// Lỗi truy vấn của `sqlx`.
#[verifier::external_type_specification]
#[verifier::external_body]
pub struct ExSqlxError(sqlx::Error);

/// Lỗi khi tạo hồ sơ.
#[derive(Debug)]
pub enum LoiHoSo {
    /// Dữ liệu người dùng nhập không hợp lệ.
    DuLieu(String),
    /// Engine không lập được lá số (thường do ngoài phạm vi 1900–2100).
    Engine(String),
    /// Lỗi cơ sở dữ liệu.
    Db(sqlx::Error),
}

/// Chuỗi hiển thị (`Display`) của `sqlx::Error`. Không có mệnh đề nào về nội dung:
/// thông điệp do `sqlx` soạn theo từng loại lỗi.
#[verifier::external_body]
fn sqlx_error_text(e: &sqlx::Error) -> String {
    format!("{e}")
}

impl LoiHoSo {
    /// Chuỗi hiển thị của lỗi (thay cho `Display`). Với lỗi cơ sở dữ liệu, phần
    /// sau tiền tố là chuỗi hiển thị của `sqlx`.
    pub fn to_string(&self) -> (r: String)
        ensures
            self matches LoiHoSo::DuLieu(m) ==> r@ == m@,
            self matches LoiHoSo::Engine(m) ==> r@ == "không lập được lá số: "@ + m@,
            self is Db ==> r@.len() >= "lỗi cơ sở dữ liệu: "@.len() && r@.subrange(
                0,
                "lỗi cơ sở dữ liệu: "@.len() as int,
            ) == "lỗi cơ sở dữ liệu: "@,
    {
        match self {
            LoiHoSo::DuLieu(m) => m.clone(),
            LoiHoSo::Engine(m) => {
                let mut s = String::from_str("không lập được lá số: ");
                push_str(&mut s, m.as_str());
                s
            },
            LoiHoSo::Db(e) => {
                let mut s = String::from_str("lỗi cơ sở dữ liệu: ");
                let ghost p = s@;
                let t = sqlx_error_text(e);
                push_str(&mut s, t.as_str());
                proof {
                    assert(s@.subrange(0, p.len() as int) =~= p);
                }
                s
            },
        }
    }
}

// ===========================================================================
// Dữ liệu nhập
// ===========================================================================

/// Dữ liệu nhập vào để lập lá số (dùng chung cho form HTML và API JSON).
#[derive(Debug, Clone, PartialEq, Eq)]
pub struct NhapHoSo {
    pub ten: String,
    /// 'YYYY-MM-DD'.
    pub ngay_sinh: String,
    pub gio: u8,
    pub phut: u8,
    /// `nam` | `nu`.
    pub gioi_tinh: String,
    pub ghi_chu: String,
}

/// Ngày (năm, tháng, ngày) mà `chrono::NaiveDate::parse_from_str(s, "%Y-%m-%d")`
/// đọc được từ `s`, nếu đọc được.
pub uninterp spec fn ngay_iso(s: Seq<char>) -> Option<(i32, u32, u32)>;

/// Cách viết `Debug` của một chuỗi (`format!("{:?}", s)`): trong ngoặc kép, các
/// ký tự đặc biệt được thoát.
pub uninterp spec fn chuoi_debug(s: Seq<char>) -> Seq<char>;

/// `chrono::NaiveDate::parse_from_str(s, "%Y-%m-%d")`, trả (năm, tháng, ngày).
/// Kết quả là tên `ngay_iso` của đối số; ngày đọc được là một ngày có thật, năm
/// trong khoảng của `NaiveDate` (−262143 … 262142).
#[verifier::external_body]
fn doc_ngay_iso(s: &str) -> (r: Option<(i32, u32, u32)>)
    ensures
        r == ngay_iso(s@),
        r matches Some((y, m, d)) ==> -262143 <= y <= 262142 && 1 <= m <= 12 && 1 <= d
            <= crate::lich::days_in_month(y as int, m as int),
{
    chrono::NaiveDate::parse_from_str(s, "%Y-%m-%d").ok().map(|d| (d.year(), d.month(), d.day()))
}

/// `format!("{:?}", s)`. Kết quả là tên `chuoi_debug` của đối số.
#[verifier::external_body]
fn viet_debug(s: &str) -> (r: String)
    ensures
        r@ == chuoi_debug(s@),
{
    format!("{:?}", s)
}

/// Thông báo ngày sinh sai định dạng.
pub open spec fn msg_ngay_sai(ngay_sinh: Seq<char>) -> Seq<char> {
    "Ngày sinh "@ + chuoi_debug(ngay_sinh) + " không hợp lệ — cần định dạng YYYY-MM-DD."@
}

/// Thông báo giới tính lạ.
pub open spec fn msg_gioi_tinh_sai(g: Seq<char>) -> Seq<char> {
    "Giới tính "@ + chuoi_debug(g) + " không hợp lệ — chỉ nhận 'nam' hoặc 'nu'."@
}

/// Ngày dương của bộ (năm, tháng, ngày).
pub open spec fn solar_of(t: (i32, u32, u32)) -> SolarDate {
    SolarDate { year: t.0, month: t.1 as u8, day: t.2 as u8 }
}

/// Kết quả kiểm tra dữ liệu nhập, theo thứ tự: họ tên (sau khi bỏ khoảng trắng
/// hai đầu) rỗng; ngày sinh (sau khi bỏ khoảng trắng) không đọc được theo
/// `YYYY-MM-DD`; giờ quá 23; phút quá 59; giới tính (sau khi bỏ khoảng trắng)
/// không phải `nam` hay `nu`.
pub open spec fn kiem_tra_is(n: NhapHoSo, r: Result<(SolarDate, BirthMoment, Gender), LoiHoSo>) -> bool {
    let ngay = ngay_iso(trim(n.ngay_sinh@));
    let gt = trim(n.gioi_tinh@);
    if trim(n.ten@).len() == 0 {
        r matches Err(LoiHoSo::DuLieu(m)) && m@ == "Họ tên không được để trống."@
    } else if ngay is None {
        r matches Err(LoiHoSo::DuLieu(m)) && m@ == msg_ngay_sai(n.ngay_sinh@)
    } else if n.gio > 23 {
        r matches Err(LoiHoSo::DuLieu(m)) && m@ == "Giờ sinh phải trong khoảng 0–23."@
    } else if n.phut > 59 {
        r matches Err(LoiHoSo::DuLieu(m)) && m@ == "Phút sinh phải trong khoảng 0–59."@
    } else if gt != "nam"@ && gt != "nu"@ {
        r matches Err(LoiHoSo::DuLieu(m)) && m@ == msg_gioi_tinh_sai(gt)
    } else {
        let d = solar_of(ngay.unwrap());
        r matches Ok((date, birth, gender)) && date == d && birth == (BirthMoment {
            solar_date: d,
            hour: n.gio,
            minute: n.phut,
        }) && gender == (if gt == "nam"@ {
            Gender::Nam
        } else {
            Gender::Nu
        })
    }
}

/// So một chuỗi với chữ `lit`.
fn la_chu(s: &String, lit: &str) -> (r: bool)
    ensures
        r == (s@ == lit@),
{
    let t = String::from_str(lit);
    *s == t
}

/// Kiểm tra và chuẩn hoá dữ liệu nhập.
pub fn kiem_tra(n: &NhapHoSo) -> (r: Result<(SolarDate, BirthMoment, Gender), LoiHoSo>)
    ensures
        kiem_tra_is(*n, r),
        r matches Ok((date, _, _)) ==> date.valid(),
{
    let ten = trim_string(n.ten.as_str());
    if ten.as_str().unicode_len() == 0 {
        return Err(LoiHoSo::DuLieu(String::from_str("Họ tên không được để trống.")));
    }
    let ngay = trim_string(n.ngay_sinh.as_str());
    let (y, m, d) = match doc_ngay_iso(ngay.as_str()) {
        Some(t) => t,
        None => {
            let mut s = String::from_str("Ngày sinh ");
            let dbg = viet_debug(n.ngay_sinh.as_str());
            push_str(&mut s, dbg.as_str());
            push_str(&mut s, " không hợp lệ — cần định dạng YYYY-MM-DD.");
            return Err(LoiHoSo::DuLieu(s));
        },
    };
    if n.gio > 23 {
        return Err(LoiHoSo::DuLieu(String::from_str("Giờ sinh phải trong khoảng 0–23.")));
    }
    if n.phut > 59 {
        return Err(LoiHoSo::DuLieu(String::from_str("Phút sinh phải trong khoảng 0–59.")));
    }
    let gt = trim_string(n.gioi_tinh.as_str());
    let gender = if la_chu(&gt, "nam") {
        Gender::Nam
    } else if la_chu(&gt, "nu") {
        Gender::Nu
    } else {
        let mut s = String::from_str("Giới tính ");
        let dbg = viet_debug(gt.as_str());
        push_str(&mut s, dbg.as_str());
        push_str(&mut s, " không hợp lệ — chỉ nhận 'nam' hoặc 'nu'.");
        return Err(LoiHoSo::DuLieu(s));
    };
    let date = SolarDate { year: y, month: m as u8, day: d as u8 };
    Ok((date, BirthMoment { solar_date: date, hour: n.gio, minute: n.phut }, gender))
}

// ===========================================================================
// Lập lá số
// ===========================================================================

/// Chuỗi lỗi engine khi năm sinh `year` ngoài phạm vi hỗ trợ (lỗi của Tử Vi).
pub open spec fn msg_engine_ngoai_pham_vi(year: int) -> Seq<char> {
    "ngoài phạm vi: "@ + msg_out_of_range(year)
}

/// Chuỗi lỗi engine khi năm Bát Tự `year` ngoài phạm vi hỗ trợ (lỗi âm lịch của
/// Bát Tự).
pub open spec fn msg_engine_nam_bat_tu_ngoai_pham_vi(year: int) -> Seq<char> {
    "lỗi âm lịch: "@ + ("ngoài phạm vi: "@ + msg_out_of_range(year))
}

/// Chuỗi lỗi engine khi giờ sinh `h` quá 23.
pub open spec fn msg_engine_gio_sai(h: int) -> Seq<char> {
    "lỗi âm lịch: "@ + ("ngày âm lịch không hợp lệ: "@ + msg_bad_hour(h))
}

/// Lập cả hai lá số cho một thời điểm sinh: Tử Vi trước, rồi Bát Tự. Lỗi của
/// engine thành `Engine` với chuỗi hiển thị của lỗi.
///
/// `lunar` là ngày âm của ngày sinh; `lap_xuan_curr`, `lap_xuan_next`,
/// `tiet_jds` như ở [`lap_bat_tu`].
pub fn lap_ca_hai(
    birth: BirthMoment,
    gender: Gender,
    lunar: LunarDate,
    lap_xuan_curr: i64,
    lap_xuan_next: i64,
    tiet_jds: &[i64; 12],
) -> (r: Result<(TuViChart, BatTuChart), LoiHoSo>)
    requires
        birth.solar_date.valid(),
        1 <= lunar.month <= 12,
    ensures
        ({
            let year = birth.solar_date.year as int;
            let bt_year = spec_nam_bat_tu(
                year,
                birth.solar_date.jd(),
                lap_xuan_curr as int,
                lap_xuan_next as int,
            );
            &&& !in_range(year) ==> (r matches Err(LoiHoSo::Engine(m)) && m@ == msg_engine_ngoai_pham_vi(year))
            &&& (in_range(year) && !in_range(bt_year)) ==> (r matches Err(LoiHoSo::Engine(m)) && m@
                == msg_engine_nam_bat_tu_ngoai_pham_vi(bt_year))
            &&& (in_range(year) && in_range(bt_year) && birth.hour > 23) ==> (r matches Err(
                LoiHoSo::Engine(m),
            ) && m@ == msg_engine_gio_sai(birth.hour as int))
            &&& (in_range(year) && in_range(bt_year) && birth.hour <= 23) ==> (r matches Ok((t, b))
                && la_so_is(t, birth, lunar, gender) && chart_is(
                b,
                birth,
                gender,
                lap_xuan_curr as int,
                lap_xuan_next as int,
                tiet_jds@,
            ))
        }),
{
    let tuvi = match lap_la_so(birth, lunar, gender) {
        Ok(t) => t,
        Err(e) => {
            let m = e.to_string();
            return Err(LoiHoSo::Engine(m));
        },
    };
    let ghost year = birth.solar_date.year as int;
    assert(in_range(year));
    let bat_tu = match lap_bat_tu(birth, gender, lap_xuan_curr, lap_xuan_next, tiet_jds) {
        Ok(b) => b,
        Err(e) => {
            let m = e.to_string();
            return Err(LoiHoSo::Engine(m));
        },
    };
    Ok((tuvi, bat_tu))
}

// ===========================================================================
// Hồ sơ đã lưu
// ===========================================================================

/// `c` là chữ số thập phân.
pub open spec fn la_chu_so(c: char) -> bool {
    '0' <= c <= '9'
}

/// Dãy `s` khác rỗng và chỉ gồm chữ số.
pub open spec fn la_day_so(s: Seq<char>) -> bool {
    s.len() > 0 && forall|k: int| 0 <= k < s.len() ==> la_chu_so(#[trigger] s[k])
}

/// Giá trị thập phân của dãy chữ số `s`.
pub open spec fn gia_tri_so(s: Seq<char>) -> nat
    decreases s.len(),
{
    if s.len() == 0 {
        0
    } else {
        gia_tri_so(s.drop_last()) * 10 + ((s.last() as int - 48) as nat)
    }
}

/// `v` có dạng `x.y.z` (ba dãy chữ số ngăn bởi dấu chấm) với hai dấu chấm ở vị
/// trí `i < j`.
pub open spec fn tach_phien_ban(v: Seq<char>, i: int, j: int) -> bool {
    &&& 0 <= i < j < v.len()
    &&& v[i] == '.'
    &&& v[j] == '.'
    &&& la_day_so(v.subrange(0, i))
    &&& la_day_so(v.subrange(i + 1, j))
    &&& la_day_so(v.subrange(j + 1, v.len() as int))
}

/// Ba số của chuỗi phiên bản `x.y.z`; `None` khi `v` không có dạng đó.
pub open spec fn phien_ban(v: Seq<char>) -> Option<(nat, nat, nat)> {
    if exists|i: int, j: int| tach_phien_ban(v, i, j) {
        let (i, j) = choose|i: int, j: int| tach_phien_ban(v, i, j);
        Some(
            (
                gia_tri_so(v.subrange(0, i)),
                gia_tri_so(v.subrange(i + 1, j)),
                gia_tri_so(v.subrange(j + 1, v.len() as int)),
            ),
        )
    } else {
        None
    }
}

/// Thứ tự từ điển trên bộ ba số phiên bản: `a` trước `b`.
pub open spec fn truoc(a: (nat, nat, nat), b: (nat, nat, nat)) -> bool {
    a.0 < b.0 || (a.0 == b.0 && (a.1 < b.1 || (a.1 == b.1 && a.2 < b.2)))
}

/// Hồ sơ ghi phiên bản `v` cần cảnh báo: `v` là một phiên bản cũ hơn bản đang
/// chạy, hoặc `v` không đọc được thành `x.y.z` (không biết được là cùng bản).
pub open spec fn can_canh_bao(v: Seq<char>) -> bool {
    match phien_ban(v) {
        Some(t) => truoc(t, (0, 1, 0)),
        None => true,
    }
}

/// Phiên bản đang chạy "0.1.0" đọc ra đúng bộ ba (0, 1, 0).
pub proof fn lemma_phien_ban_hien_tai()
    ensures
        phien_ban("0.1.0"@) == Some((0nat, 1nat, 0nat)),
{
    reveal_strlit("0.1.0");
    let v = "0.1.0"@;
    assert(v.subrange(0, 1) =~= seq!['0']);
    assert(v.subrange(2, 3) =~= seq!['1']);
    assert(v.subrange(4, 5) =~= seq!['0']);
    assert(tach_phien_ban(v, 1, 3));
    let (i, j) = choose|i: int, j: int| tach_phien_ban(v, i, j);
    assert(i == 1 && j == 3) by {
        assert(forall|k: int| 0 <= k < 5 && v[k] == '.' ==> k == 1 || k == 3);
        if i != 1 {
            assert(la_chu_so(v.subrange(0, i)[1]));
        }
    }
    assert(seq!['0'].drop_last() =~= Seq::<char>::empty());
    assert(seq!['1'].drop_last() =~= Seq::<char>::empty());
    assert(('0' as int) == 48 && ('1' as int) == 49);
    assert(seq!['0'].len() == 1 && seq!['0'].last() == '0');
    assert(seq!['1'].len() == 1 && seq!['1'].last() == '1');
    assert(gia_tri_so(Seq::<char>::empty()) == 0);
    assert(gia_tri_so(seq!['0']) == 0);
    assert(gia_tri_so(seq!['1']) == 1);
    assert(gia_tri_so(v.subrange(0, 1)) == 0);
    assert(gia_tri_so(v.subrange(2, 3)) == 1);
    assert(gia_tri_so(v.subrange(4, 5)) == 0);
}

/// Dãy chữ số có giá trị 0 đúng khi mọi chữ số là '0'.
proof fn lemma_gia_tri_khong(s: Seq<char>)
    requires
        forall|k: int| 0 <= k < s.len() ==> la_chu_so(#[trigger] s[k]),
    ensures
        gia_tri_so(s) == 0 <==> forall|k: int| 0 <= k < s.len() ==> #[trigger] s[k] == '0',
    decreases s.len(),
{
    if s.len() > 0 {
        let p = s.drop_last();
        assert forall|k: int| 0 <= k < p.len() implies la_chu_so(#[trigger] p[k]) by {
            assert(p[k] == s[k]);
        }
        lemma_gia_tri_khong(p);
        if forall|k: int| 0 <= k < s.len() ==> #[trigger] s[k] == '0' {
            assert forall|k: int| 0 <= k < p.len() implies #[trigger] p[k] == '0' by {
                assert(p[k] == s[k]);
            }
            assert(s[s.len() - 1] == '0');
        }
        if gia_tri_so(s) == 0 {
            assert forall|k: int| 0 <= k < s.len() implies #[trigger] s[k] == '0' by {
                if k < s.len() - 1 {
                    assert(p[k] == s[k]);
                }
            }
        }
    }
}

/// Mọi ký tự của `v` trong `[lo, hi)` là '0'.
fn toan_so_khong(v: &Vec<char>, lo: usize, hi: usize) -> (r: bool)
    requires
        lo <= hi <= v.len(),
    ensures
        r == forall|k: int| lo <= k < hi ==> #[trigger] v@[k] == '0',
{
    let mut k = lo;
    while k < hi
        invariant
            lo <= k <= hi <= v.len(),
            forall|t: int| lo <= t < k ==> #[trigger] v@[t] == '0',
        decreases hi - k,
    {
        if v[k] != '0' {
            return false;
        }
        k = k + 1;
    }
    true
}

/// Cảnh báo khi hồ sơ được tính bằng phiên bản engine `ver` cũ hơn bản đang chạy.
pub open spec fn msg_phien_ban(ver: Seq<char>) -> Seq<char> {
    "Lá số này được tính bằng engine phiên bản "@ + ver + " , bản đang chạy là "@ + "0.1.0"@
        + ". Nội dung hiển thị giữ nguyên như lúc lưu. Nếu muốn áp dụng các bản sửa sau đó, hãy lập lại lá số mới với cùng ngày giờ sinh."@
}

/// Hồ sơ ghi phiên bản `v` có cần cảnh báo không (xem [`can_canh_bao`]).
fn xet_phien_ban(s: &str) -> (r: bool)
    ensures
        r == can_canh_bao(s@),
{
    let v = to_chars(s);
    let n = v.len();
    // Vị trí hai dấu chấm đầu tiên, số dấu chấm, và mọi ký tự khác có là chữ số.
    let mut i: usize = 0;
    let mut j: usize = 0;
    let mut so_cham: usize = 0;
    let mut toan_so = true;
    let mut k: usize = 0;
    while k < n
        invariant
            n == v.len(),
            v@ == s@,
            k <= n,
            so_cham <= k,
            so_cham >= 1 ==> i < k && v@[i as int] == '.',
            so_cham >= 2 ==> i < j < k && v@[j as int] == '.',
            so_cham == 0 ==> forall|t: int| 0 <= t < k ==> #[trigger] v@[t] != '.',
            so_cham == 1 ==> forall|t: int| 0 <= t < k && t != i ==> #[trigger] v@[t] != '.',
            so_cham == 2 ==> forall|t: int| 0 <= t < k && t != i && t != j ==> #[trigger] v@[t] != '.',
            so_cham >= 3 ==> exists|t: int| 0 <= t < k && t != i && t != j && v@[t] == '.',
            toan_so <==> forall|t: int| 0 <= t < k && v@[t] != '.' ==> la_chu_so(#[trigger] v@[t]),
        decreases n - k,
    {
        let c = v[k];
        if c == '.' {
            if so_cham == 0 {
                i = k;
            } else if so_cham == 1 {
                j = k;
            }
            if so_cham < 3 {
                so_cham = so_cham + 1;
            }
        } else if !('0' <= c && c <= '9') {
            toan_so = false;
        }
        k = k + 1;
    }
    let hop_le = so_cham == 2 && toan_so && 0 < i && i + 1 < j && j + 1 < n;
    proof {
        let vs = v@;
        if hop_le {
            assert(tach_phien_ban(vs, i as int, j as int)) by {
                assert forall|t: int| 0 <= t < i implies la_chu_so(#[trigger] vs.subrange(0, i as int)[t]) by {
                    assert(vs.subrange(0, i as int)[t] == vs[t]);
                }
                assert forall|t: int| 0 <= t < j - i - 1 implies la_chu_so(
                    #[trigger] vs.subrange(i + 1, j as int)[t],
                ) by {
                    assert(vs.subrange(i + 1, j as int)[t] == vs[i + 1 + t]);
                }
                assert forall|t: int| 0 <= t < n - j - 1 implies la_chu_so(
                    #[trigger] vs.subrange(j + 1, n as int)[t],
                ) by {
                    assert(vs.subrange(j + 1, n as int)[t] == vs[j + 1 + t]);
                }
            }
            let (a, b) = choose|a: int, b: int| tach_phien_ban(vs, a, b);
            assert(a == i && b == j) by {
                assert(vs[a] == '.' && vs[b] == '.');
                if a != i && a != j {
                    assert(false);
                }
                if b != i && b != j {
                    assert(false);
                }
            }
        } else {
            assert forall|a: int, b: int| !tach_phien_ban(vs, a, b) by {
                if tach_phien_ban(vs, a, b) {
                    // Mọi ký tự ngoài a, b là chữ số, nên chỉ có đúng hai dấu chấm.
                    assert forall|t: int| 0 <= t < n && t != a && t != b implies #[trigger] vs[t] != '.'
                        && la_chu_so(vs[t]) by {
                        if t < a {
                            assert(vs.subrange(0, a)[t] == vs[t]);
                        } else if t < b {
                            assert(vs.subrange(a + 1, b)[t - a - 1] == vs[t]);
                        } else {
                            assert(vs.subrange(b + 1, n as int)[t - b - 1] == vs[t]);
                        }
                    }
                    if so_cham >= 3 {
                        let t = choose|t: int| 0 <= t < k && t != i && t != j && vs[t] == '.';
                        assert(t == a || t == b);
                        assert(i == a || i == b);
                        assert(j == a || j == b);
                    }
                    assert(so_cham >= 1) by {
                        if so_cham == 0 {
                            assert(vs[a] != '.');
                        }
                    }
                    assert(so_cham >= 2) by {
                        if so_cham == 1 {
                            if i == a {
                                assert(vs[b] != '.');
                            } else {
                                assert(vs[a] != '.');
                            }
                        }
                    }
                    assert(i == a && j == b);
                    assert(toan_so);
                }
            }
        }
    }
    if !hop_le {
        return true;
    }
    let a0 = toan_so_khong(&v, 0, i);
    let b0 = toan_so_khong(&v, i + 1, j);
    proof {
        let vs = v@;
        let (a, b) = choose|a: int, b: int| tach_phien_ban(vs, a, b);
        let sa = vs.subrange(0, i as int);
        let sb = vs.subrange(i + 1, j as int);
        lemma_gia_tri_khong(sa);
        lemma_gia_tri_khong(sb);
        assert(a0 == forall|t: int| 0 <= t < sa.len() ==> #[trigger] sa[t] == '0') by {
            if a0 {
                assert forall|t: int| 0 <= t < sa.len() implies #[trigger] sa[t] == '0' by {
                    assert(sa[t] == vs[t]);
                }
            } else {
                let w = choose|w: int| 0 <= w < i && !(#[trigger] vs[w] == '0');
                assert(sa[w] == vs[w]);
            }
        }
        assert(b0 == forall|t: int| 0 <= t < sb.len() ==> #[trigger] sb[t] == '0') by {
            if b0 {
                assert forall|t: int| 0 <= t < sb.len() implies #[trigger] sb[t] == '0' by {
                    assert(sb[t] == vs[i + 1 + t]);
                }
            } else {
                let w = choose|w: int| i + 1 <= w < j && !(#[trigger] vs[w] == '0');
                assert(sb[w - i - 1] == vs[w]);
            }
        }
    }
    a0 && b0
}

/// Cảnh báo nếu hồ sơ được tính bằng phiên bản engine cũ hơn bản đang chạy.
///
/// Chuỗi phiên bản không đọc được thành `x.y.z` cũng được cảnh báo, vì không
/// biết nó có cùng bản đang chạy hay không. Không tự động tính lại: lá số cũ là
/// dữ liệu người dùng đã thấy, im lặng thay đổi nó thì tệ hơn là báo cho họ biết.
pub fn canh_bao_phien_ban(h: &HoSo) -> (r: Option<String>)
    ensures
        r is Some <==> can_canh_bao(h.engine_ver@),
        r matches Some(m) ==> m@ == msg_phien_ban(h.engine_ver@),
{
    let hien_tai = engine_ver();
    if !xet_phien_ban(h.engine_ver.as_str()) {
        return None;
    }
    let mut s = String::from_str("Lá số này được tính bằng engine phiên bản ");
    push_str(&mut s, h.engine_ver.as_str());
    push_str(&mut s, " , bản đang chạy là ");
    push_str(&mut s, hien_tai);
    push_str(
        &mut s,
        ". Nội dung hiển thị giữ nguyên như lúc lưu. Nếu muốn áp dụng các bản sửa sau đó, hãy lập lại lá số mới với cùng ngày giờ sinh.",
    );
    Some(s)
}

/// Bản rút gọn của hồ sơ để trả JSON (không kèm lá số).
#[derive(Debug, Clone, PartialEq, Eq)]
pub struct HoSoTomTat {
    pub id: i64,
    pub ten: String,
    pub ngay_sinh: String,
    pub gio: u8,
    pub phut: u8,
    pub gioi_tinh: String,
    pub ghi_chu: String,
    pub engine_ver: String,
    pub created_at: String,
    pub updated_at: String,
}

impl HoSoTomTat {
    /// Bản rút gọn của một hồ sơ: mọi trường trừ hai lá số.
    pub fn from_ho_so(h: &HoSo) -> (r: HoSoTomTat)
        ensures
            r.id == h.id,
            r.ten@ == h.ten@,
            r.ngay_sinh@ == h.solar_date@,
            r.gio == h.hour,
            r.phut == h.minute,
            r.gioi_tinh@ == h.gender@,
            r.ghi_chu@ == h.ghi_chu@,
            r.engine_ver@ == h.engine_ver@,
            r.created_at@ == h.created_at@,
            r.updated_at@ == h.updated_at@,
    {
        HoSoTomTat {
            id: h.id,
            ten: h.ten.clone(),
            ngay_sinh: h.solar_date.clone(),
            gio: h.hour,
            phut: h.minute,
            gioi_tinh: h.gender.clone(),
            ghi_chu: h.ghi_chu.clone(),
            engine_ver: h.engine_ver.clone(),
            created_at: h.created_at.clone(),
            updated_at: h.updated_at.clone(),
        }
    }
}

/// Dữ liệu nhập được nhận đúng khi: họ tên (đã cắt khoảng trắng) khác rỗng, ngày
/// sinh đọc được dạng `YYYY-MM-DD`, giờ trong 0..23, phút trong 0..59, giới tính
/// là "nam" hoặc "nu"; khi nhận, thời điểm sinh giữ nguyên giờ phút đã nhập và
/// giới tính Nam đúng khi nhập "nam".
pub proof fn lemma_kiem_tra_nhan_khi(n: NhapHoSo, r: Result<(SolarDate, BirthMoment, Gender), LoiHoSo>)
    requires
        kiem_tra_is(n, r),
    ensures
        r is Ok <==> (trim(n.ten@).len() > 0 && ngay_iso(trim(n.ngay_sinh@)) is Some && n.gio <= 23
            && n.phut <= 59 && (trim(n.gioi_tinh@) == "nam"@ || trim(n.gioi_tinh@) == "nu"@)),
        r matches Ok((d, b, g)) ==> b.solar_date == d && b.hour == n.gio && b.minute == n.phut && (g
            == Gender::Nam <==> trim(n.gioi_tinh@) == "nam"@),
{
    reveal_strlit("nam");
    reveal_strlit("nu");
}

/// Với bản đang chạy 0.1.0, hồ sơ ghi phiên bản `x.y.z` được cảnh báo đúng khi
/// `x = 0` và `y = 0` (mọi bản 0.0.z đều cũ hơn; 0.1.z và mọi bản từ 1.0.0 trở
/// lên thì không); chuỗi không đọc được thành `x.y.z` luôn được cảnh báo.
pub proof fn lemma_canh_bao_khi_cu_hon(v: Seq<char>)
    ensures
        phien_ban(v) matches Some(t) ==> (can_canh_bao(v) <==> (t.0 == 0 && t.1 == 0)),
        phien_ban(v) is None ==> can_canh_bao(v),
{
}

} // verus!
