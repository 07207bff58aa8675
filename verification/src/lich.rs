//! Kiểu dữ liệu chung của lõi âm lịch (ngày dương, ngày âm, thời điểm sinh,
//! lỗi) và các hàm Can–Chi có kiểm tra phạm vi 1900–2100.

use vstd::prelude::*;

use crate::astronomy::{
    chia_cat, jd_from_date, jd_in_bounds, jd_to_date, lunar_from_frame, spec_jd_from_date, spec_jd_to_date,
    spec_lunar_from_frame, LunarRaw,
};
use crate::canchi::{
    self, spec_day_can_chi, spec_hour_can_chi, spec_month_can_chi, spec_year_can_chi, CanChi,
    HeavenlyStem,
};
use crate::text::{decimal, digits, pad2, pad4, push_char, push_digits, push_int, push_pad2, push_pad4, push_str};

verus! {

// ===========================================================================
// Hằng và phiên bản
// ===========================================================================

/// Tên app hiển thị ra UI/log.
pub const APP_NAME: &'static str = "Tinh Bàn";

/// Năm dương lịch nhỏ nhất được hỗ trợ.
pub const MIN_SOLAR_YEAR: i32 = 1900;

/// Năm dương lịch lớn nhất được hỗ trợ.
pub const MAX_SOLAR_YEAR: i32 = 2100;

/// Tên app.
pub fn app_name() -> (r: &'static str)
    ensures
        r@ == "Tinh Bàn"@,
{
    "Tinh Bàn"
}

/// Phiên bản của thư viện (engine), ghi vào mỗi hồ sơ lá số.
pub fn version() -> (r: &'static str)
    ensures
        r@ == "0.1.0"@,
{
    "0.1.0"
}

// ===========================================================================
// Ngày dương lịch
// ===========================================================================

/// Năm nhuận theo lịch Gregory (kéo dài về trước).
pub open spec fn is_leap_year(y: int) -> bool {
    (y % 4 == 0 && y % 100 != 0) || y % 400 == 0
}

/// Số ngày của tháng `m` năm `y`.
pub open spec fn days_in_month(y: int, m: int) -> int {
    if m == 2 {
        if is_leap_year(y) {
            29
        } else {
            28
        }
    } else if m == 4 || m == 6 || m == 9 || m == 11 {
        30
    } else {
        31
    }
}

/// Ngày dương lịch (lịch Gregory), thay cho `chrono::NaiveDate` trong lõi.
#[derive(Debug, Clone, Copy, PartialEq, Eq, Structural, Hash)]
pub struct SolarDate {
    pub year: i32,
    pub month: u8,
    pub day: u8,
}

impl SolarDate {
    /// Ngày có thật trong lịch Gregory (kéo dài về trước), năm trong khoảng của
    /// `chrono::NaiveDate` (−262144 … 262143).
    pub open spec fn valid(self) -> bool {
        &&& -262144 <= self.year <= 262143
        &&& 1 <= self.month <= 12
        &&& 1 <= self.day <= days_in_month(self.year as int, self.month as int)
    }

    /// Julian Day Number của ngày.
    pub open spec fn jd(self) -> int {
        spec_jd_from_date(self.day as int, self.month as int, self.year as int)
    }

    /// Dựng ngày từ năm, tháng, ngày; `None` nếu không có ngày đó.
    pub fn new(year: i32, month: u8, day: u8) -> (r: Option<SolarDate>)
        ensures
            r matches Some(d) ==> d.valid() && d.year == year && d.month == month && d.day == day,
            r is None <==> !(SolarDate { year, month, day }).valid(),
    {
        if year < -262144 || year > 262143 || month < 1 || month > 12 || day < 1 {
            return None;
        }
        let leap = (year % 4 == 0 && year % 100 != 0) || year % 400 == 0;
        let dim: u8 = if month == 2 {
            if leap {
                29
            } else {
                28
            }
        } else if month == 4 || month == 6 || month == 9 || month == 11 {
            30
        } else {
            31
        };
        if day > dim {
            None
        } else {
            Some(SolarDate { year, month, day })
        }
    }

    /// Thứ tự từ điển (năm, tháng, ngày): `self` không sau `other`.
    pub open spec fn le(self, other: SolarDate) -> bool {
        self.year < other.year || (self.year == other.year && (self.month < other.month || (
        self.month == other.month && self.day <= other.day)))
    }

    /// Số đo tăng ngặt theo thứ tự ngày (dùng làm thước đo kết thúc vòng lặp).
    pub open spec fn ordinal(self) -> int {
        self.year * 372 + self.month * 31 + self.day
    }

    /// Ngày hôm sau.
    pub open spec fn spec_succ(self) -> SolarDate {
        if (self.day as int) < days_in_month(self.year as int, self.month as int) {
            SolarDate { day: (self.day + 1) as u8, ..self }
        } else if self.month < 12 {
            SolarDate { month: (self.month + 1) as u8, day: 1, ..self }
        } else {
            SolarDate { year: (self.year + 1) as i32, month: 1, day: 1 }
        }
    }

    /// Cách viết "YYYY-MM-DD" (như `Display` của `chrono::NaiveDate`: năm 4 chữ số
    /// có số 0 đứng đầu, năm trên 9999 có dấu `+`, năm âm có dấu `-`).
    pub open spec fn iso_seq(self) -> Seq<char> {
        let y = self.year as int;
        let ys = if 0 <= y <= 9999 {
            pad4(y as nat)
        } else if y > 9999 {
            seq!['+'] + digits(y as nat)
        } else {
            seq!['-'] + pad4((-y) as nat)
        };
        ys + seq!['-'] + pad2(self.month as nat) + seq!['-'] + pad2(self.day as nat)
    }

    /// Ngày hôm sau.
    pub fn succ(self) -> (r: SolarDate)
        requires
            self.valid(),
            self.year < 262143,
        ensures
            r == self.spec_succ(),
            r.valid(),
            r.ordinal() > self.ordinal(),
    {
        let leap = (self.year % 4 == 0 && self.year % 100 != 0) || self.year % 400 == 0;
        let dim: u8 = if self.month == 2 {
            if leap {
                29
            } else {
                28
            }
        } else if self.month == 4 || self.month == 6 || self.month == 9 || self.month == 11 {
            30
        } else {
            31
        };
        if self.day < dim {
            SolarDate { day: self.day + 1, ..self }
        } else if self.month < 12 {
            SolarDate { month: self.month + 1, day: 1, ..self }
        } else {
            SolarDate { year: self.year + 1, month: 1, day: 1 }
        }
    }

    /// `self` không sau `other`.
    pub fn le_exec(&self, other: &SolarDate) -> (r: bool)
        ensures
            r == self.le(*other),
    {
        self.year < other.year || (self.year == other.year && (self.month < other.month || (
        self.month == other.month && self.day <= other.day)))
    }

    /// Chuỗi "YYYY-MM-DD".
    pub fn to_iso_string(&self) -> (r: String)
        ensures
            r@ == self.iso_seq(),
    {
        let mut s = String::new();
        let y = self.year;
        if 0 <= y && y <= 9999 {
            push_pad4(&mut s, y as u64);
        } else if y > 9999 {
            push_char(&mut s, '+');
            push_digits(&mut s, y as u64);
        } else {
            push_char(&mut s, '-');
            push_pad4(&mut s, (-(y as i64)) as u64);
        }
        push_char(&mut s, '-');
        push_pad2(&mut s, self.month as u64);
        push_char(&mut s, '-');
        push_pad2(&mut s, self.day as u64);
        assert(s@ =~= self.iso_seq());
        s
    }

    /// Julian Day Number của ngày.
    pub fn to_jd(self) -> (r: i64)
        requires
            self.valid(),
        ensures
            r == self.jd(),
    {
        jd_from_date(self.day as i64, self.month as i64, self.year as i64)
    }
}

// ===========================================================================
// Ngày âm lịch, thời điểm sinh, lỗi
// ===========================================================================

/// Ngày âm lịch dạng có cấu trúc.
#[derive(Debug, Clone, Copy, PartialEq, Eq, Structural, Hash)]
pub struct LunarDate {
    /// Ngày âm (1–30).
    pub day: u8,
    /// Tháng âm (1–12); với tháng nhuận là số của tháng được nhân đôi.
    pub month: u8,
    /// Năm âm.
    pub year: i32,
    /// `true` nếu đây là tháng nhuận.
    pub is_leap_month: bool,
}

/// Ngày/giờ sinh dương lịch đầy đủ — đầu vào chung của Tử Vi và Bát Tự.
#[derive(Debug, Clone, Copy, PartialEq, Eq, Structural, Hash)]
pub struct BirthMoment {
    pub solar_date: SolarDate,
    /// 0–23 (giờ đồng hồ).
    pub hour: u8,
    /// 0–59.
    pub minute: u8,
}

/// Lỗi của các hàm chuyển lịch / tính Can Chi.
#[derive(Debug, Clone, PartialEq, Eq)]
pub enum LunarError {
    /// Ngày / năm ngoài phạm vi 1900–2100 (dương lịch).
    OutOfRange(String),
    /// Ngày tháng âm lịch không hợp lệ.
    InvalidLunarDate(String),
}

impl LunarError {
    /// Thông điệp kèm theo lỗi.
    pub open spec fn message(self) -> Seq<char> {
        match self {
            LunarError::OutOfRange(m) => m@,
            LunarError::InvalidLunarDate(m) => m@,
        }
    }

    /// Chuỗi hiển thị của lỗi (thay cho `Display`).
    pub open spec fn spec_to_string(self) -> Seq<char> {
        match self {
            LunarError::OutOfRange(m) => "ngoài phạm vi: "@ + m@,
            LunarError::InvalidLunarDate(m) => "ngày âm lịch không hợp lệ: "@ + m@,
        }
    }

    /// Chuỗi hiển thị của lỗi.
    pub fn to_string(&self) -> (r: String)
        ensures
            r@ == self.spec_to_string(),
    {
        match self {
            LunarError::OutOfRange(m) => {
                let mut s = String::from_str("ngoài phạm vi: ");
                push_str(&mut s, m.as_str());
                s
            },
            LunarError::InvalidLunarDate(m) => {
                let mut s = String::from_str("ngày âm lịch không hợp lệ: ");
                push_str(&mut s, m.as_str());
                s
            },
        }
    }
}

/// Năm nằm trong phạm vi hỗ trợ 1900–2100.
pub open spec fn in_range(year: int) -> bool {
    1900 <= year <= 2100
}

/// Thông điệp khi năm ngoài phạm vi.
pub open spec fn msg_out_of_range(year: int) -> Seq<char> {
    "năm "@ + decimal(year) + " ngoài phạm vi hỗ trợ 1900–2100"@
}

/// Thông điệp khi tháng âm ngoài 1..=12.
pub open spec fn msg_bad_month(m: int) -> Seq<char> {
    "tháng âm phải nằm trong 1..=12, nhận được "@ + decimal(m)
}

/// Thông điệp khi ngày âm ngoài 1..=30.
pub open spec fn msg_bad_day(d: int) -> Seq<char> {
    "ngày âm phải nằm trong 1..=30, nhận được "@ + decimal(d)
}

/// Thông điệp khi giờ ngoài 0..=23.
pub open spec fn msg_bad_hour(h: int) -> Seq<char> {
    "hour phải 0..=23, nhận được "@ + decimal(h)
}

/// Thông điệp khi năm không vừa `i32`.
pub open spec fn msg_not_i32(y: int) -> Seq<char> {
    "năm "@ + decimal(y) + " ngoài i32"@
}

/// Lỗi `OutOfRange` với thông điệp đã cho.
pub open spec fn is_out_of_range_with(e: LunarError, msg: Seq<char>) -> bool {
    e matches LunarError::OutOfRange(m) && m@ == msg
}

/// Lỗi `InvalidLunarDate` với thông điệp đã cho.
pub open spec fn is_invalid_with(e: LunarError, msg: Seq<char>) -> bool {
    e matches LunarError::InvalidLunarDate(m) && m@ == msg
}

/// Kiểm tra năm trong 1900–2100.
pub fn check_range(year: i32) -> (r: Result<(), LunarError>)
    ensures
        r is Ok <==> in_range(year as int),
        r matches Err(e) ==> is_out_of_range_with(e, msg_out_of_range(year as int)),
{
    if year < MIN_SOLAR_YEAR || year > MAX_SOLAR_YEAR {
        let mut s = String::from_str("năm ");
        push_int(&mut s, year as i64);
        push_str(&mut s, " ngoài phạm vi hỗ trợ 1900–2100");
        return Err(LunarError::OutOfRange(s));
    }
    Ok(())
}

// ===========================================================================
// Can–Chi có kiểm tra đầu vào
// ===========================================================================

/// Can–Chi của năm (âm lịch); lỗi `OutOfRange` nếu ngoài 1900–2100.
pub fn year_can_chi(year: i32) -> (r: Result<CanChi, LunarError>)
    ensures
        r matches Ok(cc) ==> in_range(year as int) && cc == spec_year_can_chi(year as int),
        r matches Err(e) ==> !in_range(year as int) && is_out_of_range_with(
            e,
            msg_out_of_range(year as int),
        ),
{
    check_range(year)?;
    Ok(canchi::year_can_chi(year as i64))
}

/// Can–Chi của tháng âm (quy tắc Ngũ Thử Độn); lỗi `InvalidLunarDate` nếu
/// tháng ngoài 1..=12.
pub fn month_can_chi(lunar_year_can: HeavenlyStem, lunar_month: u8) -> (r: Result<
    CanChi,
    LunarError,
>)
    ensures
        r matches Ok(cc) ==> 1 <= lunar_month <= 12 && cc == spec_month_can_chi(
            lunar_year_can,
            lunar_month as int,
        ),
        r matches Err(e) ==> !(1 <= lunar_month <= 12) && is_invalid_with(
            e,
            msg_bad_month(lunar_month as int),
        ),
{
    if lunar_month < 1 || lunar_month > 12 {
        let mut s = String::from_str("tháng âm phải nằm trong 1..=12, nhận được ");
        push_int(&mut s, lunar_month as i64);
        return Err(LunarError::InvalidLunarDate(s));
    }
    Ok(canchi::month_can_chi(lunar_year_can, lunar_month))
}

/// Can–Chi của ngày dương (chu kỳ 60 Giáp Tý theo JD); lỗi `OutOfRange` nếu
/// năm ngoài 1900–2100.
pub fn day_can_chi(date: SolarDate) -> (r: Result<CanChi, LunarError>)
    requires
        date.valid(),
    ensures
        r matches Ok(cc) ==> in_range(date.year as int) && cc == spec_day_can_chi(date.jd()),
        r matches Err(e) ==> !in_range(date.year as int) && is_out_of_range_with(
            e,
            msg_out_of_range(date.year as int),
        ),
{
    check_range(date.year)?;
    let jd = date.to_jd();
    Ok(canchi::day_can_chi(jd))
}

/// Can–Chi của giờ (giờ Tý từ 23h, Ngũ Thử Độn Thời); lỗi `InvalidLunarDate`
/// nếu giờ lớn hơn 23.
pub fn hour_can_chi(day_can: HeavenlyStem, hour: u8) -> (r: Result<CanChi, LunarError>)
    ensures
        r matches Ok(cc) ==> hour <= 23 && cc == spec_hour_can_chi(day_can, hour as int),
        r matches Err(e) ==> hour > 23 && is_invalid_with(e, msg_bad_hour(hour as int)),
{
    if hour > 23 {
        let mut s = String::from_str("hour phải 0..=23, nhận được ");
        push_int(&mut s, hour as i64);
        return Err(LunarError::InvalidLunarDate(s));
    }
    Ok(canchi::hour_can_chi(day_can, hour))
}

// ===========================================================================
// Đóng gói kết quả đổi lịch
// ===========================================================================

/// `LunarDate` từ ngày âm thô: năm phải vừa `i32`; ngày, tháng lấy 8 bit thấp.
pub fn lunar_date_of_raw(res: LunarRaw) -> (r: Result<LunarDate, LunarError>)
    requires
        res.year > i64::MIN,
    ensures
        r matches Ok(l) ==> i32::MIN <= res.year <= i32::MAX && l.year == res.year && l.day
            == res.day as u8 && l.month == res.month as u8 && l.is_leap_month == res.leap,
        r matches Err(e) ==> !(i32::MIN <= res.year <= i32::MAX) && is_out_of_range_with(
            e,
            msg_not_i32(res.year as int),
        ),
{
    if res.year < i32::MIN as i64 || res.year > i32::MAX as i64 {
        let mut s = String::from_str("năm ");
        push_int(&mut s, res.year);
        push_str(&mut s, " ngoài i32");
        return Err(LunarError::OutOfRange(s));
    }
    Ok(
        LunarDate {
            day: res.day as u8,
            month: res.month as u8,
            year: res.year as i32,
            is_leap_month: res.leap,
        },
    )
}

/// Kiểm tra đầu vào của phép đổi Âm → Dương, theo thứ tự: năm trong
/// 1900–2100, tháng trong 1..=12, ngày trong 1..=30.
pub fn check_lunar_input(lunar: LunarDate) -> (r: Result<(), LunarError>)
    ensures
        r is Ok <==> in_range(lunar.year as int) && 1 <= lunar.month <= 12 && 1 <= lunar.day
            <= 30,
        r matches Err(e) ==> {
            if !in_range(lunar.year as int) {
                is_out_of_range_with(e, msg_out_of_range(lunar.year as int))
            } else if !(1 <= lunar.month <= 12) {
                is_invalid_with(e, msg_bad_month(lunar.month as int))
            } else {
                is_invalid_with(e, msg_bad_day(lunar.day as int))
            }
        },
{
    check_range(lunar.year)?;
    if lunar.month < 1 || lunar.month > 12 {
        let mut s = String::from_str("tháng âm phải nằm trong 1..=12, nhận được ");
        push_int(&mut s, lunar.month as i64);
        return Err(LunarError::InvalidLunarDate(s));
    }
    if lunar.day < 1 || lunar.day > 30 {
        let mut s = String::from_str("ngày âm phải nằm trong 1..=30, nhận được ");
        push_int(&mut s, lunar.day as i64);
        return Err(LunarError::InvalidLunarDate(s));
    }
    Ok(())
}

/// Thông điệp khi ngày âm không tồn tại (tháng nhuận không có thật).
pub open spec fn msg_no_such_lunar(l: LunarDate) -> Seq<char> {
    "ngày âm "@ + decimal(l.day as int) + "/"@ + decimal(l.month as int) + "/"@ + decimal(
        l.year as int,
    ) + (if l.is_leap_month {
        " (nhuận)"@
    } else {
        ""@
    }) + " không tồn tại (năm "@ + decimal(l.year as int) + " không có tháng "@ + decimal(
        l.month as int,
    ) + " nhuận)"@
}

/// Thông điệp khi JD không ra được ngày dương hợp lệ.
pub open spec fn msg_bad_jd(jd: int, y: int, m: int, d: int) -> Seq<char> {
    "không hợp lệ: jd "@ + decimal(jd) + " → "@ + decimal(y) + "-"@ + decimal(m) + "-"@ + decimal(
        d,
    )
}

/// Ngày dương của JD `jd` nếu năm vừa `i32` và là ngày có thật.
pub open spec fn spec_solar_of_jd(jd: int) -> Option<SolarDate> {
    let (d, m, y) = spec_jd_to_date(jd);
    let s = SolarDate { year: y as i32, month: m as u8, day: d as u8 };
    if i32::MIN <= y <= i32::MAX && 0 <= m < 256 && 0 <= d < 256 && s.valid() {
        Some(s)
    } else {
        None
    }
}

/// Ngày dương lịch của Julian Day Number `jd`.
pub fn solar_of_jd(jd: i64) -> (r: Result<SolarDate, LunarError>)
    requires
        -1_000_000_000_000 <= jd <= 1_000_000_000_000,
    ensures
        r matches Ok(s) ==> spec_solar_of_jd(jd as int) == Some(s),
        r is Err ==> spec_solar_of_jd(jd as int) is None,
        r matches Err(e) ==> {
            let (d, m, y) = spec_jd_to_date(jd as int);
            if !(i32::MIN <= y <= i32::MAX) {
                is_out_of_range_with(e, msg_not_i32(y))
            } else {
                is_invalid_with(e, msg_bad_jd(jd as int, y, m, d))
            }
        },
{
    let (d, m, y) = jd_to_date(jd);
    if y < i32::MIN as i64 || y > i32::MAX as i64 {
        let mut s = String::from_str("năm ");
        push_int(&mut s, y);
        push_str(&mut s, " ngoài i32");
        return Err(LunarError::OutOfRange(s));
    }
    let ok_md = 0 <= m && m < 256 && 0 <= d && d < 256;
    let opt = if ok_md {
        SolarDate::new(y as i32, m as u8, d as u8)
    } else {
        None
    };
    match opt {
        Some(s) => Ok(s),
        None => {
            let mut s = String::from_str("không hợp lệ: jd ");
            push_int(&mut s, jd);
            push_str(&mut s, " → ");
            push_int(&mut s, y);
            push_str(&mut s, "-");
            push_int(&mut s, m);
            push_str(&mut s, "-");
            push_int(&mut s, d);
            Err(LunarError::InvalidLunarDate(s))
        },
    }
}

/// Phần cuối của phép đổi Âm → Dương: ngày dương JD `jd` được nhận khi đổi
/// ngược lại ra `roundtrip` cùng tháng và cùng cờ nhuận với `lunar`; nếu không,
/// ngày âm đó không tồn tại.
pub fn confirm_lunar_to_solar(lunar: LunarDate, jd: i64, roundtrip: LunarRaw) -> (r: Result<
    SolarDate,
    LunarError,
>)
    requires
        -1_000_000_000_000 <= jd <= 1_000_000_000_000,
    ensures
        (roundtrip.leap != lunar.is_leap_month || roundtrip.month != lunar.month) ==> (
        r matches Err(e) && is_invalid_with(e, msg_no_such_lunar(lunar))),
        (roundtrip.leap == lunar.is_leap_month && roundtrip.month == lunar.month) ==> (
        match r {
            Ok(s) => spec_solar_of_jd(jd as int) == Some(s),
            Err(_) => spec_solar_of_jd(jd as int) is None,
        }),
{
    if roundtrip.leap != lunar.is_leap_month || roundtrip.month != lunar.month as i64 {
        let mut s = String::from_str("ngày âm ");
        push_int(&mut s, lunar.day as i64);
        push_str(&mut s, "/");
        push_int(&mut s, lunar.month as i64);
        push_str(&mut s, "/");
        push_int(&mut s, lunar.year as i64);
        if lunar.is_leap_month {
            push_str(&mut s, " (nhuận)");
        } else {
            push_str(&mut s, "");
        }
        push_str(&mut s, " không tồn tại (năm ");
        push_int(&mut s, lunar.year as i64);
        push_str(&mut s, " không có tháng ");
        push_int(&mut s, lunar.month as i64);
        push_str(&mut s, " nhuận)");
        return Err(LunarError::InvalidLunarDate(s));
    }
    solar_of_jd(jd)
}

// ===========================================================================
// Đổi lịch
// ===========================================================================

/// Đổi Dương → Âm cho ngày `date`, biết các mốc sóc của ngày đó (xem
/// [`lunar_from_frame`]): `month_start` là ngày sóc mở đầu tháng âm chứa ngày,
/// `a11`, `b11` là hai ngày bắt đầu tháng 11 âm bao quanh (`b11` thuộc năm
/// `frame_year`), `leap_offset` là vị trí tháng nhuận trong khung đó.
///
/// Lỗi `OutOfRange` khi năm dương ngoài 1900–2100, hoặc khi năm âm không vừa `i32`.
pub fn solar_to_lunar(
    date: SolarDate,
    month_start: i64,
    frame_year: i64,
    a11: i64,
    b11: i64,
    leap_offset: i64,
) -> (r: Result<LunarDate, LunarError>)
    requires
        date.valid(),
        jd_in_bounds(month_start as int),
        jd_in_bounds(frame_year as int),
        jd_in_bounds(a11 as int),
        jd_in_bounds(b11 as int),
        jd_in_bounds(leap_offset as int),
    ensures
        !in_range(date.year as int) ==> (r matches Err(e) && is_out_of_range_with(
            e,
            msg_out_of_range(date.year as int),
        )),
        in_range(date.year as int) ==> {
            let raw = spec_lunar_from_frame(
                date.jd(),
                month_start as int,
                frame_year as int,
                a11 as int,
                b11 as int,
                leap_offset as int,
            );
            if i32::MIN <= raw.year <= i32::MAX {
                r == Ok::<LunarDate, LunarError>(
                    LunarDate {
                        day: raw.day as u8,
                        month: raw.month as u8,
                        year: raw.year as i32,
                        is_leap_month: raw.leap,
                    },
                )
            } else {
                r matches Err(e) && is_out_of_range_with(e, msg_not_i32(raw.year as int))
            }
        },
{
    check_range(date.year)?;
    let jd = date.to_jd();
    assert(jd_in_bounds(jd as int));
    let raw = lunar_from_frame(jd, month_start, frame_year, a11, b11, leap_offset);
    lunar_date_of_raw(raw)
}

/// Đổi Âm → Dương: `jd` là JD ngày dương tìm được từ các mốc sóc của năm âm, và
/// `roundtrip` là ngày âm của chính `jd` (đổi ngược lại).
///
/// Lỗi, theo thứ tự kiểm tra: năm ngoài 1900–2100; tháng ngoài 1..=12; ngày
/// ngoài 1..=30; tháng nhuận không có thật (đổi ngược không ra cùng tháng, cùng
/// cờ nhuận); JD không ra ngày dương hợp lệ.
pub fn lunar_to_solar(lunar: LunarDate, jd: i64, roundtrip: LunarRaw) -> (r: Result<SolarDate, LunarError>)
    requires
        jd_in_bounds(jd as int),
    ensures
        !(in_range(lunar.year as int) && 1 <= lunar.month <= 12 && 1 <= lunar.day <= 30) ==> (
        r matches Err(e) && if !in_range(lunar.year as int) {
            is_out_of_range_with(e, msg_out_of_range(lunar.year as int))
        } else if !(1 <= lunar.month <= 12) {
            is_invalid_with(e, msg_bad_month(lunar.month as int))
        } else {
            is_invalid_with(e, msg_bad_day(lunar.day as int))
        }),
        (in_range(lunar.year as int) && 1 <= lunar.month <= 12 && 1 <= lunar.day <= 30) ==> {
            if roundtrip.leap != lunar.is_leap_month || roundtrip.month != lunar.month {
                r matches Err(e) && is_invalid_with(e, msg_no_such_lunar(lunar))
            } else {
                match r {
                    Ok(s) => spec_solar_of_jd(jd as int) == Some(s),
                    Err(_) => spec_solar_of_jd(jd as int) is None,
                }
            }
        },
{
    check_lunar_input(lunar)?;
    confirm_lunar_to_solar(lunar, jd, roundtrip)
}

// ===========================================================================
// Luật của Julian Day Number
// ===========================================================================

/// JD theo công thức lịch Gregory (nhánh dùng từ 15/10/1582).
pub open spec fn jd_gregory(dd: int, mm: int, yy: int) -> int {
    let a = (14 - mm) / 12;
    let y = yy + 4800 - a;
    let m = mm + 12 * a - 3;
    dd + (153 * m + 2) / 5 + 365 * y + y / 4 - y / 100 + y / 400 - 32045
}

/// Từ năm 1583, JD của một ngày có thật là JD theo lịch Gregory.
proof fn lemma_jd_la_gregory(s: SolarDate)
    requires
        s.valid(),
        s.year >= 1583,
    ensures
        s.jd() == jd_gregory(s.day as int, s.month as int, s.year as int),
        s.jd() >= 2299161,
{
}

/// Số ngày từ đầu tháng Ba tới đầu tháng thứ `m` (tính từ tháng Ba = 0) trong
/// công thức JD.
pub open spec fn ngay_dau_thang(m: int) -> int {
    (153 * m + 2) / 5
}

/// Bước qua cuối tháng Hai: JD ngày 1/3 hơn JD ngày cuối tháng Hai đúng 1.
proof fn lemma_jd_qua_thang_hai(y: int)
    requires
        1583 <= y < 262143,
    ensures
        jd_gregory(1, 3, y) == jd_gregory(days_in_month(y, 2), 2, y) + 1,
{
    let yp = y + 4799;
    assert(ngay_dau_thang(11) == 337);
    assert(ngay_dau_thang(0) == 0);
    assert((yp + 1) / 4 - yp / 4 == (if (yp + 1) % 4 == 0 { 1int } else { 0int }));
    assert((yp + 1) / 100 - yp / 100 == (if (yp + 1) % 100 == 0 { 1int } else { 0int }));
    assert((yp + 1) / 400 - yp / 400 == (if (yp + 1) % 400 == 0 { 1int } else { 0int }));
    assert((yp + 1) % 400 == y % 400);
    assert((yp + 1) % 100 == y % 100);
    assert((yp + 1) % 4 == y % 4);
}

/// Ngày hôm sau có JD lớn hơn đúng 1 (từ năm 1583, khi JD tính theo lịch
/// Gregory; trước đó công thức chuyển sang lịch Julius nên bước qua 1582 không
/// liên tục).
#[verifier::spinoff_prover]
pub proof fn lemma_jd_ngay_hom_sau(s: SolarDate)
    requires
        s.valid(),
        1583 <= s.year < 262143,
    ensures
        s.spec_succ().valid(),
        s.spec_succ().jd() == s.jd() + 1,
{
    let t = s.spec_succ();
    lemma_jd_la_gregory(s);
    lemma_jd_la_gregory(t);
    let y = s.year as int;
    let m = s.month as int;
    let d = s.day as int;
    if d < days_in_month(y, m) {
        assert(jd_gregory(d + 1, m, y) == jd_gregory(d, m, y) + 1);
    } else if m == 2 {
        lemma_jd_qua_thang_hai(y);
    } else if m == 12 {
        assert(ngay_dau_thang(9) == 275);
        assert(ngay_dau_thang(10) == 306);
        assert(jd_gregory(1, 1, y + 1) == jd_gregory(31, 12, y) + 1);
    } else {
        assert(ngay_dau_thang(0) == 0);
        assert(ngay_dau_thang(1) == 31);
        assert(ngay_dau_thang(2) == 61);
        assert(ngay_dau_thang(3) == 92);
        assert(ngay_dau_thang(4) == 122);
        assert(ngay_dau_thang(5) == 153);
        assert(ngay_dau_thang(6) == 184);
        assert(ngay_dau_thang(7) == 214);
        assert(ngay_dau_thang(8) == 245);
        assert(ngay_dau_thang(9) == 275);
        assert(ngay_dau_thang(10) == 306);
        assert(ngay_dau_thang(11) == 337);
        assert(jd_gregory(1, m + 1, y) == jd_gregory(d, m, y) + 1);
    }
}

/// Can–Chi của ngày JD `j + 1` đi sau Can–Chi của ngày JD `j` một bước; sau 60
/// ngày trở lại như cũ.
#[verifier::spinoff_prover]
#[verifier::rlimit(30)]
proof fn lemma_can_chi_jd_ke_tiep(j: int)
    ensures
        spec_day_can_chi(j + 1).stem.idx() == (spec_day_can_chi(j).stem.idx() + 1) % 10,
        spec_day_can_chi(j + 1).branch.idx() == (spec_day_can_chi(j).branch.idx() + 1) % 12,
        spec_day_can_chi(j + 60) == spec_day_can_chi(j),
{
    crate::canchi::lemma_stem_at_idx((j + 9) % 10, HeavenlyStem::Giap);
    crate::canchi::lemma_stem_at_idx((j + 10) % 10, HeavenlyStem::Giap);
    crate::canchi::lemma_branch_at_idx((j + 1) % 12, crate::canchi::EarthlyBranch::Ty);
    crate::canchi::lemma_branch_at_idx((j + 2) % 12, crate::canchi::EarthlyBranch::Ty);
    assert((j + 69) % 10 == (j + 9) % 10);
    assert((j + 61) % 12 == (j + 1) % 12);
}

/// Can–Chi ngày đi theo chu kỳ 60 Giáp Tý: sang ngày hôm sau, Can tiến một
/// bước (mod 10) và Chi tiến một bước (mod 12); sau 60 ngày trở lại như cũ (từ
/// năm 1583).
#[verifier::spinoff_prover]
pub proof fn lemma_can_chi_ngay_tien_mot_buoc(s: SolarDate)
    requires
        s.valid(),
        1583 <= s.year < 262143,
    ensures
        spec_day_can_chi(s.spec_succ().jd()).stem.idx() == (spec_day_can_chi(s.jd()).stem.idx() + 1)
            % 10,
        spec_day_can_chi(s.spec_succ().jd()).branch.idx() == (spec_day_can_chi(s.jd()).branch.idx()
            + 1) % 12,
        spec_day_can_chi(s.jd() + 60) == spec_day_can_chi(s.jd()),
{
    lemma_jd_ngay_hom_sau(s);
    lemma_can_chi_jd_ke_tiep(s.jd());
}

/// Độ dài tháng thứ `mm` tính từ tháng Ba (`mm` = 0 là tháng Ba, 11 là tháng Hai)
/// khớp với `ngay_dau_thang`: ngày thứ `k` (từ 0) của tháng đó cho lại đúng `mm`.
proof fn lemma_thang_tu_ngay_trong_nam(mm: int, k: int, len: int)
    requires
        0 <= mm < 12,
        len == (if mm == 11 { 29int } else { ngay_dau_thang(mm + 1) - ngay_dau_thang(mm) }),
        0 <= k < len,
    ensures
        (5 * (ngay_dau_thang(mm) + k) + 2) / 153 == mm,
{
    assert(ngay_dau_thang(0) == 0);
    assert(ngay_dau_thang(1) == 31);
    assert(ngay_dau_thang(2) == 61);
    assert(ngay_dau_thang(3) == 92);
    assert(ngay_dau_thang(4) == 122);
    assert(ngay_dau_thang(5) == 153);
    assert(ngay_dau_thang(6) == 184);
    assert(ngay_dau_thang(7) == 214);
    assert(ngay_dau_thang(8) == 245);
    assert(ngay_dau_thang(9) == 275);
    assert(ngay_dau_thang(10) == 306);
    assert(ngay_dau_thang(11) == 337);
    assert(ngay_dau_thang(12) == 367);
}

/// Đổi JD ra ngày dương lấy lại đúng ngày đã cho: `jd_to_date(jd_from_date(d))`
/// là `d` với mọi ngày có thật từ năm 1583 (khi JD tính theo lịch Gregory).
#[verifier::spinoff_prover]
#[verifier::rlimit(50)]
pub proof fn lemma_jd_khu_nguoc(s: SolarDate)
    requires
        s.valid(),
        1583 <= s.year < 262143,
    ensures
        spec_jd_to_date(s.jd()) == (s.day as int, s.month as int, s.year as int),
{
    lemma_jd_la_gregory(s);
    let dd = s.day as int;
    let mo = s.month as int;
    let yy = s.year as int;
    let a = (14 - mo) / 12;
    assert(a == (if mo <= 2 { 1int } else { 0int }));
    let y = yy + 4800 - a;
    let mm = mo + 12 * a - 3;
    assert(0 <= mm < 12);
    let q = y / 400;
    let r = y % 400;
    let p = r / 100;
    let u = r % 100;
    let w = u / 4;
    let v = u % 4;
    assert(y == 400 * q + 100 * p + 4 * w + v);
    assert(0 <= p < 4 && 0 <= w < 25 && 0 <= v < 4);
    assert(y / 4 == 100 * q + 25 * p + w);
    assert(y / 100 == 4 * q + p);
    assert(y / 400 == q);
    let doy = dd - 1 + ngay_dau_thang(mm);
    let jd = s.jd();
    assert(jd + 32044 == 146097 * q + 36524 * p + 1461 * w + 365 * v + doy);
    // Ngày trong năm (tính từ 1/3): ngày thứ 366 chỉ có ở năm nhuận.
    let len = if mm == 11 { 29int } else { ngay_dau_thang(mm + 1) - ngay_dau_thang(mm) };
    if mm == 11 {
        assert(mo == 2);
        assert(y + 1 == yy + 4800);
        assert((y + 1) % 400 == yy % 400);
        assert((y + 1) % 100 == yy % 100);
        assert((y + 1) % 4 == yy % 4);
        assert(dd <= 29);
        if dd == 29 {
            assert(v == 3);
            assert(u != 99 || p == 3);
        }
    } else {
        lemma_thang_tu_ngay_trong_nam(mm, 0, len);
    }
    assert(ngay_dau_thang(mm) <= doy);
    lemma_thang_tu_ngay_trong_nam(mm, dd - 1, len);
    let rest = 1461 * w + 365 * v + doy;
    assert(0 <= rest <= 36524);
    assert(rest == 36524 ==> p == 3);
    // Thế kỷ.
    let b = (4 * (jd + 32044) + 3) / 146097;
    assert(4 * (jd + 32044) + 3 == 146097 * (4 * q + p) + (4 * rest + 3 - p));
    assert(0 <= 4 * rest + 3 - p < 146097);
    assert(b == 4 * q + p);
    let c = (jd + 32044) - (b * 146097) / 4;
    assert((b * 146097) / 4 == 146097 * q + 36524 * p) by {
        assert(b * 146097 == 4 * (146097 * q + 36524 * p) + p);
    }
    assert(c == rest);
    // Chu kỳ 4 năm.
    let d4 = (4 * c + 3) / 1461;
    assert(4 * c + 3 == 1461 * (4 * w + v) + (4 * doy + 3 - v));
    assert(0 <= 4 * doy + 3 - v < 1461);
    assert(d4 == 4 * w + v);
    let e = c - (1461 * d4) / 4;
    assert((1461 * d4) / 4 == 1461 * w + 365 * v) by {
        assert(1461 * d4 == 4 * (1461 * w + 365 * v) + v);
    }
    assert(e == doy);
    let m2 = (5 * e + 2) / 153;
    assert(m2 == mm);
    assert(m2 / 10 == a);
}

/// Ngày dương của JD một ngày là chính ngày đó (từ năm 1583): `solar_of_jd`
/// đảo ngược `SolarDate::to_jd`.
pub proof fn lemma_ngay_cua_jd_khu_nguoc(s: SolarDate)
    requires
        s.valid(),
        1583 <= s.year < 262143,
    ensures
        spec_solar_of_jd(s.jd()) == Some(s),
{
    lemma_jd_khu_nguoc(s);
}

/// Từ năm 1583, JD của một ngày không nhỏ hơn `365 · năm + 1719591`.
proof fn lemma_jd_can_duoi(s: SolarDate)
    requires
        s.valid(),
        s.year >= 1583,
    ensures
        s.jd() >= 365 * (s.year as int) + 1719591,
{
    lemma_jd_la_gregory(s);
    let mo = s.month as int;
    let a = (14 - mo) / 12;
    let y = s.year as int + 4800 - a;
    let m = mo + 12 * a - 3;
    assert(a == 0 || a == 1);
    assert(0 <= m <= 11);
    assert(y / 4 - y / 100 >= 0) by (nonlinear_arith)
        requires
            y >= 0,
    ;
    assert(y / 400 >= 0 && (153 * m + 2) / 5 >= 0) by (nonlinear_arith)
        requires
            y >= 0,
            m >= 0,
    ;
}

/// Mọi JD từ ngày 1/1/1583 (JD 2299239) tới 31/12/9999 (JD 5373484) là JD của
/// một ngày có thật từ năm 1583.
proof fn lemma_jd_co_ngay(j: int) -> (s: SolarDate)
    requires
        2299239 <= j <= 5373484,
    ensures
        s.valid(),
        1583 <= s.year <= 14724,
        s.jd() == j,
    decreases j - 2299239,
{
    if j == 2299239 {
        let s = SolarDate { year: 1583, month: 1, day: 1 };
        lemma_jd_la_gregory(s);
        s
    } else {
        let s0 = lemma_jd_co_ngay(j - 1);
        lemma_jd_ngay_hom_sau(s0);
        let s = s0.spec_succ();
        lemma_jd_can_duoi(s);
        s
    }
}

/// Những ngày lịch Gregory đầu tiên (15/10 – 31/12/1582, JD 2299161 – 2299238):
/// đổi JD ra ngày rồi đổi lại lấy đúng JD ban đầu.
#[verifier::spinoff_prover]
#[verifier::rlimit(50)]
proof fn lemma_jd_khu_nguoc_1582(j: int)
    requires
        2299161 <= j < 2299239,
    ensures
        ({
            let (d, m, y) = spec_jd_to_date(j);
            spec_jd_from_date(d, m, y) == j
        }),
{
    let b = (4 * (j + 32044) + 3) / 146097;
    assert(b == 63);
    let c = (j + 32044) - (b * 146097) / 4;
    assert((63 * 146097) / 4 == 2301027);
    assert(c == j - 2268983);
    let dd = (4 * c + 3) / 1461;
    assert(dd == 82);
    let e = c - (1461 * dd) / 4;
    assert((1461 * 82) / 4 == 29950);
    assert(e == j - 2298933);
    let m = (5 * e + 2) / 153;
    assert(7 <= m <= 9);
    assert(m / 10 == 0);
    let day = e - (153 * m + 2) / 5 + 1;
    let month = m + 3;
    assert(spec_jd_to_date(j) == (day, month, 1582int));
    if m == 7 {
        assert((153 * 7 + 2) / 5 == 214);
    } else if m == 8 {
        assert((153 * 8 + 2) / 5 == 245);
    } else {
        assert((153 * 9 + 2) / 5 == 275);
    }
    assert(chia_cat(14 - month, 12) == 0);
    assert(chia_cat(153 * m + 2, 5) == (153 * m + 2) / 5);
    assert(chia_cat(6382, 4) == 1595 && chia_cat(6382, 100) == 63 && chia_cat(6382, 400) == 15);
}

/// Đổi JD ra ngày dương rồi đổi lại lấy đúng JD ban đầu, với mọi JD từ ngày
/// đầu của lịch Gregory (15/10/1582, JD 2299161) tới 31/12/9999:
/// `jd_from_date(jd_to_date(j)) == j`.
pub proof fn lemma_jd_khu_nguoc_tu_jd(j: int)
    requires
        2299161 <= j <= 5373484,
    ensures
        ({
            let (d, m, y) = spec_jd_to_date(j);
            spec_jd_from_date(d, m, y) == j
        }),
{
    if j < 2299239 {
        lemma_jd_khu_nguoc_1582(j);
    } else {
        let s = lemma_jd_co_ngay(j);
        lemma_jd_khu_nguoc(s);
    }
}

/// Số ngày của tháng dương theo bảng: tháng 1, 3, 5, 7, 8, 10, 12 có 31 ngày;
/// 4, 6, 9, 11 có 30 ngày; tháng 2 có 29 ngày trong năm nhuận Gregory (chia hết
/// cho 4 mà không chia hết cho 100, hoặc chia hết cho 400), 28 ngày nếu không.
pub proof fn lemma_bang_so_ngay_thang(y: int, m: int)
    requires
        1 <= m <= 12,
    ensures
        days_in_month(y, m) == if m == 2 {
            if (y % 4 == 0 && y % 100 != 0) || y % 400 == 0 { 29int } else { 28int }
        } else {
            seq![31int, 0, 31, 30, 31, 30, 31, 31, 30, 31, 30, 31][m - 1]
        },
{
}

} // verus!
