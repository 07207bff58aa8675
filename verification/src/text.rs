//! Dựng chuỗi: số thập phân, số hai chữ số có số 0 đứng đầu, nối ký tự.
//!
//! Mọi thông điệp và nhãn mà thư viện trả ra được dựng ở đây, và hợp đồng của
//! chúng nói đúng chuỗi ký tự được tạo.

use vstd::prelude::*;

verus! {

/// Thêm một ký tự vào cuối chuỗi (`String::push` của std).
#[verifier::external_body]
pub(crate) fn push_char(s: &mut String, c: char)
    ensures
        final(s)@ == old(s)@.push(c),
{
    s.push(c);
}

/// Ký tự của chữ số `d` (0..9).
pub open spec fn digit_char(d: int) -> char {
    if d == 0 {
        '0'
    } else if d == 1 {
        '1'
    } else if d == 2 {
        '2'
    } else if d == 3 {
        '3'
    } else if d == 4 {
        '4'
    } else if d == 5 {
        '5'
    } else if d == 6 {
        '6'
    } else if d == 7 {
        '7'
    } else if d == 8 {
        '8'
    } else {
        '9'
    }
}

/// Các chữ số thập phân của số tự nhiên `n`, không có số 0 đứng đầu.
pub open spec fn digits(n: nat) -> Seq<char>
    decreases n,
{
    if n < 10 {
        seq![digit_char(n as int)]
    } else {
        digits(n / 10).push(digit_char((n % 10) as int))
    }
}

/// Cách viết thập phân của số nguyên `n` (có dấu `-` nếu âm), như `{}` của Rust.
pub open spec fn decimal(n: int) -> Seq<char> {
    if n < 0 {
        seq!['-'] + digits((-n) as nat)
    } else {
        digits(n as nat)
    }
}

/// Số `n` viết bằng ít nhất hai chữ số (thêm `0` đằng trước), như `{:02}`.
pub open spec fn pad2(n: nat) -> Seq<char> {
    if n < 10 {
        seq!['0', digit_char(n as int)]
    } else {
        digits(n)
    }
}

/// Số `n` viết bằng ít nhất bốn chữ số (thêm `0` đằng trước), như `{:04}`.
pub open spec fn pad4(n: nat) -> Seq<char> {
    if n < 10 {
        seq!['0', '0', '0'] + digits(n)
    } else if n < 100 {
        seq!['0', '0'] + digits(n)
    } else if n < 1000 {
        seq!['0'] + digits(n)
    } else {
        digits(n)
    }
}

/// Ký tự của chữ số `d`.
pub fn digit_to_char(d: u64) -> (c: char)
    requires
        d < 10,
    ensures
        c == digit_char(d as int),
{
    if d == 0 {
        '0'
    } else if d == 1 {
        '1'
    } else if d == 2 {
        '2'
    } else if d == 3 {
        '3'
    } else if d == 4 {
        '4'
    } else if d == 5 {
        '5'
    } else if d == 6 {
        '6'
    } else if d == 7 {
        '7'
    } else if d == 8 {
        '8'
    } else {
        '9'
    }
}

/// Viết các chữ số của `n` vào cuối `s`.
pub fn push_digits(s: &mut String, n: u64)
    ensures
        final(s)@ == old(s)@ + digits(n as nat),
    decreases n,
{
    if n >= 10 {
        push_digits(s, n / 10);
    }
    let c = digit_to_char(n % 10);
    push_char(s, c);
    assert(final(s)@ =~= old(s)@ + digits(n as nat)) by {
        if n >= 10 {
            assert(digits(n as nat) == digits((n / 10) as nat).push(digit_char((n % 10) as int)));
        }
    }
}

/// Viết số nguyên `n` theo cách `{}` vào cuối `s`.
pub fn push_int(s: &mut String, n: i64)
    requires
        n > i64::MIN,
    ensures
        final(s)@ == old(s)@ + decimal(n as int),
{
    if n < 0 {
        push_char(s, '-');
        push_digits(s, (-n) as u64);
        assert(final(s)@ =~= old(s)@ + decimal(n as int));
    } else {
        push_digits(s, n as u64);
    }
}

/// Viết số `n` bằng ít nhất hai chữ số vào cuối `s`, theo cách `{:02}`.
pub fn push_pad2(s: &mut String, n: u64)
    ensures
        final(s)@ == old(s)@ + pad2(n as nat),
{
    if n < 10 {
        push_char(s, '0');
        push_char(s, digit_to_char(n));
        assert(final(s)@ =~= old(s)@ + pad2(n as nat));
    } else {
        push_digits(s, n);
    }
}

/// Viết số `n` bằng ít nhất bốn chữ số vào cuối `s`, theo cách `{:04}`.
pub fn push_pad4(s: &mut String, n: u64)
    ensures
        final(s)@ == old(s)@ + pad4(n as nat),
{
    if n < 10 {
        push_char(s, '0');
        push_char(s, '0');
        push_char(s, '0');
    } else if n < 100 {
        push_char(s, '0');
        push_char(s, '0');
    } else if n < 1000 {
        push_char(s, '0');
    }
    push_digits(s, n);
    assert(final(s)@ =~= old(s)@ + pad4(n as nat));
}

/// Thêm một chuỗi `&str` vào cuối `s`.
pub fn push_str(s: &mut String, t: &str)
    ensures
        final(s)@ == old(s)@ + t@,
{
    s.append(t);
}

} // verus!
