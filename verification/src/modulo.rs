//! Phép chia lấy dư Euclid trên số nguyên có dấu — nền của mọi vòng tròn 10 Can,
//! 12 Chi, 12 cung trong thư viện.

use vstd::prelude::*;

verus! {

/// Số dư Euclid `a mod m` (luôn trong `0..m`), tức `a.rem_euclid(m)`.
pub fn rem_euclid_i64(a: i64, m: i64) -> (r: i64)
    requires
        m > 0,
    ensures
        r == a % m,
        0 <= r < m,
{
    if a >= 0 {
        a % m
    } else {
        let b = -(a + 1);
        let rb = b % m;
        proof {
            let q = b as int / m as int;
            vstd::arithmetic::div_mod::lemma_fundamental_div_mod(b as int, m as int);
            assert(a as int == (-q - 1) * m + (m - 1 - rb)) by (nonlinear_arith)
                requires
                    b as int == m * q + rb,
                    a as int == -(b as int) - 1,
            ;
            vstd::arithmetic::div_mod::lemma_fundamental_div_mod_converse(
                a as int,
                m as int,
                -q - 1,
                m - 1 - rb,
            );
        }
        m - 1 - rb
    }
}

/// Thương chia lấy phần nguyên dưới `⌊a / m⌋` (với `m > 0`, trùng phép chia
/// Euclid), tức `a.div_euclid(m)`.
pub fn floor_div_i64(a: i64, m: i64) -> (q: i64)
    requires
        m > 0,
    ensures
        q == a / m,
        m * q <= a < m * q + m,
{
    proof {
        vstd::arithmetic::div_mod::lemma_fundamental_div_mod(a as int, m as int);
    }
    if a >= 0 {
        a / m
    } else {
        let b = -(a + 1);
        let qb = b / m;
        proof {
            let rb = b as int % m as int;
            vstd::arithmetic::div_mod::lemma_fundamental_div_mod(b as int, m as int);
            assert(a as int == (-qb - 1) * m + (m - 1 - rb)) by (nonlinear_arith)
                requires
                    b as int == m * qb + rb,
                    a as int == -(b as int) - 1,
            ;
            vstd::arithmetic::div_mod::lemma_fundamental_div_mod_converse(
                a as int,
                m as int,
                -qb - 1,
                m - 1 - rb,
            );
        }
        -qb - 1
    }
}

/// Số dư theo 12 của một số gần khoảng `0..12`: cộng hoặc trừ 12 một lần.
pub proof fn lemma_mod12_near(x: int)
    requires
        -12 <= x < 24,
    ensures
        x % 12 == (if x < 0 {
            x + 12
        } else if x >= 12 {
            x - 12
        } else {
            x
        }),
{
    if x < 0 {
        vstd::arithmetic::div_mod::lemma_fundamental_div_mod_converse(x, 12, -1, x + 12);
    } else if x >= 12 {
        vstd::arithmetic::div_mod::lemma_fundamental_div_mod_converse(x, 12, 1, x - 12);
    } else {
        vstd::arithmetic::div_mod::lemma_fundamental_div_mod_converse(x, 12, 0, x);
    }
}

} // verus!
