//! The C string and memory helpers the vendor objects call: length,
//! comparison, search, case folding and integer parsing.
//!
//! A C string is given as a byte slice; it ends at its first NUL byte, and a
//! slice without one ends where the slice ends.
use vstd::prelude::*;

verus! {

/// Byte `k` of a C string, NUL from its end on.
pub open spec fn cbyte(s: Seq<u8>, k: int) -> u8 {
    if 0 <= k < s.len() {
        s[k]
    } else {
        0
    }
}

/// Index of the first NUL at or after `k`.
pub open spec fn c_len_from(s: Seq<u8>, k: int) -> int
    decreases s.len() - k,
{
    if k >= s.len() || cbyte(s, k) == 0 {
        k
    } else {
        c_len_from(s, k + 1)
    }
}

/// Length of a C string.
pub open spec fn c_len(s: Seq<u8>) -> int {
    c_len_from(s, 0)
}

proof fn lemma_c_len_from(s: Seq<u8>, k: int)
    requires
        0 <= k,
    ensures
        k <= c_len_from(s, k) <= if k <= s.len() { s.len() as int } else { k },
        cbyte(s, c_len_from(s, k)) == 0,
        forall|j: int| k <= j < c_len_from(s, k) ==> cbyte(s, j) != 0,
    decreases s.len() - k,
{
    if k < s.len() && cbyte(s, k) != 0 {
        lemma_c_len_from(s, k + 1);
    }
}

/// Length of a C string.
pub fn strlen(s: &[u8]) -> (n: usize)
    ensures
        n == c_len(s@),
{
    let mut n: usize = 0;
    while n < s.len() && s[n] != 0
        invariant
            n <= s@.len(),
            c_len_from(s@, n as int) == c_len(s@),
        decreases s@.len() - n,
    {
        n += 1;
    }
    n
}

/// First index at or after `k` where two C strings differ or the first ends.
pub open spec fn diff_index(a: Seq<u8>, b: Seq<u8>, k: int) -> int
    decreases a.len() + b.len() - k,
{
    if k < 0 || (k >= a.len() && k >= b.len()) {
        k
    } else if cbyte(a, k) != cbyte(b, k) || cbyte(a, k) == 0 {
        k
    } else {
        diff_index(a, b, k + 1)
    }
}

proof fn lemma_diff_index_ge(a: Seq<u8>, b: Seq<u8>, k: int)
    requires
        0 <= k,
    ensures
        diff_index(a, b, k) >= k,
    decreases a.len() + b.len() - k,
{
    if !(k >= a.len() && k >= b.len()) && !(cbyte(a, k) != cbyte(b, k) || cbyte(a, k) == 0) {
        lemma_diff_index_ge(a, b, k + 1);
    }
}

/// Difference of the bytes at the first position where two C strings differ
/// or end, looking at the first `n` positions at most (`None`: unbounded).
pub open spec fn spec_cstr_order(a: Seq<u8>, b: Seq<u8>, n: Option<nat>) -> int {
    let d = diff_index(a, b, 0);
    match n {
        Some(n) => if d < n { cbyte(a, d) - cbyte(b, d) } else { 0 },
        None => cbyte(a, d) - cbyte(b, d),
    }
}

/// Order of two C strings: the difference of their first differing bytes.
pub fn cstr_order(a: &[u8], b: &[u8]) -> (r: i32)
    ensures
        r == spec_cstr_order(a@, b@, None),
{
    let mut i: usize = 0;
    loop
        invariant
            i <= a@.len() || i <= b@.len(),
            diff_index(a@, b@, i as int) == diff_index(a@, b@, 0),
        decreases a@.len() + b@.len() - i,
    {
        let ca: u8 = if i < a.len() { a[i] } else { 0 };
        let cb: u8 = if i < b.len() { b[i] } else { 0 };
        if ca != cb {
            return ca as i32 - cb as i32;
        }
        if ca == 0 {
            return 0;
        }
        i += 1;
    }
}

/// Order of two C strings over at most `n` positions.
pub fn cstr_order_n(a: &[u8], b: &[u8], n: u32) -> (r: i32)
    ensures
        r == spec_cstr_order(a@, b@, Some(n as nat)),
{
    let mut i: usize = 0;
    while i < n as usize
        invariant
            i <= n,
            i <= a@.len() || i <= b@.len(),
            diff_index(a@, b@, i as int) == diff_index(a@, b@, 0),
        decreases n - i,
    {
        let ca: u8 = if i < a.len() { a[i] } else { 0 };
        let cb: u8 = if i < b.len() { b[i] } else { 0 };
        if ca != cb {
            return ca as i32 - cb as i32;
        }
        if ca == 0 {
            return 0;
        }
        i += 1;
    }
    proof {
        lemma_diff_index_ge(a@, b@, i as int);
    }
    0
}

/// Difference of the first differing bytes among the first `n`, else 0.
pub open spec fn spec_bytes_order(a: Seq<u8>, b: Seq<u8>, n: int) -> int
    decreases n,
{
    if n <= 0 {
        0
    } else if spec_bytes_order(a, b, n - 1) != 0 {
        spec_bytes_order(a, b, n - 1)
    } else {
        a[n - 1] - b[n - 1]
    }
}

/// Order of two buffers over `count` bytes.
pub fn bytes_order(a: &[u8], b: &[u8], count: usize) -> (r: i32)
    requires
        count <= a@.len(),
        count <= b@.len(),
    ensures
        r == spec_bytes_order(a@, b@, count as int),
{
    let mut i: usize = 0;
    while i < count
        invariant
            i <= count <= a@.len(),
            count <= b@.len(),
            spec_bytes_order(a@, b@, i as int) == 0,
        decreases count - i,
    {
        if a[i] != b[i] {
            proof {
                lemma_bytes_order_extend(a@, b@, i as int + 1, count as int);
            }
            return a[i] as i32 - b[i] as i32;
        }
        i += 1;
    }
    0
}

proof fn lemma_bytes_order_extend(a: Seq<u8>, b: Seq<u8>, m: int, n: int)
    requires
        0 <= m <= n,
        spec_bytes_order(a, b, m) != 0,
    ensures
        spec_bytes_order(a, b, n) == spec_bytes_order(a, b, m),
    decreases n - m,
{
    if m < n {
        lemma_bytes_order_extend(a, b, m, n - 1);
    }
}

/// Buffer order with a signed count: a non-positive count compares nothing.
pub fn osal_bytes_order(a: &[u8], b: &[u8], count: i32) -> (r: i32)
    requires
        count > 0 ==> count <= a@.len() && count <= b@.len(),
    ensures
        count <= 0 ==> r == 0,
        count > 0 ==> r == spec_bytes_order(a@, b@, count as int),
{
    if count <= 0 {
        return 0;
    }
    bytes_order(a, b, count as usize)
}

/// Whether the C string `needle` occurs in `haystack` at `i`.
pub open spec fn matches_at(haystack: Seq<u8>, needle: Seq<u8>, i: int) -> bool {
    forall|j: int| 0 <= j < c_len(needle) ==> cbyte(haystack, i + j) == #[trigger] cbyte(needle, j)
}

/// `strstr`: the first position in `haystack` where `needle` occurs; 0 for an
/// empty needle.
pub fn strstr(haystack: &[u8], needle: &[u8]) -> (r: Option<usize>)
    ensures
        c_len(needle@) == 0 ==> r == Some(0usize),
        c_len(needle@) > 0 ==> match r {
            Some(i) => i < c_len(haystack@) && matches_at(haystack@, needle@, i as int) && forall|k: int|
                0 <= k < i ==> !matches_at(haystack@, needle@, k),
            None => forall|k: int| 0 <= k < c_len(haystack@) ==> !matches_at(haystack@, needle@, k),
        },
{
    proof {
        lemma_c_len_from(needle@, 0);
        lemma_c_len_from(haystack@, 0);
    }
    let nlen = strlen(needle);
    if nlen == 0 {
        return Some(0);
    }
    let hlen = strlen(haystack);
    let mut i: usize = 0;
    while i < hlen
        invariant
            i <= hlen == c_len(haystack@) <= haystack@.len(),
            nlen == c_len(needle@) <= needle@.len(),
            nlen > 0,
            forall|k: int| 0 <= k < i ==> !matches_at(haystack@, needle@, k),
        decreases hlen - i,
    {
        let mut j: usize = 0;
        let mut ok = true;
        while j < nlen && ok
            invariant
                j <= nlen == c_len(needle@) <= needle@.len(),
                i < hlen <= haystack@.len(),
                forall|x: int| 0 <= x < j ==> cbyte(haystack@, i + x) == cbyte(needle@, x),
                !ok ==> j < nlen && cbyte(haystack@, i + j) != cbyte(needle@, j as int),
            decreases nlen - j + if ok { 1int } else { 0int },
        {
            let h: u8 = if j < haystack.len() - i { haystack[i + j] } else { 0 };
            if h != needle[j] {
                ok = false;
            } else {
                j += 1;
            }
        }
        if ok {
            return Some(i);
        }
        proof {
            assert(!matches_at(haystack@, needle@, i as int)) by {
                assert(cbyte(haystack@, i + j) != cbyte(needle@, j as int));
            }
        }
        i += 1;
    }
    None
}

/// ASCII lower-case of a character code.
pub fn tolower(c: i32) -> (r: i32)
    ensures
        r == (if 65 <= c <= 90 { c + 32 } else { c as int }),
{
    if 65 <= c && c <= 90 {
        c + 32
    } else {
        c
    }
}

/// Whether `strtol` skips a byte as leading white space.
pub open spec fn is_space(b: u8) -> bool {
    b == 32 || b == 9 || b == 10 || b == 13
}

/// Index after the white space starting at `k`.
pub open spec fn skip_spaces(s: Seq<u8>, k: int) -> int
    decreases s.len() - k,
{
    if 0 <= k < s.len() && is_space(s[k]) {
        skip_spaces(s, k + 1)
    } else {
        k
    }
}

/// Value of an alphanumeric digit: 0-9, then letters of either case from 10.
pub open spec fn digit_value(c: u8) -> Option<nat> {
    if 48 <= c <= 57 {
        Some((c - 48) as nat)
    } else if 97 <= c <= 122 {
        Some((c - 97 + 10) as nat)
    } else if 65 <= c <= 90 {
        Some((c - 65 + 10) as nat)
    } else {
        None
    }
}

/// Whether byte `k` is a digit below `radix`.
pub open spec fn is_radix_digit(s: Seq<u8>, k: int, radix: nat) -> bool {
    digit_value(cbyte(s, k)) matches Some(d) && d < radix
}

/// Index after the digits below `radix` starting at `k`.
pub open spec fn digits_end(s: Seq<u8>, k: int, radix: nat) -> int
    decreases s.len() - k,
{
    if 0 <= k < s.len() && is_radix_digit(s, k, radix) {
        digits_end(s, k + 1, radix)
    } else {
        k
    }
}

/// Value of the digits in `[from, to)`.
pub open spec fn digits_value(s: Seq<u8>, from: int, to: int, radix: nat) -> nat
    decreases to - from,
{
    if to <= from {
        0
    } else {
        digits_value(s, from, to - 1, radix) * radix + match digit_value(cbyte(s, to - 1)) {
            Some(d) => d,
            None => 0,
        }
    }
}

/// Radix and first digit index after an optional `0x`/`0X` prefix at `q`:
/// base 0 detects 16 (prefix), 8 (leading zero) or 10; base 16 skips a
/// prefix; other bases are used as given.
pub open spec fn radix_and_start(s: Seq<u8>, q: int, base: u32) -> (nat, int) {
    let hex_prefix = cbyte(s, q) == 48 && (cbyte(s, q + 1) == 120 || cbyte(s, q + 1) == 88);
    if base == 0 {
        if hex_prefix {
            (16, q + 2)
        } else if cbyte(s, q) == 48 {
            (8, q)
        } else {
            (10, q)
        }
    } else if base == 16 && hex_prefix {
        (16, q + 2)
    } else {
        (base as nat, q)
    }
}

/// What `strtol` parses: (negative, radix, first digit, end of digits).
pub open spec fn strtol_parse(s: Seq<u8>, base: u32) -> (bool, nat, int, int) {
    let p = skip_spaces(s, 0);
    let neg = cbyte(s, p) == 45;
    let q = if cbyte(s, p) == 45 || cbyte(s, p) == 43 { p + 1 } else { p };
    let (radix, start) = radix_and_start(s, q, base);
    (neg, radix, start, digits_end(s, start, radix))
}

/// The signed value `strtol` reads.
pub open spec fn strtol_value(s: Seq<u8>, base: u32) -> int {
    let (neg, radix, start, end) = strtol_parse(s, base);
    let v = digits_value(s, start, end, radix) as int;
    if neg {
        -v
    } else {
        v
    }
}

/// Result of `strtol`: the value and the index where parsing stopped.
#[derive(Clone, Copy, Debug, PartialEq, Eq, Structural)]
pub struct Parsed {
    pub value: i64,
    pub end: usize,
}

/// Sign, radix and first digit index of a `strtol` input.
fn strtol_prefix(s: &[u8], base: u32) -> (r: (bool, u32, usize))
    ensures
        ({
            let (neg, radix, start, end) = strtol_parse(s@, base);
            &&& r.0 == neg
            &&& r.1 as nat == radix
            &&& r.2 as int == start
            &&& r.2 <= s@.len()
        }),
{
    let len = s.len();
    let mut i: usize = 0;
    while i < len && (s[i] == 32 || s[i] == 9 || s[i] == 10 || s[i] == 13)
        invariant
            i <= len == s@.len(),
            skip_spaces(s@, i as int) == skip_spaces(s@, 0),
        decreases len - i,
    {
        i += 1;
    }
    let c0: u8 = if i < len { s[i] } else { 0 };
    let neg = c0 == 45;
    if c0 == 45 || c0 == 43 {
        i += 1;
    }
    let c1: u8 = if i < len { s[i] } else { 0 };
    let c2: u8 = if i < len && i + 1 < len { s[i + 1] } else { 0 };
    let hex_prefix = c1 == 48 && (c2 == 120 || c2 == 88);
    let mut radix: u32 = base;
    if base == 0 {
        if hex_prefix {
            radix = 16;
            i += 2;
        } else if c1 == 48 {
            radix = 8;
        } else {
            radix = 10;
        }
    } else if base == 16 && hex_prefix {
        i += 2;
    }
    (neg, radix, i)
}

/// Accumulate the digits below `radix` from `start`, wrapping modulo 2^64;
/// also the index after them.
fn accumulate_digits(s: &[u8], start: usize, radix: u32) -> (r: (u64, usize))
    requires
        start <= s@.len(),
    ensures
        r.1 as int == digits_end(s@, start as int, radix as nat),
        r.0 == digits_value(s@, start as int, r.1 as int, radix as nat) % 0x1_0000_0000_0000_0000,
{
    let len = s.len();
    let mut i: usize = start;
    let mut acc: u64 = 0;
    loop
        invariant
            start <= i <= len == s@.len(),
            acc == digits_value(s@, start as int, i as int, radix as nat) % 0x1_0000_0000_0000_0000,
            digits_end(s@, i as int, radix as nat) == digits_end(s@, start as int, radix as nat),
        ensures
            i as int == digits_end(s@, i as int, radix as nat),
        decreases len - i,
    {
        let c: u8 = if i < len { s[i] } else { 0 };
        let d: u32 = if 48 <= c && c <= 57 {
            (c - 48) as u32
        } else if 97 <= c && c <= 122 {
            (c - 97 + 10) as u32
        } else if 65 <= c && c <= 90 {
            (c - 65 + 10) as u32
        } else {
            break;
        };
        if d >= radix {
            break;
        }
        proof {
            let m: int = 0x1_0000_0000_0000_0000;
            let v = digits_value(s@, start as int, i as int, radix as nat) as int;
            lemma_wrapped_step(v, acc as int, radix as int, d as int, m);
        }
        acc = acc.wrapping_mul(radix as u64).wrapping_add(d as u64);
        i += 1;
    }
    (acc, i)
}

/// One wrapped accumulation step agrees with the exact value modulo `m`.
proof fn lemma_wrapped_step(v: int, acc: int, radix: int, d: int, m: int)
    requires
        m > 0,
        v >= 0,
        radix >= 0,
        0 <= d < m,
        acc == v % m,
    ensures
        (((acc * radix) % m) + d) % m == (v * radix + d) % m,
{
    vstd::arithmetic::div_mod::lemma_mul_mod_noop_left(v, radix, m);
    vstd::arithmetic::div_mod::lemma_add_mod_noop(v * radix, d, m);
    vstd::arithmetic::div_mod::lemma_mod_twice(v * radix, m);
    vstd::arithmetic::div_mod::lemma_add_mod_noop((acc * radix) % m, d, m);
    vstd::arithmetic::div_mod::lemma_mod_twice(d, m);
    vstd::arithmetic::div_mod::lemma_mod_bound(acc * radix, m);
}

/// The signed 64-bit value congruent to `neg ? -acc : acc` modulo 2^64.
fn apply_sign(neg: bool, acc: u64) -> (value: i64)
    ensures
        ((value as int) - (if neg { -(acc as int) } else { acc as int })) % 0x1_0000_0000_0000_0000 == 0,
{
    if neg {
        if acc == 0 {
            0
        } else if acc < 0x8000_0000_0000_0000u64 {
            -(acc as i64)
        } else if acc == 0x8000_0000_0000_0000u64 {
            i64::MIN
        } else {
            (0xFFFF_FFFF_FFFF_FFFFu64 - acc + 1) as i64
        }
    } else {
        if acc < 0x8000_0000_0000_0000u64 {
            acc as i64
        } else if acc == 0x8000_0000_0000_0000u64 {
            i64::MIN
        } else {
            -((0xFFFF_FFFF_FFFF_FFFFu64 - acc + 1) as i64)
        }
    }
}

/// `strtol`: skip white space, read a sign, a radix prefix and the digits.
/// The value wraps modulo 2^64 as the accumulation does.
pub fn strtol(s: &[u8], base: u32) -> (r: Parsed)
    ensures
        r.end == strtol_parse(s@, base).3,
        (r.value - strtol_value(s@, base)) % 0x1_0000_0000_0000_0000 == 0,
{
    let (neg, radix, start) = strtol_prefix(s, base);
    let (acc, end) = accumulate_digits(s, start, radix);
    let value = apply_sign(neg, acc);
    proof {
        let m: int = 0x1_0000_0000_0000_0000;
        let v = digits_value(s@, start as int, end as int, radix as nat) as int;
        let sv: int = if neg { -(acc as int) } else { acc as int };
        let tv: int = if neg { -v } else { v };
        vstd::arithmetic::div_mod::lemma_fundamental_div_mod(v, m);
        assert(sv - tv == (if neg { v / m } else { -(v / m) }) * m);
        assert(value - tv == (value - sv) + (sv - tv));
        vstd::arithmetic::div_mod::lemma_mod_multiples_vanish(
            if neg { v / m } else { -(v / m) },
            value - sv,
            m,
        );
        assert((value - sv) + (if neg { v / m } else { -(v / m) }) * m == value - tv);
    }
    Parsed { value, end }
}

/// `atoi`: base-10 `strtol`, truncated to 32 bits.
pub fn atoi(s: &[u8]) -> (r: i32)
    ensures
        (r - strtol_value(s@, 10)) % 0x1_0000_0000 == 0,
{
    let p = strtol(s, 10);
    let pv: i64 = p.value;
    let u: u64 = if pv >= 0 { pv as u64 } else { (pv + i64::MAX + 1) as u64 + 0x8000_0000_0000_0000u64 };
    let low: u64 = u % 0x1_0000_0000;
    let r: i32 = if low < 0x8000_0000 { low as i32 } else { (low as i64 - 0x1_0000_0000) as i32 };
    proof {
        let v = strtol_value(s@, 10);
        let m64: int = 0x1_0000_0000_0000_0000;
        let m32: int = 0x1_0000_0000;
        assert(u as int == pv || u as int == pv + m64);
        vstd::arithmetic::div_mod::lemma_fundamental_div_mod(u as int, m32);
        assert(r as int == low as int || r as int == low - m32);
        let q = (pv - v) / m64;
        vstd::arithmetic::div_mod::lemma_fundamental_div_mod(pv - v, m64);
        assert(pv - v == q * m64);
        let k: int = (u as int / m32) + (if r as int == low as int { 0int } else { 1int })
            - (if u as int == pv { 0int } else { 0x1_0000_0000int }) - q * 0x1_0000_0000;
        assert(r - v == -k * m32 + 0) by (nonlinear_arith)
            requires
                u as int == (u as int / m32) * m32 + low,
                r as int == low as int || r as int == low - m32,
                u as int == pv || u as int == pv + m64,
                pv - v == q * m64,
                m64 == m32 * m32,
                k == (u as int / m32) + (if r as int == low as int { 0int } else { 1int })
                    - (if u as int == pv { 0int } else { 0x1_0000_0000int }) - q * 0x1_0000_0000,
                m32 == 0x1_0000_0000,
        ;
        vstd::arithmetic::div_mod::lemma_mod_multiples_vanish(-k, 0, m32);
    }
    r
}

} // verus!
