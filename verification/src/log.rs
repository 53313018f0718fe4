//! The bounded `snprintf_s` subset the vendor objects use, and the securec
//! `memset_s` / `memcpy_s` bounds checks.
//!
//! Supported conversions are `%s`, `%d`, `%u` and `%x` with an optional `0`
//! flag and a decimal field width, plus `%%`. Anything else is copied
//! literally without consuming an argument.
use vstd::prelude::*;

verus! {

/// One argument of a formatted print: the bytes of a C string (up to its
/// terminator), or a 32-bit argument word.
#[derive(Debug)]
pub enum FormatArg {
    Str(Vec<u8>),
    Word(u32),
}

/// How a conversion consumes its argument.
#[derive(Clone, Copy, Debug, PartialEq, Eq, Structural)]
pub enum ArgKind {
    Str,
    Word,
}

/// Whether a byte is an ASCII decimal digit.
pub open spec fn is_digit(b: u8) -> bool {
    48 <= b <= 57
}

/// Width accumulation with saturation: `w * 10 + digit`.
pub open spec fn width_step(w: usize, d: u8) -> usize {
    let m: int = if w * 10 > usize::MAX { usize::MAX as int } else { w * 10 };
    if m + (d - 48) > usize::MAX {
        usize::MAX
    } else {
        (m + (d - 48)) as usize
    }
}

/// Width read from the digits starting at `p`, and the index after them.
pub open spec fn scan_width(src: Seq<u8>, p: int, w: usize) -> (usize, int)
    decreases src.len() - p,
{
    if 0 <= p < src.len() && is_digit(src[p]) {
        scan_width(src, p + 1, width_step(w, src[p]))
    } else {
        (w, p)
    }
}

/// Whether a byte is a supported conversion letter: `s`, `u`, `d` or `x`.
pub open spec fn is_specifier(b: u8) -> bool {
    b == 115 || b == 117 || b == 100 || b == 120
}

/// The conversion starting at `i`, if any: `%`, an optional `0` flag, a
/// width, a supported letter. Gives (zero flag, width, letter, letter index).
pub open spec fn conversion_at(src: Seq<u8>, i: int) -> Option<(bool, usize, u8, int)> {
    if !(0 <= i < src.len()) || src[i] != 37 {
        None
    } else {
        let zero = i + 1 < src.len() && src[i + 1] == 48;
        let start = if zero { i + 2 } else { i + 1 };
        let (width, end) = scan_width(src, start, 0);
        if 0 <= end < src.len() && is_specifier(src[end]) {
            Some((zero, width, src[end], end))
        } else {
            None
        }
    }
}

/// ASCII digit for `d` in 0..16, lower-case hex letters.
pub open spec fn digit_char(d: nat) -> u8 {
    if d < 10 {
        (48 + d) as u8
    } else {
        (97 + d - 10) as u8
    }
}

/// Digits of `v` in `radix`, most significant first, no leading zeros.
pub open spec fn spec_digits(v: nat, radix: nat) -> Seq<u8>
    decreases v,
{
    if radix < 2 || v < radix {
        seq![digit_char(v)]
    } else {
        proof {
            assert(v / radix < v) by (nonlinear_arith)
                requires
                    radix >= 2,
                    v >= radix,
            ;
        }
        spec_digits(v / radix, radix).push(digit_char(v % radix))
    }
}

/// Value of a 32-bit word read as a signed `int`.
pub open spec fn signed_word(w: u32) -> int {
    if w < 0x8000_0000 {
        w as int
    } else {
        w - 0x1_0000_0000
    }
}

/// The rendering of an integer conversion: a minus sign for a negative `%d`,
/// padding up to `width` (zeros with the flag, else spaces), then the digits.
pub open spec fn number_piece(word: u32, specifier: u8, zero: bool, width: usize) -> Seq<u8> {
    let neg = specifier == 100 && signed_word(word) < 0;
    let mag: nat = if specifier == 100 {
        if neg { (-signed_word(word)) as nat } else { signed_word(word) as nat }
    } else {
        word as nat
    };
    let radix: nat = if specifier == 120 { 16 } else { 10 };
    let digits = spec_digits(mag, radix);
    let body: int = digits.len() + if neg { 1int } else { 0int };
    let total: int = if body < width { width as int } else { body };
    let sign: Seq<u8> = if neg { seq![45u8] } else { Seq::empty() };
    sign + Seq::new((total - body) as nat, |j: int| if zero { 48u8 } else { 32u8 }) + digits
}

/// String argument `k` (empty when absent or a word).
pub open spec fn arg_str(args: Seq<FormatArg>, k: int) -> Seq<u8> {
    if 0 <= k < args.len() {
        match args[k] {
            FormatArg::Str(v) => v@,
            FormatArg::Word(_) => Seq::empty(),
        }
    } else {
        Seq::empty()
    }
}

/// Word argument `k` (0 when absent or a string).
pub open spec fn arg_word(args: Seq<FormatArg>, k: int) -> u32 {
    if 0 <= k < args.len() {
        match args[k] {
            FormatArg::Word(w) => w,
            FormatArg::Str(_) => 0,
        }
    } else {
        0
    }
}

/// The output piece produced at format position `i` with argument `k` next,
/// and the positions after it.
pub open spec fn piece_at(src: Seq<u8>, args: Seq<FormatArg>, i: int, k: int) -> (Seq<u8>, int, int) {
    match conversion_at(src, i) {
        Some((zero, width, specifier, end)) => (
            if specifier == 115 {
                arg_str(args, k)
            } else {
                number_piece(arg_word(args, k), specifier, zero, width)
            },
            end + 1,
            k + 1,
        ),
        None => if src[i] == 37 && i + 1 < src.len() && src[i + 1] == 37 {
            (seq![37u8], i + 2, k)
        } else {
            (seq![src[i]], i + 1, k)
        },
    }
}

/// The pieces of output from format position `i` on, argument `k` next.
pub open spec fn render_from(src: Seq<u8>, args: Seq<FormatArg>, i: int, k: int) -> Seq<Seq<u8>>
    decreases src.len() - i,
{
    if i < 0 || i >= src.len() {
        Seq::empty()
    } else {
        let (p, ni, nk) = piece_at(src, args, i, k);
        if ni <= i {
            Seq::empty()
        } else {
            seq![p] + render_from(src, args, ni, nk)
        }
    }
}

/// Concatenation of pieces.
pub open spec fn flat(pieces: Seq<Seq<u8>>) -> Seq<u8>
    decreases pieces.len(),
{
    if pieces.len() == 0 {
        Seq::empty()
    } else {
        flat(pieces.drop_last()) + pieces.last()
    }
}

/// The full rendering of a format with its arguments.
pub open spec fn rendering(fmt: Seq<u8>, args: Seq<FormatArg>) -> Seq<u8> {
    flat(render_from(fmt, args, 0, 0))
}

/// The output bound of a buffer of `size` bytes given `count`: one byte is
/// kept for the terminator.
pub open spec fn output_limit(size: int, count: int) -> int {
    if size - 1 < count {
        size - 1
    } else {
        count
    }
}

proof fn lemma_flat_push(pieces: Seq<Seq<u8>>, p: Seq<u8>)
    ensures
        flat(pieces.push(p)) == flat(pieces) + p,
{
    assert(pieces.push(p).drop_last() =~= pieces);
}

proof fn lemma_flat_take_len(pieces: Seq<Seq<u8>>, m: int)
    requires
        0 <= m <= pieces.len(),
    ensures
        flat(pieces.take(m)).len() <= flat(pieces).len(),
    decreases pieces.len() - m,
{
    if m < pieces.len() {
        lemma_flat_take_len(pieces, m + 1);
        assert(pieces.take(m + 1).drop_last() =~= pieces.take(m));
    } else {
        assert(pieces.take(m) =~= pieces);
    }
}

/// Digits of `v` in `radix`.
fn render_digits(v: u32, radix: u32) -> (d: Vec<u8>)
    requires
        radix == 10 || radix == 16,
    ensures
        d@ == spec_digits(v as nat, radix as nat),
    decreases v,
{
    if v < radix {
        let c: u8 = if v < 10 { 48 + v as u8 } else { 97 + (v - 10) as u8 };
        let mut d: Vec<u8> = Vec::new();
        d.push(c);
        assert(d@ =~= seq![digit_char(v as nat)]);
        d
    } else {
        assert(v / radix < v) by (nonlinear_arith)
            requires
                radix >= 2,
                v >= radix,
        ;
        let mut d = render_digits(v / radix, radix);
        let r = v % radix;
        let c: u8 = if r < 10 { 48 + r as u8 } else { 97 + (r - 10) as u8 };
        d.push(c);
        d
    }
}

/// Parse the conversion at `i`: (zero flag, width, letter, letter index).
fn parse_conversion(src: &[u8], i: usize) -> (r: Option<(bool, usize, u8, usize)>)
    requires
        i < src@.len(),
    ensures
        conversion_at(src@, i as int) is None <==> r is None,
        r matches Some((z, w, c, e)) ==> conversion_at(src@, i as int) == Some((z, w, c, e as int)) && i < e,
{
    if src[i] != 37 {
        return None;
    }
    let zero = i + 1 < src.len() && src[i + 1] == 48;
    let mut p: usize = if zero { i + 2 } else { i + 1 };
    let mut width: usize = 0;
    let ghost start = p as int;
    while p < src.len() && 48 <= src[p] && src[p] <= 57
        invariant
            start <= p <= src@.len(),
            i < start,
            scan_width(src@, p as int, width) == scan_width(src@, start, 0),
        decreases src@.len() - p,
    {
        let d = (src[p] - 48) as usize;
        let m: usize = if width > usize::MAX / 10 { usize::MAX } else { width * 10 };
        assert(m == (if width * 10 > usize::MAX { usize::MAX as int } else { width * 10 })) by (nonlinear_arith)
            requires
                m == (if width > usize::MAX / 10 { usize::MAX as int } else { width * 10 }),
                usize::MAX >= 10,
        ;
        width = if m > usize::MAX - d { usize::MAX } else { m + d };
        p += 1;
    }
    if p < src.len() && (src[p] == 115 || src[p] == 117 || src[p] == 100 || src[p] == 120) {
        Some((zero, width, src[p], p))
    } else {
        None
    }
}

/// Write `piece` at `at`.
fn write_piece(buf: &mut [u8], at: usize, piece: &[u8])
    requires
        at + piece@.len() <= old(buf)@.len(),
    ensures
        final(buf)@ == old(buf)@.take(at as int) + piece@ + old(buf)@.skip(at + piece@.len()),
{
    let n = buf.len();
    let mut j: usize = 0;
    while j < piece.len()
        invariant
            j <= piece@.len(),
            n == buf@.len(),
            at + piece@.len() <= buf@.len(),
            buf@.len() == old(buf)@.len(),
            forall|x: int| 0 <= x < at ==> buf@[x] == old(buf)@[x],
            forall|x: int| 0 <= x < j ==> buf@[at + x] == piece@[x],
            forall|x: int| at + j <= x < buf@.len() ==> buf@[x] == old(buf)@[x],
        decreases piece@.len() - j,
    {
        buf[at + j] = piece[j];
        j += 1;
    }
    assert(buf@ =~= old(buf)@.take(at as int) + piece@ + old(buf)@.skip(at + piece@.len()));
}

/// Render an integer conversion of `word`.
fn number_bytes(word: u32, specifier: u8, zero: bool, width: usize, room: usize) -> (r: Option<Vec<u8>>)
    requires
        specifier == 100 || specifier == 117 || specifier == 120,
    ensures
        number_piece(word, specifier, zero, width).len() > room <==> r is None,
        r matches Some(v) ==> v@ == number_piece(word, specifier, zero, width),
{
    let neg = specifier == 100 && word >= 0x8000_0000;
    let mag: u32 = if neg { (0xFFFF_FFFFu32 - word) + 1 } else { word };
    let radix: u32 = if specifier == 120 { 16 } else { 10 };
    let digits = render_digits(mag, radix);
    let ghost spec_piece = number_piece(word, specifier, zero, width);
    proof {
        if specifier == 100 {
            if neg {
                assert(mag as int == -signed_word(word));
            } else {
                assert(mag as int == signed_word(word));
            }
        }
    }
    if digits.len() > room || (neg && digits.len() == room) {
        return None;
    }
    let body: usize = digits.len() + if neg { 1usize } else { 0usize };
    let total: usize = if body < width { width } else { body };
    if total > room {
        return None;
    }
    let mut v: Vec<u8> = Vec::new();
    if neg {
        v.push(45u8);
    }
    let pad = total - body;
    let fill: u8 = if zero { 48 } else { 32 };
    let mut j: usize = 0;
    let ghost sign: Seq<u8> = if neg { seq![45u8] } else { Seq::empty() };
    while j < pad
        invariant
            j <= pad,
            v@ == sign + Seq::new(j as nat, |x: int| fill),
        decreases pad - j,
    {
        v.push(fill);
        j += 1;
        assert(v@ =~= sign + Seq::new(j as nat, |x: int| fill));
    }
    let mut q: usize = 0;
    let ghost padded = v@;
    while q < digits.len()
        invariant
            q <= digits@.len(),
            v@ == padded + digits@.take(q as int),
        decreases digits@.len() - q,
    {
        v.push(digits[q]);
        q += 1;
        assert(v@ =~= padded + digits@.take(q as int));
    }
    assert(digits@.take(digits@.len() as int) =~= digits@);
    assert(v@ =~= spec_piece);
    Some(v)
}

/// Format `fmt` with `args` into `buf` (its length is the destination size),
/// writing at most `min(size - 1, count)` bytes and a terminator. Returns the
/// number of bytes written, or -1 when the destination is empty or the
/// rendering does not fit; then the first byte is cleared (bytes of the pieces
/// that fit before may remain behind it).
pub fn snprintf_s(buf: &mut [u8], count: usize, fmt: &[u8], args: &[FormatArg]) -> (r: i32)
    requires
        old(buf)@.len() <= i32::MAX,
    ensures
        ({
            let size = old(buf)@.len() as int;
            let pieces = render_from(fmt@, args@, 0, 0);
            let out = flat(pieces);
            let limit = output_limit(size, count as int);
            &&& size == 0 ==> r == -1 && final(buf)@ == old(buf)@
            &&& size > 0 && out.len() <= limit ==> r == out.len() && final(buf)@ == out + seq![0u8] + old(
                buf,
            )@.skip(out.len() as int + 1)
            &&& size > 0 && out.len() > limit ==> r == -1 && exists|j: int| {
                &&& 0 <= j < pieces.len()
                &&& flat(pieces.take(j)).len() <= limit
                &&& flat(pieces.take(j + 1)).len() > limit
                &&& final(buf)@ == (flat(pieces.take(j)) + old(buf)@.skip(flat(pieces.take(j)).len() as int)).update(0, 0u8)
            }
        }),
{
    let size = buf.len();
    if size == 0 {
        return -1;
    }
    let limit: usize = if size - 1 < count { size - 1 } else { count };
    let ghost orig = buf@;
    let ghost all = render_from(fmt@, args@, 0, 0);
    let ghost mut done: Seq<Seq<u8>> = Seq::empty();
    let mut i: usize = 0;
    let mut k: usize = 0;
    let mut out: usize = 0;
    while i < fmt.len()
        invariant
            size == buf@.len() == orig.len(),
            size == old(buf)@.len(),
            orig == old(buf)@,
            all == render_from(fmt@, args@, 0, 0),
            limit == output_limit(size as int, count as int),
            limit < size,
            k <= i <= fmt@.len(),
            done + render_from(fmt@, args@, i as int, k as int) == all,
            out == flat(done).len(),
            out <= limit,
            buf@ == flat(done) + orig.skip(out as int),
        decreases fmt@.len() - i,
    {
        let ghost rest = render_from(fmt@, args@, i as int, k as int);
        let ghost (gp, gi, gk) = piece_at(fmt@, args@, i as int, k as int);
        let piece: Vec<u8>;
        let next_i: usize;
        let next_k: usize;
        match parse_conversion(fmt, i) {
            Some((zero, width, specifier, end)) => {
                proof {
                    lemma_next_piece(fmt@, args@, i as int, k as int, done, all);
                }
                if specifier == 115 {
                    let mut s: Vec<u8> = Vec::new();
                    if k < args.len() {
                        match &args[k] {
                            FormatArg::Str(v) => {
                                s = v.clone();
                            },
                            FormatArg::Word(_) => {},
                        }
                    }
                    assert(s@ == arg_str(args@, k as int));
                    if s.len() > limit - out {
                        proof {
                            self::lemma_fail(all, done, gp, limit as int);
                        }
                        buf[0] = 0;
                        return -1;
                    }
                    piece = s;
                } else {
                    let mut word: u32 = 0;
                    if k < args.len() {
                        match &args[k] {
                            FormatArg::Word(w) => {
                                word = *w;
                            },
                            FormatArg::Str(_) => {},
                        }
                    }
                    match number_bytes(word, specifier, zero, width, limit - out) {
                        Some(v) => {
                            piece = v;
                        },
                        None => {
                            proof {
                                self::lemma_fail(all, done, gp, limit as int);
                            }
                            buf[0] = 0;
                            return -1;
                        },
                    }
                }
                next_i = end + 1;
                next_k = k + 1;
            },
            None => {
                proof {
                    lemma_next_piece(fmt@, args@, i as int, k as int, done, all);
                }
                let mut v: Vec<u8> = Vec::new();
                if fmt[i] == 37 && i + 1 < fmt.len() && fmt[i + 1] == 37 {
                    v.push(37u8);
                    next_i = i + 2;
                } else {
                    v.push(fmt[i]);
                    next_i = i + 1;
                }
                next_k = k;
                if out == limit {
                    proof {
                        assert(v@ =~= gp);
                        self::lemma_fail(all, done, gp, limit as int);
                    }
                    buf[0] = 0;
                    return -1;
                }
                piece = v;
            },
        }
        assert(piece@ =~= gp);
        assert(next_i as int == gi && next_k as int == gk);
        assert(rest =~= seq![gp] + render_from(fmt@, args@, gi, gk));
        write_piece(buf, out, piece.as_slice());
        proof {
            lemma_flat_push(done, gp);
            assert(done.push(gp) + render_from(fmt@, args@, gi, gk) =~= done + rest);
            done = done.push(gp);
            assert(buf@ =~= flat(done) + orig.skip(out + piece@.len()));
        }
        out = out + piece.len();
        i = next_i;
        k = next_k;
    }
    proof {
        assert(render_from(fmt@, args@, i as int, k as int) =~= Seq::<Seq<u8>>::empty());
        assert(done =~= all);
    }
    buf[out] = 0;
    assert(buf@ =~= flat(all) + seq![0u8] + orig.skip(out + 1));
    out as i32
}

/// The piece at a position is the next of the rendering.
proof fn lemma_next_piece(
    fmt: Seq<u8>,
    args: Seq<FormatArg>,
    i: int,
    k: int,
    done: Seq<Seq<u8>>,
    all: Seq<Seq<u8>>,
)
    requires
        0 <= i < fmt.len(),
        done + render_from(fmt, args, i, k) == all,
        piece_at(fmt, args, i, k).1 > i,
    ensures
        done.len() < all.len(),
        all.take(done.len() as int) == done,
        all[done.len() as int] == piece_at(fmt, args, i, k).0,
        render_from(fmt, args, i, k) == seq![piece_at(fmt, args, i, k).0] + render_from(
            fmt,
            args,
            piece_at(fmt, args, i, k).1,
            piece_at(fmt, args, i, k).2,
        ),
{
    let (p, ni, nk) = piece_at(fmt, args, i, k);
    assert(render_from(fmt, args, i, k) == seq![p] + render_from(fmt, args, ni, nk));
    assert(all.take(done.len() as int) =~= done);
    assert(all[done.len() as int] == p);
}

/// When the next piece does not fit, the whole rendering does not either,
/// and the pieces written so far are the longest prefix that fits.
proof fn lemma_fail(all: Seq<Seq<u8>>, done: Seq<Seq<u8>>, p: Seq<u8>, limit: int)
    requires
        flat(done).len() <= limit,
        flat(done).len() + p.len() > limit,
        done.len() < all.len(),
        all.take(done.len() as int) == done,
        all[done.len() as int] == p,
    ensures
        flat(all).len() > limit,
        all.take(done.len() as int + 1) == done.push(p),
        flat(all.take(done.len() as int + 1)).len() > limit,
{
    assert(all.take(done.len() as int + 1) =~= done.push(p));
    lemma_flat_push(done, p);
    lemma_flat_take_len(all, done.len() as int + 1);
}

/// Argument kinds the conversions of `fmt` consume, in order.
pub fn conversion_kinds(fmt: &[u8]) -> (kinds: Vec<ArgKind>)
    ensures
        kinds@ == kinds_from(fmt@, 0),
{
    let mut kinds: Vec<ArgKind> = Vec::new();
    let mut i: usize = 0;
    while i < fmt.len()
        invariant
            i <= fmt@.len(),
            kinds@ + kinds_from(fmt@, i as int) == kinds_from(fmt@, 0),
        decreases fmt@.len() - i,
    {
        let ghost rest = kinds_from(fmt@, i as int);
        match parse_conversion(fmt, i) {
            Some((_, _, specifier, end)) => {
                let kind = if specifier == 115 { ArgKind::Str } else { ArgKind::Word };
                kinds.push(kind);
                assert(rest =~= seq![kind] + kinds_from(fmt@, end + 1));
                i = end + 1;
                assert(kinds@ + kinds_from(fmt@, i as int) =~= kinds_from(fmt@, 0));
            },
            None => {
                if fmt[i] == 37 && i + 1 < fmt.len() && fmt[i + 1] == 37 {
                    i = i + 2;
                } else {
                    i = i + 1;
                }
            },
        }
    }
    assert(kinds_from(fmt@, i as int) =~= Seq::<ArgKind>::empty());
    assert(kinds@ =~= kinds_from(fmt@, 0));
    kinds
}

/// Argument kinds consumed from format position `i` on.
pub open spec fn kinds_from(src: Seq<u8>, i: int) -> Seq<ArgKind>
    decreases src.len() - i,
{
    if i < 0 || i >= src.len() {
        Seq::empty()
    } else {
        match conversion_at(src, i) {
            Some((_, _, specifier, end)) => if end + 1 <= i {
                Seq::empty()
            } else {
                seq![if specifier == 115 { ArgKind::Str } else { ArgKind::Word }] + kinds_from(src, end + 1)
            },
            None => if src[i] == 37 && i + 1 < src.len() && src[i + 1] == 37 {
                kinds_from(src, i + 2)
            } else {
                kinds_from(src, i + 1)
            },
        }
    }
}

/// securec `memset_s`: fill `count` bytes of a `dest_max`-byte destination
/// with `c`; `OSAL_NOK` (1) and no write when `count > dest_max`.
pub fn memset_s(dest: &mut [u8], dest_max: usize, c: i32, count: usize) -> (r: i32)
    requires
        count <= dest_max ==> count <= old(dest)@.len(),
    ensures
        count > dest_max ==> r == 1 && final(dest)@ == old(dest)@,
        count <= dest_max ==> r == 0 && final(dest)@ == Seq::new(count as nat, |i: int| c as u8) + old(dest)@.skip(
            count as int,
        ),
{
    if count > dest_max {
        return 1;
    }
    let b = c as u8;
    let mut i: usize = 0;
    while i < count
        invariant
            i <= count <= dest@.len(),
            dest@.len() == old(dest)@.len(),
            b == c as u8,
            forall|j: int| 0 <= j < i ==> dest@[j] == b,
            forall|j: int| i <= j < dest@.len() ==> dest@[j] == old(dest)@[j],
        decreases count - i,
    {
        dest[i] = b;
        i += 1;
    }
    assert(dest@ =~= Seq::new(count as nat, |i: int| c as u8) + old(dest)@.skip(count as int));
    0
}

/// securec `memcpy_s`: copy `count` bytes of `src` into a `dest_max`-byte
/// destination; `OSAL_NOK` (1) and no write when `count > dest_max`.
pub fn memcpy_s(dest: &mut [u8], dest_max: usize, src: &[u8], count: usize) -> (r: i32)
    requires
        count <= dest_max ==> count <= old(dest)@.len() && count <= src@.len(),
    ensures
        count > dest_max ==> r == 1 && final(dest)@ == old(dest)@,
        count <= dest_max ==> r == 0 && final(dest)@ == src@.take(count as int) + old(dest)@.skip(count as int),
{
    if count > dest_max {
        return 1;
    }
    let mut i: usize = 0;
    while i < count
        invariant
            i <= count <= dest@.len(),
            count <= src@.len(),
            dest@.len() == old(dest)@.len(),
            forall|j: int| 0 <= j < i ==> dest@[j] == src@[j],
            forall|j: int| i <= j < dest@.len() ==> dest@[j] == old(dest)@[j],
        decreases count - i,
    {
        dest[i] = src[i];
        i += 1;
    }
    assert(dest@ =~= src@.take(count as int) + old(dest)@.skip(count as int));
    0
}

/// A `%u`, `%x` or non-negative `%d` conversion with the `0` flag and a
/// one-digit width renders as ASCII `'0'` bytes up to that width followed by
/// the value's digits (no padding when the digits fill the width): `%02x` of
/// 5 renders "05", `%03u` of 7 renders "007".
pub proof fn lemma_zero_flag_pads_with_zeros(w: u32, c: u8, specifier: u8)
    requires
        49 <= c <= 57,
        specifier == 117 || specifier == 120 || (specifier == 100 && w < 0x8000_0000),
    ensures
        ({
            let width: int = c - 48;
            let digits = spec_digits(w as nat, if specifier == 120 { 16nat } else { 10nat });
            let pad: int = if digits.len() < width { width - digits.len() } else { 0 };
            rendering(seq![37u8, 48u8, c, specifier], seq![FormatArg::Word(w)]) == Seq::new(
                pad as nat,
                |j: int| 48u8,
            ) + digits
        }),
{
    let fmt = seq![37u8, 48u8, c, specifier];
    let args = seq![FormatArg::Word(w)];
    let width = width_step(0usize, c);
    assert(width == (c - 48) as usize);
    assert(scan_width(fmt, 3, width) == (width, 3int));
    assert(scan_width(fmt, 2, 0) == (width, 3int));
    assert(conversion_at(fmt, 0) == Some((true, width, specifier, 3int)));
    let p = number_piece(w, specifier, true, width);
    assert(arg_word(args, 0) == w);
    assert(piece_at(fmt, args, 0, 0) == (p, 4int, 1int));
    assert(render_from(fmt, args, 4, 1) =~= Seq::<Seq<u8>>::empty());
    assert(render_from(fmt, args, 0, 0) =~= seq![p]);
    assert(seq![p].drop_last() =~= Seq::<Seq<u8>>::empty());
    assert(flat(Seq::<Seq<u8>>::empty()) =~= Seq::<u8>::empty());
    assert(Seq::<u8>::empty() + p =~= p);
    assert(flat(seq![p]) == p);
    let digits = spec_digits(w as nat, if specifier == 120 { 16nat } else { 10nat });
    let pad: int = if digits.len() < width { width - digits.len() } else { 0 };
    assert(p =~= Seq::new(pad as nat, |j: int| 48u8) + digits);
}

} // verus!
