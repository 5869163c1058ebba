//! Clipboard delivery: which legs a copy takes, and the OSC 52 sequence that
//! reaches the clipboard of the terminal at the other end.

use vstd::prelude::*;
use vstd::string::*;
use vstd::utf8::*;
use crate::text;
use crate::text::{cat3, chars};

verus! {

/// Whether a copy also goes out as OSC 52: always on Linux, and wherever tmux
/// or SSH sits in between or the native leg failed.
pub fn wants_osc52(linux: bool, tmux: bool, remote: bool, native_ok: bool) -> (r: bool)
    ensures
        r == (linux || tmux || remote || !native_ok),
{
    linux || tmux || remote || !native_ok
}

/// Whether a copy arrived: one leg that succeeded is enough. A leg that was
/// not taken is `None`.
pub fn delivered(native: bool, tmux: Option<bool>, osc52: Option<bool>) -> (r: bool)
    ensures
        r == (native || tmux == Some(true) || osc52 == Some(true)),
{
    native || (match tmux {
        Some(b) => b,
        None => false,
    }) || (match osc52 {
        Some(b) => b,
        None => false,
    })
}

/// The letter of the base64 alphabet for a value below 64.
pub open spec fn letter(n: int) -> char {
    if n < 26 {
        ('A' as u32 + n) as char
    } else if n < 52 {
        ('a' as u32 + (n - 26)) as char
    } else if n < 62 {
        ('0' as u32 + (n - 52)) as char
    } else if n == 62 {
        '+'
    } else {
        '/'
    }
}

fn letter_of(n: u32) -> (c: char)
    requires
        n < 64,
    ensures
        c == letter(n as int),
{
    if n < 26 {
        (65u8 + n as u8) as char
    } else if n < 52 {
        (97u8 + (n - 26) as u8) as char
    } else if n < 62 {
        (48u8 + (n - 52) as u8) as char
    } else if n == 62 {
        '+'
    } else {
        '/'
    }
}

/// The four characters for up to three bytes, padded where there are fewer.
pub open spec fn group(data: Seq<u8>) -> Seq<char> {
    let b1 = if data.len() > 1 { data[1] as int } else { 0 };
    let b2 = if data.len() > 2 { data[2] as int } else { 0 };
    let n = data[0] as int * 0x1_0000 + b1 * 0x100 + b2;
    seq![
        letter(n / 0x4_0000),
        letter(n / 0x1000 % 64),
        if data.len() > 1 { letter(n / 64 % 64) } else { '=' },
        if data.len() > 2 { letter(n % 64) } else { '=' },
    ]
}

/// The base64 text of a byte string.
pub open spec fn base64_of(data: Seq<u8>) -> Seq<char>
    decreases data.len(),
{
    if data.len() == 0 {
        Seq::empty()
    } else if data.len() <= 3 {
        group(data)
    } else {
        group(data.take(3)) + base64_of(data.skip(3))
    }
}

/// Base64 with the standard alphabet and padding.
pub fn base64(data: &[u8]) -> (r: String)
    ensures
        r@ == base64_of(data@),
{
    let mut out = String::new();
    let n: usize = data.len();
    let mut i: usize = 0;
    assert(data@.skip(0) == data@);
    while i < n
        invariant
            i <= n,
            n == data@.len(),
            base64_of(data@) == out@ + base64_of(data@.skip(i as int)),
        decreases n - i,
    {
        let ghost before = out@;
        let ghost rest = data@.skip(i as int);
        let left: usize = n - i;
        let b0: u32 = data[i] as u32;
        let b1: u32 = if left > 1 {
            data[i + 1] as u32
        } else {
            0
        };
        let b2: u32 = if left > 2 {
            data[i + 2] as u32
        } else {
            0
        };
        let v: u32 = b0 * 0x1_0000 + b1 * 0x100 + b2;
        out.push(letter_of(v / 0x4_0000));
        out.push(letter_of(v / 0x1000 % 64));
        out.push(
            if left > 1 {
                letter_of(v / 64 % 64)
            } else {
                '='
            },
        );
        out.push(
            if left > 2 {
                letter_of(v % 64)
            } else {
                '='
            },
        );
        if left <= 3 {
            assert(out@ == before + group(rest));
            assert(data@.skip(n as int) == Seq::<u8>::empty());
            assert(base64_of(data@) == out@ + base64_of(data@.skip(n as int)));
            i = n;
        } else {
            assert(rest.take(3)[0] == rest[0] && rest.take(3)[1] == rest[1] && rest.take(3)[2]
                == rest[2]);
            assert(out@ == before + group(rest.take(3)));
            assert(rest.skip(3) == data@.skip(i as int + 3));
            assert(base64_of(data@) == out@ + base64_of(data@.skip(i as int + 3)));
            i += 3;
        }
    }
    assert(data@.skip(n as int) == Seq::<u8>::empty());
    assert(out@ + Seq::<char>::empty() == out@);
    out
}

/// The value of a letter of the alphabet.
pub open spec fn value(c: char) -> int {
    if 'A' <= c <= 'Z' {
        c as int - 'A' as int
    } else if 'a' <= c <= 'z' {
        c as int - 'a' as int + 26
    } else if '0' <= c <= '9' {
        c as int - '0' as int + 52
    } else if c == '+' {
        62
    } else {
        63
    }
}

/// The bytes that a group of four characters stands for.
pub open spec fn ungroup(g: Seq<char>) -> Seq<u8> {
    let n = value(g[0]) * 0x4_0000 + value(g[1]) * 0x1000 + (if g[2] == '=' {
        0
    } else {
        value(g[2]) * 64
    }) + (if g[3] == '=' { 0 } else { value(g[3]) });
    let b0 = (n / 0x1_0000) as u8;
    let b1 = (n / 0x100 % 0x100) as u8;
    let b2 = (n % 0x100) as u8;
    if g[2] == '=' {
        seq![b0]
    } else if g[3] == '=' {
        seq![b0, b1]
    } else {
        seq![b0, b1, b2]
    }
}

/// The bytes that a base64 text stands for.
pub open spec fn unbase64(s: Seq<char>) -> Seq<u8>
    decreases s.len(),
{
    if s.len() < 4 {
        Seq::empty()
    } else {
        ungroup(s.take(4)) + unbase64(s.skip(4))
    }
}

#[verifier::spinoff_prover]
proof fn letter_value(n: int)
    requires
        0 <= n < 64,
    ensures
        value(letter(n)) == n,
        letter(n) != '=',
{
}

/// A number below 2^24 is made of its four sextets.
proof fn sextets(n: int)
    requires
        0 <= n < 0x100_0000,
    ensures
        n == n / 0x4_0000 * 0x4_0000 + n / 0x1000 % 64 * 0x1000 + n / 64 % 64 * 64 + n % 64,
        0 <= n / 0x4_0000 < 64,
{
    let a = n / 64;
    let b = a / 64;
    assert(n / 0x1000 == b);
    assert(n / 0x4_0000 == b / 64);
}

/// A number of three bytes, and those bytes.
proof fn octets(b0: int, b1: int, b2: int)
    requires
        0 <= b0 < 256,
        0 <= b1 < 256,
        0 <= b2 < 256,
    ensures
        ({
            let n = b0 * 0x1_0000 + b1 * 0x100 + b2;
            &&& 0 <= n < 0x100_0000
            &&& n / 0x1_0000 == b0
            &&& n / 0x100 % 0x100 == b1
            &&& n % 0x100 == b2
            &&& b2 == 0 ==> n % 64 == 0
            &&& b1 == 0 && b2 == 0 ==> n / 64 % 64 == 0
        }),
{
    let n = b0 * 0x1_0000 + b1 * 0x100 + b2;
    assert(n / 0x100 == b0 * 0x100 + b1);
}

proof fn group_inverts(data: Seq<u8>)
    requires
        1 <= data.len() <= 3,
    ensures
        ungroup(group(data)) == data,
        group(data).len() == 4,
{
    let b1 = if data.len() > 1 { data[1] as int } else { 0 };
    let b2 = if data.len() > 2 { data[2] as int } else { 0 };
    let n = data[0] as int * 0x1_0000 + b1 * 0x100 + b2;
    octets(data[0] as int, b1, b2);
    sextets(n);
    letter_value(n / 0x4_0000);
    letter_value(n / 0x1000 % 64);
    letter_value(n / 64 % 64);
    letter_value(n % 64);
    let g = group(data);
    let m = value(g[0]) * 0x4_0000 + value(g[1]) * 0x1000 + (if g[2] == '=' {
        0
    } else {
        value(g[2]) * 64
    }) + (if g[3] == '=' { 0 } else { value(g[3]) });
    assert(m == n);
    assert((n / 0x1_0000) as u8 == data[0]);
    if data.len() == 1 {
        assert(ungroup(g) =~= data);
    } else if data.len() == 2 {
        assert((n / 0x100 % 0x100) as u8 == data[1]);
        assert(ungroup(g) =~= data);
    } else {
        assert((n / 0x100 % 0x100) as u8 == data[1]);
        assert((n % 0x100) as u8 == data[2]);
        assert(ungroup(g) =~= data);
    }
}

/// Reading base64 back gives the bytes that were written.
pub proof fn base64_reads_back(data: Seq<u8>)
    ensures
        unbase64(base64_of(data)) == data,
        base64_of(data).len() == (data.len() + 2) / 3 * 4,
    decreases data.len(),
{
    if data.len() == 0 {
    } else if data.len() <= 3 {
        group_inverts(data);
        assert(group(data).take(4) == group(data));
        assert(group(data).skip(4) == Seq::<char>::empty());
        assert(unbase64(Seq::<char>::empty()) == Seq::<u8>::empty());
        assert(ungroup(group(data)) + Seq::<u8>::empty() == data);
    } else {
        group_inverts(data.take(3));
        base64_reads_back(data.skip(3));
        let s = base64_of(data);
        assert(s.take(4) == group(data.take(3)));
        assert(s.skip(4) == base64_of(data.skip(3)));
        assert(data.take(3) + data.skip(3) == data);
    }
}

/// The most bytes one sequence carries, under the caps of common terminals.
pub const MAX_OSC52: usize = 73728;

/// The last character boundary at or before `k`.
pub open spec fn boundary(bytes: Seq<u8>, k: int) -> int
    decreases k,
{
    if k <= 0 || is_char_boundary(bytes, k) {
        k
    } else {
        boundary(bytes, k - 1)
    }
}

/// The bytes of a text that one sequence carries: all of them, or as many
/// whole characters as fit.
pub open spec fn carried(text: Seq<char>) -> Seq<u8> {
    let bytes = encode_utf8(text);
    if bytes.len() > MAX_OSC52 {
        bytes.take(boundary(bytes, MAX_OSC52 as int))
    } else {
        bytes
    }
}

/// Every escape character twice.
pub open spec fn escaped(s: Seq<char>) -> Seq<char>
    decreases s.len(),
{
    if s.len() == 0 {
        s
    } else if s.last() == '\u{1b}' {
        escaped(s.drop_last()).push('\u{1b}').push('\u{1b}')
    } else {
        escaped(s.drop_last()).push(s.last())
    }
}

fn double_escapes(s: &str) -> (r: String)
    ensures
        r@ == escaped(s@),
{
    let v = chars(s);
    let mut out = String::new();
    let mut i: usize = 0;
    assert(s@.take(0) == Seq::<char>::empty());
    while i < v.len()
        invariant
            i <= v.len(),
            v@ == s@,
            out@ == escaped(s@.take(i as int)),
        decreases v.len() - i,
    {
        assert(s@.take(i as int + 1).drop_last() == s@.take(i as int));
        if v[i] == '\u{1b}' {
            out.push('\u{1b}');
        }
        out.push(v[i]);
        i += 1;
    }
    assert(s@.take(s@.len() as int) == s@);
    out
}

/// The OSC 52 sequence for a text; inside tmux it travels in a passthrough
/// envelope.
pub open spec fn osc52(text: Seq<char>, tmux: bool) -> Seq<char> {
    let plain = "\u{1b}]52;c;"@ + base64_of(carried(text)) + "\u{7}"@;
    if tmux {
        "\u{1b}Ptmux;"@ + escaped(plain) + "\u{1b}\\"@
    } else {
        plain
    }
}

pub fn osc52_sequence(text: &str, tmux: bool) -> (r: String)
    ensures
        r@ == osc52(text@, tmux),
{
    let payload = if text.as_bytes().len() > MAX_OSC52 {
        let ghost bytes = text.spec_bytes();
        let mut cut: usize = MAX_OSC52;
        while cut > 0 && !text.is_char_boundary(cut)
            invariant
                cut <= MAX_OSC52 < bytes.len(),
                bytes == text.spec_bytes(),
                boundary(bytes, MAX_OSC52 as int) == boundary(bytes, cut as int),
            decreases cut,
        {
            cut -= 1;
        }
        proof {
            start_is_boundary(text@);
        }
        let (head, _) = text.split_at(cut);
        assert(head.spec_bytes() == bytes.take(cut as int));
        base64(head.as_bytes())
    } else {
        base64(text.as_bytes())
    };
    let plain = cat3("\u{1b}]52;c;", payload.as_str(), "\u{7}");
    if tmux {
        let inner = double_escapes(plain.as_str());
        cat3("\u{1b}Ptmux;", inner.as_str(), "\u{1b}\\")
    } else {
        plain
    }
}

/// The start of a text is a character boundary.
proof fn start_is_boundary(text: Seq<char>)
    ensures
        is_char_boundary(encode_utf8(text), 0),
{
    encode_utf8_valid_utf8(text);
}

} // verus!
