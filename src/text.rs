//! Text helpers: decimal numbers, byte sizes in GiB, and whitespace trimming.
use vstd::prelude::*;

verus! {

/// Number of bytes in one GiB.
pub const GIB: u128 = 1073741824;

/// The character of a decimal digit.
pub open spec fn digit_char(d: int) -> char {
    if d == 0 {
        '0'
    } else if d == 1 {
        '1'
    } else if d == 2 {
        '2'
    } else if d == 3 {
        '3'
    } else if d == 4 {
        '4'
    } else if d == 5 {
        '5'
    } else if d == 6 {
        '6'
    } else if d == 7 {
        '7'
    } else if d == 8 {
        '8'
    } else {
        '9'
    }
}

/// The decimal digits of `n`, most significant first, without leading zeros.
pub open spec fn decimal(n: nat) -> Seq<char>
    decreases n,
{
    if n < 10 {
        seq![digit_char(n as int)]
    } else {
        decimal(n / 10).push(digit_char((n % 10) as int))
    }
}

/// Tenths of a GiB in `bytes`, rounded to the nearest tenth, ties to even.
pub open spec fn gib_tenths(bytes: nat) -> nat {
    let q = (bytes * 10) / (GIB as nat);
    let rem = (bytes * 10) % (GIB as nat);
    if rem > GIB / 2 || (rem == GIB / 2 && q % 2 == 1) {
        q + 1
    } else {
        q
    }
}

/// A byte count written in GiB with one decimal, as in `15.6 GiB`.
pub open spec fn gib_text(bytes: nat) -> Seq<char> {
    let t = gib_tenths(bytes);
    decimal(t / 10) + seq!['.', digit_char((t % 10) as int)] + " GiB"@
}

/// Characters with the Unicode property White_Space.
pub open spec fn is_white_space(c: char) -> bool {
    let u = c as u32;
    (0x9 <= u <= 0xd) || u == 0x20 || u == 0x85 || u == 0xa0 || u == 0x1680 || (0x2000 <= u
        <= 0x200a) || u == 0x2028 || u == 0x2029 || u == 0x202f || u == 0x205f || u == 0x3000
}

/// `s` without its leading white space.
pub open spec fn trim_start(s: Seq<char>) -> Seq<char>
    decreases s.len(),
{
    if s.len() > 0 && is_white_space(s[0]) {
        trim_start(s.drop_first())
    } else {
        s
    }
}

/// `s` without its trailing white space.
pub open spec fn trim_end(s: Seq<char>) -> Seq<char>
    decreases s.len(),
{
    if s.len() > 0 && is_white_space(s.last()) {
        trim_end(s.drop_last())
    } else {
        s
    }
}

/// `s` without its leading and trailing white space.
pub open spec fn trimmed(s: Seq<char>) -> Seq<char> {
    trim_end(trim_start(s))
}

/// Relies on `str::trim`: the slice without leading and trailing characters
/// that have the Unicode property White_Space.
#[verifier::external_body]
fn trim_str<'a>(s: &'a str) -> (r: &'a str)
    ensures
        r@ == trimmed(s@),
{
    s.trim()
}

/// A copy of `s` without its leading and trailing white space.
pub fn trim(s: &str) -> (r: String)
    ensures
        r@ == trimmed(s@),
{
    String::from_str(trim_str(s))
}

fn digit_str(d: u64) -> (r: &'static str)
    requires
        d < 10,
    ensures
        r@ == seq![digit_char(d as int)],
{
    proof {
        reveal_strlit("0");
        reveal_strlit("1");
        reveal_strlit("2");
        reveal_strlit("3");
        reveal_strlit("4");
        reveal_strlit("5");
        reveal_strlit("6");
        reveal_strlit("7");
        reveal_strlit("8");
        reveal_strlit("9");
    }
    let r = if d == 0 {
        "0"
    } else if d == 1 {
        "1"
    } else if d == 2 {
        "2"
    } else if d == 3 {
        "3"
    } else if d == 4 {
        "4"
    } else if d == 5 {
        "5"
    } else if d == 6 {
        "6"
    } else if d == 7 {
        "7"
    } else if d == 8 {
        "8"
    } else {
        "9"
    };
    assert(r@ =~= seq![digit_char(d as int)]);
    r
}

/// `n` written in decimal.
pub fn decimal_string(n: u64) -> (r: String)
    ensures
        r@ == decimal(n as nat),
    decreases n,
{
    if n < 10 {
        String::from_str(digit_str(n))
    } else {
        let high = decimal_string(n / 10);
        let r = high.concat(digit_str(n % 10));
        assert(r@ =~= decimal(n as nat));
        r
    }
}

/// `bytes` written in GiB with one decimal, rounded to the nearest tenth,
/// ties to even.
pub fn gib_string(bytes: u64) -> (r: String)
    ensures
        r@ == gib_text(bytes as nat),
{
    let scaled: u128 = bytes as u128 * 10;
    let q: u128 = scaled / GIB;
    let rem: u128 = scaled % GIB;
    let tenths: u128 = if rem > GIB / 2 || (rem == GIB / 2 && q % 2 == 1) {
        q + 1
    } else {
        q
    };
    assert(tenths == gib_tenths(bytes as nat));
    assert(tenths / 10 <= u64::MAX) by (nonlinear_arith)
        requires
            tenths <= q + 1,
            q == scaled / GIB,
            scaled == bytes * 10,
            bytes <= u64::MAX,
            GIB == 1073741824,
    ;
    let whole = decimal_string((tenths / 10) as u64);
    let r = whole.concat(".").concat(digit_str((tenths % 10) as u64)).concat(" GiB");
    proof {
        reveal_strlit(".");
    }
    assert(r@ =~= gib_text(bytes as nat));
    r
}

} // verus!
