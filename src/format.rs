//! Text forms of durations and segment UIDs.
use vstd::prelude::*;

verus! {

/// The digit characters up to base sixteen, lower case.
pub open spec fn digit_char(d: nat) -> char {
    seq!['0', '1', '2', '3', '4', '5', '6', '7', '8', '9', 'a', 'b', 'c', 'd', 'e', 'f'][d as int]
}

/// `n` in decimal without leading zeros (`0` for zero).
pub open spec fn decimal(n: nat) -> Seq<char>
    decreases n,
{
    if n < 10 {
        seq![digit_char(n)]
    } else {
        decimal(n / 10).push(digit_char(n % 10))
    }
}

/// `n` in hexadecimal, lower case, without leading zeros (`0` for zero).
pub open spec fn hexadecimal(n: nat) -> Seq<char>
    decreases n,
{
    if n < 16 {
        seq![digit_char(n)]
    } else {
        hexadecimal(n / 16).push(digit_char(n % 16))
    }
}

/// `n` in decimal with two digits at least.
pub open spec fn two_digits(n: nat) -> Seq<char> {
    if n < 10 {
        seq!['0'] + decimal(n)
    } else {
        decimal(n)
    }
}

/// The last `width` decimal digits of `n`, zeros included.
pub open spec fn fixed_digits(n: nat, width: nat) -> Seq<char>
    decreases width,
{
    if width == 0 {
        Seq::empty()
    } else {
        fixed_digits(n / 10, (width - 1) as nat).push(digit_char(n % 10))
    }
}

/// Hours and minutes with two digits at least, then the seconds within the minute with
/// nine decimals: `hh:mm:s.nnnnnnnnn`.
pub open spec fn duration_text(secs: nat, nanos: nat) -> Seq<char> {
    two_digits(secs / 3600) + seq![':'] + two_digits((secs % 3600) / 60) + seq![':']
        + decimal(secs % 60) + seq!['.'] + fixed_digits(nanos, 9)
}

/// A byte as `0x` and its hexadecimal digits.
pub open spec fn byte_text(b: u8) -> Seq<char> {
    seq!['0', 'x'] + hexadecimal(b as nat)
}

/// The bytes of a UID in `byte_text` form, one space between each two.
pub open spec fn uid_text(bytes: Seq<u8>) -> Seq<char>
    decreases bytes.len(),
{
    if bytes.len() == 0 {
        Seq::empty()
    } else if bytes.len() == 1 {
        byte_text(bytes[0])
    } else {
        uid_text(bytes.drop_last()) + seq![' '] + byte_text(bytes.last())
    }
}

fn digit_str(d: u64) -> (r: &'static str)
    requires
        d < 16,
    ensures
        r@ == seq![digit_char(d as nat)],
{
    match d {
        0 => { proof { reveal_strlit("0"); } "0" },
        1 => { proof { reveal_strlit("1"); } "1" },
        2 => { proof { reveal_strlit("2"); } "2" },
        3 => { proof { reveal_strlit("3"); } "3" },
        4 => { proof { reveal_strlit("4"); } "4" },
        5 => { proof { reveal_strlit("5"); } "5" },
        6 => { proof { reveal_strlit("6"); } "6" },
        7 => { proof { reveal_strlit("7"); } "7" },
        8 => { proof { reveal_strlit("8"); } "8" },
        9 => { proof { reveal_strlit("9"); } "9" },
        10 => { proof { reveal_strlit("a"); } "a" },
        11 => { proof { reveal_strlit("b"); } "b" },
        12 => { proof { reveal_strlit("c"); } "c" },
        13 => { proof { reveal_strlit("d"); } "d" },
        14 => { proof { reveal_strlit("e"); } "e" },
        _ => { proof { reveal_strlit("f"); } "f" },
    }
}

fn push_decimal(s: &mut String, n: u64)
    ensures
        final(s)@ == old(s)@ + decimal(n as nat),
    decreases n,
{
    if n >= 10 {
        push_decimal(s, n / 10);
        s.append(digit_str(n % 10));
        assert(s@ =~= old(s)@ + decimal(n as nat));
    } else {
        s.append(digit_str(n));
    }
}

fn push_hexadecimal(s: &mut String, n: u64)
    ensures
        final(s)@ == old(s)@ + hexadecimal(n as nat),
    decreases n,
{
    if n >= 16 {
        push_hexadecimal(s, n / 16);
        s.append(digit_str(n % 16));
        assert(s@ =~= old(s)@ + hexadecimal(n as nat));
    } else {
        s.append(digit_str(n));
    }
}

fn push_two_digits(s: &mut String, n: u64)
    ensures
        final(s)@ == old(s)@ + two_digits(n as nat),
{
    if n < 10 {
        proof {
            reveal_strlit("0");
        }
        s.append("0");
        push_decimal(s, n);
        assert(s@ =~= old(s)@ + two_digits(n as nat));
    } else {
        push_decimal(s, n);
    }
}

fn push_fixed_digits(s: &mut String, n: u64, width: u64)
    ensures
        final(s)@ == old(s)@ + fixed_digits(n as nat, width as nat),
    decreases width,
{
    if width > 0 {
        push_fixed_digits(s, n / 10, width - 1);
        s.append(digit_str(n % 10));
        assert(s@ =~= old(s)@ + fixed_digits(n as nat, width as nat));
    }
}

/// Writes whole seconds and the nanoseconds past them as `hh:mm:s.nnnnnnnnn`.
pub fn format_hms(secs: u64, nanos: u32) -> (r: String)
    ensures
        r@ == duration_text(secs as nat, nanos as nat),
{
    let mut s = String::new();
    push_two_digits(&mut s, secs / 3600);
    proof {
        reveal_strlit(":");
        reveal_strlit(".");
    }
    s.append(":");
    push_two_digits(&mut s, (secs % 3600) / 60);
    s.append(":");
    push_decimal(&mut s, secs % 60);
    s.append(".");
    push_fixed_digits(&mut s, nanos as u64, 9);
    assert(s@ =~= duration_text(secs as nat, nanos as nat));
    s
}

/// The whole seconds of a duration.
pub uninterp spec fn duration_secs(d: std::time::Duration) -> u64;

/// The nanoseconds of a duration past its whole seconds.
pub uninterp spec fn duration_nanos(d: std::time::Duration) -> u32;

/// Relies on `Duration::as_secs`: the whole seconds of the duration.
#[verifier::external_body]
fn whole_seconds(dur: &std::time::Duration) -> (r: u64)
    ensures
        r == duration_secs(*dur),
{
    dur.as_secs()
}

/// Relies on `Duration::subsec_nanos`: the nanoseconds past the whole seconds, below one
/// billion.
#[verifier::external_body]
fn fraction_nanos(dur: &std::time::Duration) -> (r: u32)
    ensures
        r == duration_nanos(*dur),
        r < 1_000_000_000,
{
    dur.subsec_nanos()
}

/// A duration as `hh:mm:s.nnnnnnnnn`, from its whole seconds and the nanoseconds past them.
pub fn format_duration(dur: std::time::Duration) -> (r: String)
    ensures
        r@ == duration_text(duration_secs(dur) as nat, duration_nanos(dur) as nat),
{
    let secs = whole_seconds(&dur);
    let nanos = fraction_nanos(&dur);
    format_hms(secs, nanos)
}

/// A UID as its bytes in `0x` hexadecimal form, separated by single spaces.
pub fn format_uid(uid: &[u8]) -> (r: String)
    ensures
        r@ == uid_text(uid@),
{
    let mut s = String::new();
    let mut i: usize = 0;
    while i < uid.len()
        invariant
            i <= uid@.len(),
            s@ == uid_text(uid@.subrange(0, i as int)),
        decreases uid@.len() - i,
    {
        proof {
            reveal_strlit(" ");
            reveal_strlit("0x");
        }
        if i > 0 {
            s.append(" ");
        }
        s.append("0x");
        push_hexadecimal(&mut s, uid[i] as u64);
        proof {
            let next = uid@.subrange(0, i + 1);
            assert(next.drop_last() =~= uid@.subrange(0, i as int));
            assert(next.last() == uid@[i as int]);
            assert(s@ =~= uid_text(next));
        }
        i = i + 1;
    }
    assert(uid@.subrange(0, uid@.len() as int) =~= uid@);
    s
}

} // verus!
