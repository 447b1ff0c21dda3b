use vstd::prelude::*;
use vstd::string::StringExecFns;

verus! {

pub const KIB: u64 = 1024;

pub const MIB: u64 = 1048576;

pub const GIB: u64 = 1073741824;

pub open spec fn digit_char(d: nat) -> char {
    seq!['0', '1', '2', '3', '4', '5', '6', '7', '8', '9'][d as int]
}

/// Base-ten digits of `n`, without leading zeros.
pub open spec fn decimal(n: nat) -> Seq<char>
    decreases n,
{
    if n < 10 {
        seq![digit_char(n)]
    } else {
        decimal(n / 10).push(digit_char(n % 10))
    }
}

/// `h` hundredths written with two decimal places.
pub open spec fn two_places(h: nat) -> Seq<char> {
    decimal(h / 100) + seq!['.', digit_char((h / 10) % 10), digit_char(h % 10)]
}

/// `num / d` rounded to the nearest integer, ties to the even one.
pub open spec fn round_even(num: nat, d: nat) -> nat
    recommends
        d > 0,
{
    let q = num / d;
    let r = num % d;
    if 2 * r > d || (2 * r == d && q % 2 == 1) {
        q + 1
    } else {
        q
    }
}

/// `m` bytes in `unit`-byte units, as hundredths, rounded.
pub open spec fn scaled(m: nat, unit: nat) -> nat {
    round_even(m * 100, unit)
}

/// Memory in the largest binary unit in which it is at least one.
pub open spec fn human_memory(m: nat) -> Seq<char> {
    if m >= GIB {
        two_places(scaled(m, GIB as nat)) + seq![' ', 'G', 'i', 'B']
    } else if m >= MIB {
        two_places(scaled(m, MIB as nat)) + seq![' ', 'M', 'i', 'B']
    } else if m >= KIB {
        two_places(scaled(m, KIB as nat)) + seq![' ', 'K', 'i', 'B']
    } else {
        decimal(m) + seq![' ', 'B']
    }
}

pub open spec fn memory_field(m: nat, human: bool) -> Seq<char> {
    if human {
        human_memory(m)
    } else {
        decimal(m)
    }
}

fn digit_str(d: u64) -> (r: &'static str)
    requires
        d < 10,
    ensures
        r@ == seq![digit_char(d as nat)],
{
    proof {
        reveal_strlit("0");
        reveal_strlit("1");
        reveal_strlit("2");
        reveal_strlit("3");
        reveal_strlit("4");
        reveal_strlit("5");
        reveal_strlit("6");
        reveal_strlit("7");
        reveal_strlit("8");
        reveal_strlit("9");
    }
    let r = match d {
        0 => "0",
        1 => "1",
        2 => "2",
        3 => "3",
        4 => "4",
        5 => "5",
        6 => "6",
        7 => "7",
        8 => "8",
        _ => "9",
    };
    assert(r@ =~= seq![digit_char(d as nat)]);
    r
}

/// Appends the decimal digits of `n` to `s`.
pub fn push_decimal(s: &mut String, n: u64)
    ensures
        final(s)@ == old(s)@ + decimal(n as nat),
    decreases n,
{
    let ghost start = s@;
    if n >= 10 {
        push_decimal(s, n / 10);
    }
    s.append(digit_str(n % 10));
    assert(s@ =~= start + decimal(n as nat));
}

/// Appends `h` hundredths with two decimal places.
fn push_two_places(s: &mut String, h: u64)
    ensures
        final(s)@ == old(s)@ + two_places(h as nat),
{
    let ghost start = s@;
    push_decimal(s, h / 100);
    proof {
        reveal_strlit(".");
    }
    s.append(".");
    s.append(digit_str((h / 10) % 10));
    s.append(digit_str(h % 10));
    assert(s@ =~= start + two_places(h as nat));
}

/// `m` bytes in `unit`-byte units, in hundredths, rounded half to even.
fn scale(m: u64, unit: u64) -> (r: u64)
    requires
        unit == KIB || unit == MIB || unit == GIB,
    ensures
        r == scaled(m as nat, unit as nat),
{
    let num: u128 = m as u128 * 100;
    let d: u128 = unit as u128;
    let q: u128 = num / d;
    let rem: u128 = num % d;
    let up = 2 * rem > d || (2 * rem == d && q % 2 == 1);
    assert(q <= 18446744073709551615u128 * 100 / 1024) by (nonlinear_arith)
        requires
            q == num / d,
            d >= 1024,
            num <= 18446744073709551615u128 * 100,
    ;
    if up {
        (q + 1) as u64
    } else {
        q as u64
    }
}

/// Renders a byte count in the largest binary unit in which it is at least
/// one: bytes as an integer, KiB, MiB and GiB with two decimal places.
pub fn format_memory_human(m: u64) -> (r: String)
    ensures
        r@ == human_memory(m as nat),
{
    let mut s = String::new();
    if m >= GIB {
        push_two_places(&mut s, scale(m, GIB));
        proof {
            reveal_strlit(" GiB");
        }
        s.append(" GiB");
    } else if m >= MIB {
        push_two_places(&mut s, scale(m, MIB));
        proof {
            reveal_strlit(" MiB");
        }
        s.append(" MiB");
    } else if m >= KIB {
        push_two_places(&mut s, scale(m, KIB));
        proof {
            reveal_strlit(" KiB");
        }
        s.append(" KiB");
    } else {
        push_decimal(&mut s, m);
        proof {
            reveal_strlit(" B");
        }
        s.append(" B");
    }
    assert(s@ =~= human_memory(m as nat));
    s
}

/// One measurement of the target: when it was taken, its CPU use already
/// written with two decimal places, and its memory in bytes.
pub struct Sample {
    pub timestamp_ms: u64,
    pub cpu: String,
    pub memory_bytes: u64,
}

/// The output line for a sample: `<timestamp_ms> <cpu> <memory>`.
pub open spec fn sample_line(timestamp_ms: nat, cpu: Seq<char>, memory: nat, human: bool) -> Seq<
    char,
> {
    decimal(timestamp_ms) + seq![' '] + cpu + seq![' '] + memory_field(memory, human)
}

pub open spec fn header_line(human: bool) -> Seq<char> {
    if human {
        "timestamp_ms cpu_usage mem mem_units"@
    } else {
        "timestamp_ms cpu_usage mem"@
    }
}

/// Renders a sample as one output line, memory as a plain byte count or,
/// with `human`, in binary units.
pub fn format_sample(sample: &Sample, human: bool) -> (r: String)
    ensures
        r@ == sample_line(
            sample.timestamp_ms as nat,
            sample.cpu@,
            sample.memory_bytes as nat,
            human,
        ),
{
    let mut s = String::new();
    push_decimal(&mut s, sample.timestamp_ms);
    proof {
        reveal_strlit(" ");
    }
    s.append(" ");
    s.append(sample.cpu.as_str());
    s.append(" ");
    if human {
        let m = format_memory_human(sample.memory_bytes);
        s.append(m.as_str());
    } else {
        push_decimal(&mut s, sample.memory_bytes);
    }
    assert(s@ =~= sample_line(
        sample.timestamp_ms as nat,
        sample.cpu@,
        sample.memory_bytes as nat,
        human,
    ));
    s
}

/// The column header printed once before sampling begins.
pub fn header(human: bool) -> (r: String)
    ensures
        r@ == header_line(human),
{
    if human {
        String::from_str("timestamp_ms cpu_usage mem mem_units")
    } else {
        String::from_str("timestamp_ms cpu_usage mem")
    }
}

/// Formatting is deterministic: samples with the same timestamp, CPU text
/// and memory render to the same line.
pub proof fn lemma_format_deterministic(a: &Sample, b: &Sample, human: bool)
    requires
        a.timestamp_ms == b.timestamp_ms,
        a.cpu@ == b.cpu@,
        a.memory_bytes == b.memory_bytes,
    ensures
        sample_line(a.timestamp_ms as nat, a.cpu@, a.memory_bytes as nat, human) == sample_line(
            b.timestamp_ms as nat,
            b.cpu@,
            b.memory_bytes as nat,
            human,
        ),
{
}

} // verus!
