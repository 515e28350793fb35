//! Human-readable sizes and durations.
use crate::text::{decimal, pad3, push_decimal, push_pad3};
use vstd::prelude::*;
use vstd::string::*;

verus! {

/// `value` after being divided, in turn, by the first `k` of `divisors`.
pub open spec fn quotient_after(value: nat, divisors: Seq<u128>, k: int) -> nat
    decreases k,
{
    if k <= 0 {
        value
    } else {
        quotient_after(value, divisors, k - 1) / (divisors[k - 1] as nat)
    }
}

/// `value` after being divided `k` times by `base`.
pub open spec fn repeated_quotient(value: nat, base: nat, k: nat) -> nat
    decreases k,
{
    if k == 0 {
        value
    } else {
        repeated_quotient(value, base, (k - 1) as nat) / base
    }
}

/// Splits `value` into mixed-radix digits: `out[i]` is the remainder of the
/// `i`-th division by `divisors[i]`; what remains after the last is returned.
pub fn repeated_div_by<const N: usize>(out: &mut [u128; N], value: u128, divisors: &[u128; N]) -> (r: u128)
    requires
        forall|i: int| 0 <= i < N ==> divisors@[i] > 0,
    ensures
        forall|i: int|
            0 <= i < N ==> final(out)@[i] == quotient_after(value as nat, divisors@, i) % (
            divisors@[i] as nat),
        r == quotient_after(value as nat, divisors@, N as int),
{
    let mut rem = value;
    let mut i: usize = 0;
    while i < N
        invariant
            i <= N,
            out@.len() == N,
            divisors@.len() == N,
            forall|k: int| 0 <= k < N ==> divisors@[k] > 0,
            rem == quotient_after(value as nat, divisors@, i as int),
            forall|k: int|
                0 <= k < i ==> out@[k] == quotient_after(value as nat, divisors@, k) % (
                divisors@[k] as nat),
        decreases N - i,
    {
        let base = divisors[i];
        out[i] = rem % base;
        rem = rem / base;
        i = i + 1;
    }
    rem
}

/// Splits `value` into base-`base` digits: `out[i]` is the `i`-th digit.
pub fn repeated_div<const N: usize>(out: &mut [u64; N], value: u64, base: u64)
    requires
        base > 0,
    ensures
        forall|i: int|
            0 <= i < N ==> final(out)@[i] == repeated_quotient(value as nat, base as nat, i as nat)
                % (base as nat),
{
    let mut rem = value;
    let mut i: usize = 0;
    while i < N
        invariant
            i <= N,
            out@.len() == N,
            base > 0,
            rem == repeated_quotient(value as nat, base as nat, i as nat),
            forall|k: int|
                0 <= k < i ==> out@[k] == repeated_quotient(value as nat, base as nat, k as nat) % (
                base as nat),
        decreases N - i,
    {
        out[i] = rem % base;
        rem = rem / base;
        i = i + 1;
    }
}

/// The name of the `i`-th binary size unit.
pub open spec fn size_unit(i: int) -> Seq<char> {
    if i == 0 {
        "B"@
    } else if i == 1 {
        "KiB"@
    } else if i == 2 {
        "MiB"@
    } else if i == 3 {
        "GiB"@
    } else {
        "TiB"@
    }
}

/// The `i`-th base-1024 digit of `bytes`.
pub open spec fn size_digit(bytes: nat, i: nat) -> nat {
    repeated_quotient(bytes, 1024, i) % 1024
}

/// The size text from unit `i` down: the first unit with a non-zero digit,
/// with three digits of the unit below, or plain bytes.
pub open spec fn size_text_from(bytes: nat, i: nat) -> Seq<char>
    decreases i,
{
    if i == 0 {
        decimal(size_digit(bytes, 0)) + " "@ + size_unit(0)
    } else if size_digit(bytes, i) > 0 {
        decimal(size_digit(bytes, i)) + "."@ + pad3(size_digit(bytes, (i - 1) as nat), '0') + " "@
            + size_unit(i as int)
    } else {
        size_text_from(bytes, (i - 1) as nat)
    }
}

/// A size in bytes as people read it, such as `1.512 GiB`.
pub open spec fn size_text(bytes: nat) -> Seq<char> {
    size_text_from(bytes, 4)
}

fn size_unit_str(i: usize) -> (r: &'static str)
    requires
        i < 5,
    ensures
        r@ == size_unit(i as int),
{
    proof {
        reveal_strlit("B");
        reveal_strlit("KiB");
        reveal_strlit("MiB");
        reveal_strlit("GiB");
        reveal_strlit("TiB");
    }
    if i == 0 {
        "B"
    } else if i == 1 {
        "KiB"
    } else if i == 2 {
        "MiB"
    } else if i == 3 {
        "GiB"
    } else {
        "TiB"
    }
}

/// A size in bytes as people read it.
pub fn size_units(bytes: u64) -> (r: String)
    ensures
        r@ == size_text(bytes as nat),
{
    let mut out = [0u64; 5];
    repeated_div(&mut out, bytes, 1024);
    proof {
        reveal_strlit(" ");
        reveal_strlit(".");
        reveal_strlit("0");
    }
    let mut i: usize = 4;
    while i > 0
        invariant
            i <= 4,
            forall|k: int| 0 <= k < 5 ==> out@[k] == size_digit(bytes as nat, k as nat),
            size_text(bytes as nat) == size_text_from(bytes as nat, i as nat),
        decreases i,
    {
        if out[i] > 0 {
            proof {
                reveal_strlit(" ");
                reveal_strlit(".");
                reveal_strlit("0");
            }
            let mut s = String::new();
            push_decimal(&mut s, out[i] as u128);
            s.append(".");
            push_pad3(&mut s, out[i - 1] as u128, "0");
            s.append(" ");
            s.append(size_unit_str(i));
            return s;
        }
        i = i - 1;
    }
    let mut s = String::new();
    push_decimal(&mut s, out[0] as u128);
    s.append(" ");
    s.append(size_unit_str(0));
    s
}

/// A duration in whole seconds as people read it: only its largest unit,
/// such as `3 hours` or `2 weeks`.
pub open spec fn duration_text(secs: nat) -> Seq<char> {
    let seconds = secs % 60;
    let minutes = secs / 60 % 60;
    let hours = secs / 60 / 60 % 24;
    let days = secs / 60 / 60 / 24;
    if days == 0 {
        if hours > 0 {
            decimal(hours) + " hours"@
        } else if minutes > 0 {
            decimal(minutes) + " minutes"@
        } else {
            decimal(seconds) + " seconds"@
        }
    } else if days > 365 {
        decimal(days / 365) + " years"@
    } else if days >= 60 {
        decimal(days / 30) + " months"@
    } else if days >= 14 {
        decimal(days / 7) + " weeks"@
    } else {
        decimal(days) + " days"@
    }
}

/// A duration given in whole seconds, as people read it.
pub fn duration_units(secs: u64) -> (r: String)
    ensures
        r@ == duration_text(secs as nat),
{
    let mut out = [0u128; 3];
    let divisors = [60u128, 60, 24];
    let days = repeated_div_by(&mut out, secs as u128, &divisors);
    proof {
        assert(divisors@[0] == 60 && divisors@[1] == 60 && divisors@[2] == 24);
        assert(quotient_after(secs as nat, divisors@, 0) == secs);
        assert(quotient_after(secs as nat, divisors@, 1) == secs / 60);
        assert(quotient_after(secs as nat, divisors@, 2) == secs / 60 / 60);
        assert(quotient_after(secs as nat, divisors@, 3) == secs / 60 / 60 / 24);
        reveal_strlit(" hours");
        reveal_strlit(" minutes");
        reveal_strlit(" seconds");
        reveal_strlit(" years");
        reveal_strlit(" months");
        reveal_strlit(" weeks");
        reveal_strlit(" days");
    }
    let seconds = out[0];
    let minutes = out[1];
    let hours = out[2];
    let mut s = String::new();
    if days == 0 {
        if hours > 0 {
            push_decimal(&mut s, hours);
            s.append(" hours");
        } else if minutes > 0 {
            push_decimal(&mut s, minutes);
            s.append(" minutes");
        } else {
            push_decimal(&mut s, seconds);
            s.append(" seconds");
        }
    } else if days > 365 {
        push_decimal(&mut s, days / 365);
        s.append(" years");
    } else if days >= 60 {
        push_decimal(&mut s, days / 30);
        s.append(" months");
    } else if days >= 14 {
        push_decimal(&mut s, days / 7);
        s.append(" weeks");
    } else {
        push_decimal(&mut s, days);
        s.append(" days");
    }
    s
}

/// A short duration given in nanoseconds, as a benchmark reports it: the
/// largest unit with three more digits, such as `1.234 ms`.
pub open spec fn bench_duration_text(nanos: nat) -> Seq<char> {
    let ns = nanos % 1000;
    let us = nanos / 1000 % 1000;
    let ms = nanos / 1000 / 1000 % 1000;
    let seconds = nanos / 1000 / 1000 / 1000;
    if seconds > 0 {
        decimal(seconds) + "."@ + pad3(ms, ' ') + " s"@
    } else if ms > 0 {
        decimal(ms) + "."@ + pad3(us, ' ') + " ms"@
    } else if us > 0 {
        decimal(us) + "."@ + pad3(ns, ' ') + " us"@
    } else {
        pad3(ns, ' ') + " ns"@
    }
}

/// A short duration given in nanoseconds, as a benchmark reports it.
pub fn bench_duration_units(nanos: u128) -> (r: String)
    ensures
        r@ == bench_duration_text(nanos as nat),
{
    let mut out = [0u128; 3];
    let divisors = [1000u128, 1000, 1000];
    let seconds = repeated_div_by(&mut out, nanos, &divisors);
    proof {
        assert(divisors@[0] == 1000 && divisors@[1] == 1000 && divisors@[2] == 1000);
        assert(quotient_after(nanos as nat, divisors@, 0) == nanos);
        assert(quotient_after(nanos as nat, divisors@, 1) == nanos / 1000);
        assert(quotient_after(nanos as nat, divisors@, 2) == nanos / 1000 / 1000);
        assert(quotient_after(nanos as nat, divisors@, 3) == nanos / 1000 / 1000 / 1000);
        reveal_strlit(".");
        reveal_strlit(" ");
        reveal_strlit(" s");
        reveal_strlit(" ms");
        reveal_strlit(" us");
        reveal_strlit(" ns");
    }
    let ns = out[0];
    let us = out[1];
    let ms = out[2];
    let mut s = String::new();
    if seconds > 0 {
        push_decimal(&mut s, seconds);
        s.append(".");
        push_pad3(&mut s, ms, " ");
        s.append(" s");
    } else if ms > 0 {
        push_decimal(&mut s, ms);
        s.append(".");
        push_pad3(&mut s, us, " ");
        s.append(" ms");
    } else if us > 0 {
        push_decimal(&mut s, us);
        s.append(".");
        push_pad3(&mut s, ns, " ");
        s.append(" us");
    } else {
        push_pad3(&mut s, ns, " ");
        s.append(" ns");
    }
    s
}

} // verus!
