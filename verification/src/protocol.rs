//! The single-byte command set of the serial channel, and the status line
//! it answers with.
//!
//! A `t` asks for an immediate status report, a `u` asks for a reset into
//! the bootloader, and every other byte is ignored. The status line is
//! `T: {temp}\u{b0}C, D: {pct:3}.{dec:02}%` followed by a newline, where the
//! duty cycle is shown as a percentage with two decimals, the percent field
//! space-padded to three columns and the decimals zero-padded to two. The
//! line is produced here as UTF-8 bytes; the transport only moves them.

use vstd::prelude::*;

use crate::degrees::Degrees;

verus! {

/// What a received byte asks the controller to do.
#[derive(PartialEq, Eq, Structural, Clone, Copy, Debug)]
pub enum Command {
    /// Send a status line now (`t`).
    StatusReport,
    /// Reset into the bootloader (`u`).
    EnterBootloader,
    /// Anything else: no action.
    Ignored,
}

/// The meaning of one received byte.
pub open spec fn classify_spec(b: u8) -> Command {
    if b == 116 {
        Command::StatusReport
    } else if b == 117 {
        Command::EnterBootloader
    } else {
        Command::Ignored
    }
}

/// Classifies one received byte.
pub fn classify_byte(b: u8) -> (c: Command)
    ensures
        c == classify_spec(b),
{
    if b == 116 {
        Command::StatusReport
    } else if b == 117 {
        Command::EnterBootloader
    } else {
        Command::Ignored
    }
}

/// What a whole received chunk asks for.
#[derive(PartialEq, Eq, Structural, Clone, Copy, Debug)]
pub struct ScanOutcome {
    /// Some byte asked for a status report.
    pub status_requested: bool,
    /// Some byte asked for the bootloader reset.
    pub bootloader_requested: bool,
}

/// Scans a received chunk for command bytes. Unrecognized bytes are
/// ignored; each request is reported if any byte made it.
pub fn scan_commands(buf: &[u8]) -> (r: ScanOutcome)
    ensures
        r.status_requested == (exists|i: int| 0 <= i < buf@.len() && buf@[i] == 116u8),
        r.bootloader_requested == (exists|i: int| 0 <= i < buf@.len() && buf@[i] == 117u8),
{
    let mut status: bool = false;
    let mut boot: bool = false;
    let mut k: usize = 0;
    while k < buf.len()
        invariant
            k <= buf@.len(),
            status == (exists|i: int| 0 <= i < k && buf@[i] == 116u8),
            boot == (exists|i: int| 0 <= i < k && buf@[i] == 117u8),
        decreases buf@.len() - k,
    {
        let b: u8 = buf[k];
        if b == 116 {
            status = true;
        }
        if b == 117 {
            boot = true;
        }
        k = k + 1;
    }
    ScanOutcome { status_requested: status, bootloader_requested: boot }
}

/// The decimal digits of `n`, most significant first.
pub open spec fn dec_digits(n: nat) -> Seq<u8>
    decreases n,
{
    if n < 10 {
        seq![(48 + n) as u8]
    } else {
        dec_digits(n / 10).push((48 + n % 10) as u8)
    }
}

/// The rendering of a possibly negative whole number.
pub open spec fn int_digits(n: int) -> Seq<u8> {
    if n < 0 {
        seq![45u8] + dec_digits((-n) as nat)
    } else {
        dec_digits(n as nat)
    }
}

/// A number space-padded to at least three columns.
pub open spec fn padded3(n: nat) -> Seq<u8> {
    if n >= 100 {
        dec_digits(n)
    } else if n >= 10 {
        seq![32u8] + dec_digits(n)
    } else {
        seq![32u8, 32u8] + dec_digits(n)
    }
}

/// A number zero-padded to at least two columns.
pub open spec fn padded2(n: nat) -> Seq<u8> {
    if n >= 10 {
        dec_digits(n)
    } else {
        seq![48u8] + dec_digits(n)
    }
}

/// The duty cycle as a fraction of `PWM_TICKS`, in hundredths of a percent.
pub open spec fn permyriad_of(duty: int) -> int {
    duty * 10000 / 5000
}

/// The whole status line for a Q12 temperature and a duty value, as UTF-8
/// bytes: `T: `, the whole degrees, `\u{b0}C, D: `, the percent field, `.`,
/// the two decimals, `%`, newline.
pub open spec fn report_bytes(temp_q12: int, duty: int) -> Seq<u8> {
    seq![84u8, 58u8, 32u8] + int_digits(temp_q12 / 4096) + seq![
        194u8,
        176u8,
        67u8,
        44u8,
        32u8,
        68u8,
        58u8,
        32u8,
    ] + padded3((permyriad_of(duty) / 100) as nat) + seq![46u8] + padded2(
        (permyriad_of(duty) % 100) as nat,
    ) + seq![37u8, 10u8]
}

/// Appends the decimal digits of `n`.
fn push_decimal(out: &mut Vec<u8>, n: u32)
    ensures
        final(out)@ == old(out)@ + dec_digits(n as nat),
    decreases n,
{
    if n < 10 {
        out.push((48 + n) as u8);
        proof {
            assert(out@ =~= old(out)@ + dec_digits(n as nat));
        }
    } else {
        push_decimal(out, n / 10);
        let d: u32 = 48 + n % 10;
        out.push(d as u8);
        proof {
            assert(out@ =~= old(out)@ + dec_digits(n as nat));
        }
    }
}

/// Renders the status line for one temperature/duty pair.
#[verifier::rlimit(30)]
pub fn format_report(temp: Degrees, duty: u16) -> (r: Vec<u8>)
    requires
        duty <= 5000,
    ensures
        r@ == report_bytes(temp.0 as int, duty as int),
{
    let mut out: Vec<u8> = Vec::new();
    out.push(84);
    out.push(58);
    out.push(32);
    let ghost head = out@;
    proof {
        assert(head =~= seq![84u8, 58u8, 32u8]);
    }
    let whole: i32 = temp.whole_degrees();
    if whole < 0 {
        out.push(45);
        let magnitude: i64 = -(whole as i64);
        push_decimal(&mut out, magnitude as u32);
        proof {
            assert(out@ =~= head + int_digits(temp.0 as int / 4096));
        }
    } else {
        push_decimal(&mut out, whole as u32);
        proof {
            assert(out@ =~= head + int_digits(temp.0 as int / 4096));
        }
    }
    let ghost with_temp = out@;
    out.push(194);
    out.push(176);
    out.push(67);
    out.push(44);
    out.push(32);
    out.push(68);
    out.push(58);
    out.push(32);
    let ghost mid = out@;
    proof {
        assert(mid =~= with_temp + seq![194u8, 176u8, 67u8, 44u8, 32u8, 68u8, 58u8, 32u8]);
    }
    let pm: u32 = (duty as u32) * 10000 / 5000;
    let pct: u32 = pm / 100;
    let frac: u32 = pm % 100;
    if pct < 10 {
        out.push(32);
        out.push(32);
    } else if pct < 100 {
        out.push(32);
    }
    push_decimal(&mut out, pct);
    proof {
        assert(out@ =~= mid + padded3(pct as nat));
    }
    let ghost with_pct = out@;
    out.push(46);
    if frac < 10 {
        out.push(48);
    }
    push_decimal(&mut out, frac);
    proof {
        assert(out@ =~= with_pct + seq![46u8] + padded2(frac as nat));
    }
    out.push(37);
    out.push(10);
    proof {
        assert(out@ =~= report_bytes(temp.0 as int, duty as int));
    }
    out
}

} // verus!
