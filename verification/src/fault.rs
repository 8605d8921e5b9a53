//! The fault bridge: turns an uncaught fatal condition into a device-visible
//! diagnostic before the program halts.
//!
//! There is no console to report to, so the bridge formats a bounded message
//! — the fault's payload text, source file and line — into a fixed-capacity
//! buffer without allocating beyond it, sends the message through the
//! device's error entry point, and hands back the halt action: the fixed
//! invalid address that is then written through to force a hardware fault.

use vstd::prelude::*;

use crate::cstr::is_c_form;
use crate::device::Device;
use vstd::math::min;

verus! {

/// The capacity of the fault buffer, terminator included.
pub const FAULT_CAPACITY: usize = 1024;

/// The address written through to force a halt after a fault is reported.
pub const FAULT_HALT_ADDRESS: usize = 0xdeadbeef;

/// The deliberate last action of a fatal path: write through `address` so
/// the hardware faults immediately.
#[derive(Clone, Copy, Debug, PartialEq, Eq, Structural)]
pub struct Halt {
    pub address: usize,
}

/// The halt action that writes through the given invalid address.
pub fn abort_with_addr(addr: usize) -> (r: Halt)
    ensures
        r.address == addr,
{
    Halt { address: addr }
}

/// The decimal digits of `n`, most significant first.
pub open spec fn dec_digits(n: nat) -> Seq<u8>
    decreases n,
{
    if n < 10 {
        seq![(48 + n) as u8]
    } else {
        dec_digits(n / 10).push((48 + n % 10) as u8)
    }
}

/// `s` with every null byte replaced by `'?'`, so that the result can stand
/// inside a C string.
pub open spec fn sanitized(s: Seq<u8>) -> Seq<u8> {
    s.map_values(|b: u8| if b == 0u8 { 63u8 } else { b })
}

/// The prefix of the fault message.
pub open spec fn fault_prefix() -> Seq<u8> {
    seq![112u8, 97u8, 110u8, 105u8, 99u8, 58u8, 32u8]
}

/// The separator between the payload and the source location.
pub open spec fn fault_separator() -> Seq<u8> {
    seq![32u8, 64u8, 32u8]
}

/// The full, untruncated fault text: `panic: <payload> @ <file>:<line>`,
/// with null bytes in the payload and file sanitized away.
pub open spec fn fault_text(payload: Seq<u8>, file: Seq<u8>, line: u32) -> Seq<u8> {
    fault_prefix() + sanitized(payload) + fault_separator() + sanitized(file) + seq![58u8]
        + dec_digits(line as nat)
}

/// `s` cut to at most `k` bytes.
pub open spec fn take_clamped(s: Seq<u8>, k: int) -> Seq<u8> {
    s.take(min(k, s.len() as int))
}

/// The message the fault bridge sends: the fault text, truncated to fit the
/// fixed buffer, followed by the terminating null byte.
pub open spec fn fault_message(payload: Seq<u8>, file: Seq<u8>, line: u32) -> Seq<u8> {
    take_clamped(fault_text(payload, file, line), FAULT_CAPACITY - 1).push(0u8)
}

/// Clamped take distributes over concatenation: the head contributes its own
/// clamped take, and the tail what room is left.
proof fn lemma_take_clamped_concat(a: Seq<u8>, b: Seq<u8>, k: int)
    requires
        0 <= k,
    ensures
        take_clamped(a + b, k) == take_clamped(a, k) + take_clamped(b, if k - a.len() >= 0 {
            k - a.len()
        } else {
            0
        }),
{
    assert(take_clamped(a + b, k) =~= take_clamped(a, k) + take_clamped(b, if k - a.len() >= 0 {
        k - a.len()
    } else {
        0
    }));
}

/// Appends `src` to `out`, but only up to the fixed capacity `cap`.
fn append_upto(out: &mut Vec<u8>, src: &Vec<u8>, cap: usize)
    requires
        old(out)@.len() <= cap,
    ensures
        final(out)@ == old(out)@ + src@.take(min(src@.len() as int, cap - old(out)@.len())),
        final(out)@.len() <= cap,
{
    let room = cap - out.len();
    let n = if src.len() < room {
        src.len()
    } else {
        room
    };
    let mut i: usize = 0;
    while i < n
        invariant
            n <= src@.len(),
            0 <= i <= n,
            out@ == old(out)@ + src@.take(i as int),
            out@.len() <= cap,
            n == min(src@.len() as int, cap - old(out)@.len()),
        decreases n - i,
    {
        out.push(src[i]);
        proof {
            assert(out@ =~= old(out)@ + src@.take(i + 1 as int));
        }
        i = i + 1;
    }
}

/// `s` with every null byte replaced by `'?'`.
fn sanitize(s: &Vec<u8>) -> (r: Vec<u8>)
    ensures
        r@ == sanitized(s@),
{
    let n = s.len();
    let mut out: Vec<u8> = Vec::new();
    let mut i: usize = 0;
    while i < n
        invariant
            n == s@.len(),
            0 <= i <= n,
            out@ == sanitized(s@.take(i as int)),
        decreases n - i,
    {
        let b = s[i];
        out.push(if b == 0 {
            63
        } else {
            b
        });
        proof {
            assert(out@ =~= sanitized(s@.take(i + 1 as int)));
        }
        i = i + 1;
    }
    proof {
        assert(s@.take(n as int) =~= s@);
    }
    out
}

/// Appends the decimal digits of `n` to `out`.
fn push_decimal(out: &mut Vec<u8>, n: u32)
    ensures
        final(out)@ == old(out)@ + dec_digits(n as nat),
    decreases n,
{
    if n >= 10 {
        push_decimal(out, n / 10);
    }
    out.push(48 + (n % 10) as u8);
    proof {
        assert(out@ =~= old(out)@ + dec_digits(n as nat));
    }
}

/// Formats the bounded fault message for a fault with the given payload
/// text, source file and line: the fault text truncated to the fixed
/// capacity, null-terminated, and free of interior null bytes, so the device
/// error entry point accepts it. Nothing here can fail, whatever the inputs.
#[verifier::rlimit(60)]
pub fn render_fault_message(payload: &Vec<u8>, file: &Vec<u8>, line: u32) -> (r: Vec<u8>)
    ensures
        r@ == fault_message(payload@, file@, line),
        r@.len() <= FAULT_CAPACITY,
        is_c_form(r@),
{
    let cap = FAULT_CAPACITY - 1;
    let mut out: Vec<u8> = Vec::new();
    let mut head: Vec<u8> = Vec::new();
    head.push(112);
    head.push(97);
    head.push(110);
    head.push(105);
    head.push(99);
    head.push(58);
    head.push(32);
    proof {
        assert(head@ =~= fault_prefix());
    }
    let mut sep: Vec<u8> = Vec::new();
    sep.push(32);
    sep.push(64);
    sep.push(32);
    proof {
        assert(sep@ =~= fault_separator());
    }
    let mut colon: Vec<u8> = Vec::new();
    colon.push(58);
    proof {
        assert(colon@ =~= seq![58u8]);
    }
    let clean_payload = sanitize(payload);
    let clean_file = sanitize(file);
    let mut digits: Vec<u8> = Vec::new();
    push_decimal(&mut digits, line);

    append_upto(&mut out, &head, cap);
    proof {
        assert(out@ =~= take_clamped(head@, cap as int));
    }
    let ghost part1 = fault_prefix();
    append_upto(&mut out, &clean_payload, cap);
    proof {
        lemma_take_clamped_concat(part1, clean_payload@, cap as int);
        assert(out@ == take_clamped(part1 + clean_payload@, cap as int));
    }
    let ghost part2 = part1 + sanitized(payload@);
    append_upto(&mut out, &sep, cap);
    proof {
        lemma_take_clamped_concat(part2, sep@, cap as int);
        assert(out@ == take_clamped(part2 + sep@, cap as int));
    }
    let ghost part3 = part2 + fault_separator();
    append_upto(&mut out, &clean_file, cap);
    proof {
        lemma_take_clamped_concat(part3, clean_file@, cap as int);
        assert(out@ == take_clamped(part3 + clean_file@, cap as int));
    }
    let ghost part4 = part3 + sanitized(file@);
    append_upto(&mut out, &colon, cap);
    proof {
        lemma_take_clamped_concat(part4, colon@, cap as int);
        assert(out@ == take_clamped(part4 + colon@, cap as int));
    }
    let ghost part5 = part4 + seq![58u8];
    append_upto(&mut out, &digits, cap);
    proof {
        lemma_take_clamped_concat(part5, digits@, cap as int);
        assert(out@ == take_clamped(part5 + digits@, cap as int));
        assert(part5 + digits@ == fault_text(payload@, file@, line));
    }
    out.push(0);
    proof {
        lemma_fault_text_has_no_nul(payload@, file@, line);
        assert(out@ == fault_message(payload@, file@, line));
        let t = take_clamped(fault_text(payload@, file@, line), cap as int);
        assert(out@.take(out@.len() - 1) =~= t);
    }
    out
}

/// No byte of the fault text is null: the fixed parts are printable, the
/// payload and file are sanitized, and decimal digits are never null.
proof fn lemma_fault_text_has_no_nul(payload: Seq<u8>, file: Seq<u8>, line: u32)
    ensures
        forall|i: int| 0 <= i < fault_text(payload, file, line).len()
            ==> fault_text(payload, file, line)[i] != 0u8,
{
    lemma_dec_digits_nonzero(line as nat);
}

/// Decimal digits lie between `'0'` and `'9'`.
proof fn lemma_dec_digits_nonzero(n: nat)
    ensures
        forall|i: int| 0 <= i < dec_digits(n).len()
            ==> 48 <= #[trigger] dec_digits(n)[i] <= 57,
    decreases n,
{
    if n >= 10 {
        lemma_dec_digits_nonzero(n / 10);
        assert forall|i: int| 0 <= i < dec_digits(n).len()
            implies 48 <= #[trigger] dec_digits(n)[i] <= 57 by {
            if i < dec_digits(n / 10).len() {
                assert(dec_digits(n)[i] == dec_digits(n / 10)[i]);
            } else {
                assert(dec_digits(n)[i] == (48 + n % 10) as u8);
            }
        }
    }
}

/// Reports a fault through the device's error entry point and hands back
/// the halt action. The message is the bounded fault message; the halt
/// address is the fixed fault address. This path allocates only the fixed
/// buffer and cannot itself fault, whatever the payload holds.
pub fn report_fault(dev: &mut Device, payload: &Vec<u8>, file: &Vec<u8>, line: u32) -> (halt:
    Halt)
    requires
        old(dev).wf(),
    ensures
        final(dev).wf(),
        final(dev).error_log@.len() == old(dev).error_log@.len() + 1,
        final(dev).error_log@ == old(dev).error_log@.push(final(dev).error_log@.last()),
        final(dev).error_log@.last()@ == fault_message(payload@, file@, line),
        (*final(dev) == Device { error_log: final(dev).error_log, ..(*old(dev)) }),
        halt.address == FAULT_HALT_ADDRESS,
{
    let message = render_fault_message(payload, file, line);
    dev.error_line(message);
    abort_with_addr(FAULT_HALT_ADDRESS)
}

} // verus!
