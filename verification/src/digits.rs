//! Runs of decimal digits in a text. The JSON parser counts the digits of a
//! fraction in 16 bits, so a text is handed to it only where no run of
//! digits is longer than that counter takes.

use vstd::prelude::*;

verus! {

/// The longest run of decimal digits in a text that is handed to the JSON
/// parser.
pub const MAX_DIGIT_RUN: usize = 32767;

/// Whether a byte is one of the ten decimal digits.
pub open spec fn is_digit_byte(b: u8) -> bool {
    48 <= b <= 57
}

/// The number of decimal digits at the end of `bytes`.
pub open spec fn trailing_digits(bytes: Seq<u8>) -> nat
    decreases bytes.len(),
{
    if bytes.len() == 0 || !is_digit_byte(bytes.last()) {
        0
    } else {
        trailing_digits(bytes.drop_last()) + 1
    }
}

/// The length of the longest run of decimal digits in `bytes`.
pub open spec fn longest_digit_run(bytes: Seq<u8>) -> nat
    decreases bytes.len(),
{
    if bytes.len() == 0 {
        0
    } else if longest_digit_run(bytes.drop_last()) >= trailing_digits(bytes) {
        longest_digit_run(bytes.drop_last())
    } else {
        trailing_digits(bytes)
    }
}

/// Whether no run of decimal digits in `bytes` is too long for the JSON
/// parser.
pub open spec fn digit_runs_fit_in(bytes: Seq<u8>) -> bool {
    longest_digit_run(bytes) <= MAX_DIGIT_RUN
}

/// The beginning of a text holds no longer a run than the whole.
proof fn lemma_prefix_run(bytes: Seq<u8>, k: int)
    requires
        0 <= k <= bytes.len(),
    ensures
        longest_digit_run(bytes.take(k)) <= longest_digit_run(bytes),
    decreases bytes.len() - k,
{
    if k == bytes.len() {
        assert(bytes.take(k) =~= bytes);
    } else {
        lemma_prefix_run(bytes.drop_last(), k);
        assert(bytes.drop_last().take(k) =~= bytes.take(k));
    }
}

/// Tells whether no run of decimal digits in `bytes` is too long for the
/// JSON parser.
pub fn digit_runs_fit(bytes: &[u8]) -> (fits: bool)
    ensures
        fits == digit_runs_fit_in(bytes@),
{
    let n = bytes.len();
    let mut i: usize = 0;
    let mut run: usize = 0;
    assert(bytes@.take(0) =~= Seq::<u8>::empty());
    while i < n
        invariant
            i <= n,
            n == bytes@.len(),
            run == trailing_digits(bytes@.take(i as int)),
            run <= MAX_DIGIT_RUN,
            longest_digit_run(bytes@.take(i as int)) <= MAX_DIGIT_RUN,
        decreases n - i,
    {
        let b = bytes[i];
        proof {
            assert(bytes@.take(i + 1).drop_last() =~= bytes@.take(i as int));
            assert(bytes@.take(i + 1).last() == b);
        }
        if 48 <= b && b <= 57 {
            run = run + 1;
        } else {
            run = 0;
        }
        if run > MAX_DIGIT_RUN {
            proof {
                lemma_prefix_run(bytes@, i + 1);
            }
            return false;
        }
        i = i + 1;
    }
    assert(bytes@.take(n as int) =~= bytes@);
    true
}

} // verus!
