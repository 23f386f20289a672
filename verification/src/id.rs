//! The identity a window is known by.

use vstd::prelude::*;

verus! {

/// Identifies one viewport (one native window) among the viewports the GUI
/// runtime manages.
///
/// The identity is an opaque 64-bit value: it is handed out by the context
/// that owns the windows, is never mutated, and is not reused once the window
/// it named is gone. The raw value `0` is reserved for the application's
/// main viewport and must never be given to any other window.
#[derive(Debug, Clone, Copy, PartialEq, Eq, Hash, Structural)]
pub struct ViewportId(pub(crate) u64);

impl ViewportId {
    /// The raw 64-bit value behind this identity.
    pub closed spec fn raw(self) -> u64 {
        self.0
    }

    /// Wraps a raw 64-bit value as a viewport identity.
    ///
    /// Only the context that owns the windows should mint identities for
    /// real windows; the raw value `0` is reserved for the main viewport.
    pub fn from_raw(raw: u64) -> (r: Self)
        ensures
            r.raw() == raw,
    {
        ViewportId(raw)
    }

    /// The reserved identity of the application's main viewport.
    pub fn main_id() -> (r: Self)
        ensures
            r.raw() == 0,
    {
        ViewportId(0)
    }

    /// Renders the raw value in decimal, for logging and debugging only —
    /// the text is never parsed back into an identity.
    pub fn display_string(&self) -> (r: String)
        ensures
            r@ == dec_rep(self.raw() as nat),
    {
        let ghost n = self.0 as nat;
        let mut digits: Vec<u8> = Vec::new();
        let mut m: u64 = self.0;
        while m >= 10
            invariant
                dec_rep(n) == dec_rep(m as nat) + rev_chars(digits@),
            decreases m,
        {
            let ghost old_m = m as nat;
            let ghost old_digits = digits@;
            let d: u8 = (m % 10) as u8;
            digits.push(48 + d);
            m = m / 10;
            proof {
                assert(dec_rep(old_m) == dec_rep(old_m / 10).push(dec_digit_char(old_m % 10)));
                assert(rev_chars(digits@) =~= seq![dec_digit_char(old_m % 10)] + rev_chars(
                    old_digits,
                ));
                assert(dec_rep(m as nat) + rev_chars(digits@) =~= dec_rep(old_m) + rev_chars(
                    old_digits,
                ));
            }
        }
        let ghost pre_digits = digits@;
        digits.push(48 + (m as u8));
        proof {
            assert(rev_chars(digits@) =~= seq![dec_digit_char(m as nat)] + rev_chars(pre_digits));
            assert(dec_rep(n) =~= rev_chars(digits@));
        }
        let mut r = String::new();
        let mut i: usize = digits.len();
        while i > 0
            invariant
                i <= digits@.len(),
                dec_rep(n) == rev_chars(digits@),
                r@ == rev_chars(digits@).subrange(0, digits@.len() - i),
            decreases i,
        {
            i = i - 1;
            let code: u8 = digits[i];
            r.push(code as char);
            proof {
                assert(r@ =~= rev_chars(digits@).subrange(0, digits@.len() - i));
            }
        }
        proof {
            assert(r@ =~= rev_chars(digits@));
        }
        r
    }
}

/// The character for one decimal digit value below ten.
pub open spec fn dec_digit_char(d: nat) -> char {
    (((d + 48) as u8) as char)
}

/// The decimal digit characters of `n`, most significant first, with no
/// leading zeros (a single `'0'` for zero itself).
pub open spec fn dec_rep(n: nat) -> Seq<char>
    decreases n,
{
    if n < 10 {
        seq![dec_digit_char(n)]
    } else {
        dec_rep(n / 10).push(dec_digit_char(n % 10))
    }
}

/// The digit codes of `s` as characters, in reverse order.
spec fn rev_chars(s: Seq<u8>) -> Seq<char> {
    Seq::new(s.len(), |i: int| s[s.len() - 1 - i] as char)
}

/// Relies on `String::push`: appends the given character to the end of the
/// string.
pub assume_specification[ String::push ](s: &mut String, ch: char)
    ensures
        final(s)@ == old(s)@.push(ch),
;

/// Two identities are equal exactly when they wrap the same raw value.
pub proof fn lemma_id_eq(a: ViewportId, b: ViewportId)
    ensures
        (a == b) <==> (a.raw() == b.raw()),
{
}

impl Default for ViewportId {
    /// The default identity is the main viewport's.
    fn default() -> (r: Self)
        ensures
            r.raw() == 0,
    {
        ViewportId(0)
    }
}

} // verus!
