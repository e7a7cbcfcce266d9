//! Canonical window labels.
//!
//! Every overlay window is registered under a label derived from its symbol:
//! a fixed prefix followed by the symbol with characters that identifiers
//! disallow replaced by underscores.  The derivation is deterministic, so the
//! same symbol always resolves to the same window.

use vstd::prelude::*;

verus! {

/// How one character of a symbol appears in a window label: a dot is
/// replaced by an underscore, every other character is kept.
pub open spec fn sanitize_char(c: char) -> char {
    if c == '.' {
        '_'
    } else {
        c
    }
}

/// A symbol as it appears inside a window label.
pub open spec fn sanitize(s: Seq<char>) -> Seq<char> {
    s.map_values(|c: char| sanitize_char(c))
}

/// The canonical window label for a symbol.
pub open spec fn label_of(symbol: Seq<char>) -> Seq<char> {
    "ticker_"@ + sanitize(symbol)
}

/// Relies on String::push: appends one character at the end of the string.
#[verifier::external_body]
fn push_char(s: &mut String, c: char)
    ensures
        final(s)@ == old(s)@.push(c),
{
    s.push(c);
}

/// The label under which the overlay window for `symbol` is registered.
pub fn window_label(symbol: &String) -> (r: String)
    ensures
        r@ == label_of(symbol@),
{
    let mut out = String::from_str("ticker_");
    let n = symbol.as_str().unicode_len();
    let mut i: usize = 0;
    while i < n
        invariant
            n == symbol@.len(),
            i <= n,
            out@ == "ticker_"@ + sanitize(symbol@.take(i as int)),
        decreases n - i,
    {
        let c = symbol.as_str().get_char(i);
        let mapped = if c == '.' {
            '_'
        } else {
            c
        };
        push_char(&mut out, mapped);
        proof {
            assert(sanitize(symbol@.take(i + 1)) =~= sanitize(symbol@.take(i as int)).push(
                sanitize_char(symbol@[i as int]),
            ));
            assert(out@ =~= "ticker_"@ + sanitize(symbol@.take(i + 1)));
        }
        i += 1;
    }
    proof {
        assert(symbol@.take(n as int) =~= symbol@);
    }
    out
}

} // verus!
