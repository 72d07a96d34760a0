//! A guard in front of the reply parser.
//!
//! The wire codec's string scanner runs to the closing quote of each
//! string literal without testing for end of input, so reply text that
//! ends inside a literal must never reach it.  This module states what
//! "every literal is closed" means, under the codec's escape rule —
//! inside a literal a backslash consumes the next character, and an
//! unescaped quote closes it — and checks it in one left-to-right pass.
//! The check is conservative: outside a literal it treats every quote as
//! opening one, which can only reject more than the parser's grammar
//! would, never less.

use vstd::prelude::*;

verus! {

/// One step per character: outside a literal a quote opens one; inside,
/// an escape consumes the next character and an unescaped quote closes
/// the literal.  True when the end of the text is reached outside a
/// literal.
pub open spec fn scan_closed(text: Seq<char>, inside: bool, escaped: bool) -> bool
    decreases text.len(),
{
    if text.len() == 0 {
        !inside
    } else {
        let c = text.first();
        let rest = text.drop_first();
        if !inside {
            scan_closed(rest, c == '"', false)
        } else if escaped {
            scan_closed(rest, true, false)
        } else if c == '\\' {
            scan_closed(rest, true, true)
        } else {
            scan_closed(rest, c != '"', false)
        }
    }
}

/// Every string literal in the text is closed before the text ends.
pub open spec fn literals_closed(text: Seq<char>) -> bool {
    scan_closed(text, false, false)
}

/// Check that every string literal in the text is closed.
pub fn check_literals_closed(text: &str) -> (r: bool)
    ensures
        r == literals_closed(text@),
{
    let n = text.unicode_len();
    proof {
        assert(text@.skip(0) =~= text@);
    }
    let mut i: usize = 0;
    let mut inside: bool = false;
    let mut escaped: bool = false;
    while i < n
        invariant
            i <= n,
            n == text@.len(),
            literals_closed(text@) == scan_closed(text@.skip(i as int), inside, escaped),
        decreases n - i,
    {
        let c = text.get_char(i);
        proof {
            assert(text@.skip(i as int).first() == text@[i as int]);
            assert(text@.skip(i as int).drop_first() =~= text@.skip(i + 1 as int));
        }
        if !inside {
            inside = c == '"';
            escaped = false;
        } else if escaped {
            escaped = false;
        } else if c == '\\' {
            escaped = true;
        } else {
            inside = c != '"';
        }
        i = i + 1;
    }
    proof {
        assert(text@.skip(n as int) =~= Seq::<char>::empty());
    }
    !inside
}

} // verus!
