//! The label shown beside a progress bar.

use crate::text::{chars_of, push_char};
use vstd::prelude::*;

verus! {

/// The width, in characters, of every progress bar label.
pub const LABEL_WIDTH: usize = 35;

/// `s` cut or padded with spaces to the label width.
pub open spec fn padded_label(s: Seq<char>) -> Seq<char> {
    if s.len() >= LABEL_WIDTH {
        s.take(LABEL_WIDTH as int)
    } else {
        s + Seq::new((LABEL_WIDTH - s.len()) as nat, |i: int| ' ')
    }
}

/// The label of a progress bar: `s` cut to the label width if it is longer,
/// padded with spaces to that width if it is shorter.
pub fn message_progress_bar(s: &str) -> (r: String)
    ensures
        r@ == padded_label(s@),
        r@.len() == LABEL_WIDTH,
{
    let chars = chars_of(s);
    let mut out = String::new();
    let mut i: usize = 0;
    while i < LABEL_WIDTH
        invariant
            i <= LABEL_WIDTH,
            chars@ == s@,
            out@.len() == i,
            forall|j: int| 0 <= j < i ==> out@[j] == (if j < chars@.len() {
                chars@[j]
            } else {
                ' '
            }),
        decreases LABEL_WIDTH - i,
    {
        let c = if i < chars.len() {
            chars[i]
        } else {
            ' '
        };
        push_char(&mut out, c);
        i += 1;
    }
    assert(out@ =~= padded_label(s@));
    out
}

} // verus!
