//! Line relay: each line read from the supervisor's own input reaches the
//! child with its terminator appended.

use vstd::prelude::*;
use crate::shutdown::LINE_TERMINATOR;

verus! {

/// The bytes written to the child for one relayed line.
pub open spec fn relay_bytes(line: Seq<u8>) -> Seq<u8> {
    line.push(LINE_TERMINATOR)
}

/// The bytes written to the child for a run of relayed lines: each line once,
/// terminated, in the order read.
pub open spec fn relayed(lines: Seq<Seq<u8>>) -> Seq<u8>
    decreases lines.len(),
{
    if lines.len() == 0 {
        Seq::empty()
    } else {
        relayed(lines.drop_last()) + relay_bytes(lines.last())
    }
}

/// Appends the line terminator to a line read without it.
pub fn relay_line(line: Vec<u8>) -> (r: Vec<u8>)
    ensures
        r@ == relay_bytes(line@),
{
    let mut out = line;
    out.push(LINE_TERMINATOR);
    out
}

} // verus!
