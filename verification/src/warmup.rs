use vstd::prelude::*;

use crate::text::{decimal_text, push_decimal};

verus! {

/// The announcement of a warm-up: `warming up N pack(s)`.
pub open spec fn warming_up_text(pack_count: usize) -> Seq<char> {
    "warming up "@ + decimal_text(pack_count as nat) + " pack(s)"@
}

/// The line printed before the data packs of a snapshot are warmed up.
pub fn warming_up_message(pack_count: usize) -> (s: String)
    ensures
        s@ == warming_up_text(pack_count),
{
    let mut s = String::new();
    s.append("warming up ");
    push_decimal(&mut s, pack_count as u64);
    s.append(" pack(s)");
    s
}

} // verus!
