//! Finding a symbol in a table.
use vstd::prelude::*;

verus! {

/// The place where `symbol` first stands in `table`, if it stands there at all.
pub(crate) fn position(table: &[char], symbol: char) -> (found: Option<usize>)
    ensures
        match found {
            Some(at) => {
                &&& at < table@.len()
                &&& table@[at as int] == symbol
                &&& !table@.take(at as int).contains(symbol)
            },
            None => !table@.contains(symbol),
        },
{
    let mut at: usize = 0;
    while at < table.len()
        invariant
            at <= table@.len(),
            !table@.take(at as int).contains(symbol),
        decreases table@.len() - at,
    {
        if table[at] == symbol {
            return Some(at);
        }
        at += 1;
    }
    assert(table@.take(at as int) =~= table@);
    None
}

} // verus!
