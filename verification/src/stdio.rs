//! The descriptor flags that put the program's standard streams into
//! non-blocking mode, as the demo program's `stdin()` and `stdout()` set them.
use vstd::prelude::*;

verus! {

/// The flags to write back with `F_SETFL`, given the flags that `F_GETFL`
/// read and the non-blocking bit: `None` when the bit is already set, so that
/// nothing needs writing; otherwise the read flags with the bit added.
pub fn nonblocking_flags(opts: i32, nonblock: i32) -> (update: Option<i32>)
    ensures
        update == (if opts & nonblock == 0 { Some(opts | nonblock) } else { None }),
{
    if opts & nonblock == 0 {
        Some(opts | nonblock)
    } else {
        None
    }
}

/// The flags written back keep every flag that was set and add the
/// non-blocking bit.
pub proof fn lemma_update_keeps_flags(opts: i32, nonblock: i32)
    ensures
        (opts | nonblock) & opts == opts,
        (opts | nonblock) & nonblock == nonblock,
{
    assert((opts | nonblock) & opts == opts) by (bit_vector);
    assert((opts | nonblock) & nonblock == nonblock) by (bit_vector);
}

} // verus!
