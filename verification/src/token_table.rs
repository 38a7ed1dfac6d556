//! The table of coroutines that wait for an I/O event.
//!
//! A coroutine that blocks on a file descriptor is parked in the table under a
//! token; the event loop reports readiness by token, and the coroutine that
//! waits under that token is taken out of the table and made runnable again.
//! The table lives in a `mio::util::Slab`, which hands out the tokens.
use vstd::prelude::*;

verus! {

/// Number of tokens a table offers when no other number is given.
pub const MAX_TOKEN_NUM: usize = 102400;

/// The `mio::util::Slab` that holds the waiting coroutines, each by the
/// number under which the scheduler knows it. Its field is private: a value is
/// made only by `slab_new` and changed only by `slab_insert` and `slab_remove`,
/// and `slab_remove` is never asked for a free slot. The slab's free list,
/// which starts as the chain of all slots, thus always chains exactly the free
/// slots (an insert takes its head, a remove of an occupied slot pushes that
/// slot on it), which the contract of `slab_insert` relies on.
#[verifier::external_body]
pub struct WaiterSlab {
    inner: mio::util::Slab<u64>,
}

/// What the slab holds: each occupied token with the coroutine parked there.
pub uninterp spec fn slab_contents(slab: WaiterSlab) -> Map<usize, u64>;

/// The number of slots the slab was made with.
pub uninterp spec fn slab_capacity(slab: WaiterSlab) -> nat;

/// Calls `Slab::new(capacity)`: a slab with `capacity` empty slots.
/// `Slab::new_starting_at` computes `capacity + 1`, so `capacity` stays below
/// `usize::MAX`.
#[verifier::external_body]
fn slab_new(capacity: usize) -> (made: WaiterSlab)
    requires
        capacity < usize::MAX,
    ensures
        slab_contents(made) =~= Map::empty(),
        slab_capacity(made) == capacity,
{
    WaiterSlab { inner: mio::util::Slab::new(capacity) }
}

/// Calls `Slab::insert`. The slab takes the head of its free list: when a
/// slot is free (the free list then is not empty, see `WaiterSlab`) the result
/// is `Ok(token)`, the value sitting under a token below the capacity that was
/// free before; when every slot is taken the value comes back as `Err(value)`
/// and the slab is unchanged.
#[verifier::external_body]
fn slab_insert(slab: &mut WaiterSlab, value: u64) -> (res: Result<usize, u64>)
    ensures
        slab_capacity(*final(slab)) == slab_capacity(*old(slab)),
        slab_contents(*old(slab)).len() >= slab_capacity(*old(slab)) ==> res is Err,
        slab_contents(*old(slab)).len() < slab_capacity(*old(slab)) ==> res is Ok,
        match res {
            Ok(token) => {
                &&& token < slab_capacity(*old(slab))
                &&& !slab_contents(*old(slab)).contains_key(token)
                &&& slab_contents(*final(slab)) == slab_contents(*old(slab)).insert(token, value)
            },
            Err(back) => {
                &&& back == value
                &&& slab_contents(*final(slab)) == slab_contents(*old(slab))
            },
        },
{
    match slab.inner.insert(value) {
        Ok(token) => Ok(token.as_usize()),
        Err(back) => Err(back),
    }
}

/// Calls `Slab::remove` on an occupied token: the parked value comes out and
/// the slot is free again. On a free slot the outside method overwrites the
/// free-list link of that slot, so the call is only made on occupied tokens.
#[verifier::external_body]
fn slab_remove(slab: &mut WaiterSlab, token: usize) -> (res: Option<u64>)
    requires
        slab_contents(*old(slab)).contains_key(token),
    ensures
        slab_capacity(*final(slab)) == slab_capacity(*old(slab)),
        res == Some(slab_contents(*old(slab))[token]),
        slab_contents(*final(slab)) == slab_contents(*old(slab)).remove(token),
{
    slab.inner.remove(mio::Token(token))
}

/// Calls `Slab::contains`: whether a value is parked under `token`. The method
/// indexes its slots for every token below the vector's capacity, so it is
/// only asked about tokens below the slab's capacity.
#[verifier::external_body]
fn slab_contains(slab: &WaiterSlab, token: usize) -> (res: bool)
    requires
        token < slab_capacity(*slab),
    ensures
        res == slab_contents(*slab).contains_key(token),
{
    slab.inner.contains(mio::Token(token))
}

/// Calls `Slab::count`: how many slots are occupied.
#[verifier::external_body]
fn slab_count(slab: &WaiterSlab) -> (res: usize)
    ensures
        res == slab_contents(*slab).len(),
{
    slab.inner.count()
}

/// The coroutines that wait for readiness, each under the token that the event
/// loop reports.
pub struct TokenTable {
    slab: WaiterSlab,
    capacity: usize,
}

impl TokenTable {
    /// Token to waiting coroutine.
    pub closed spec fn view(&self) -> Map<usize, u64> {
        slab_contents(self.slab)
    }

    /// How many tokens the table offers.
    pub closed spec fn spec_capacity(&self) -> nat {
        self.capacity as nat
    }

    /// Every token in use is below the capacity, and the table is finite.
    pub closed spec fn wf(&self) -> bool {
        &&& slab_capacity(self.slab) == self.capacity
        &&& self.capacity < usize::MAX
        &&& slab_contents(self.slab).dom().finite()
        &&& forall|t: usize| #[trigger] slab_contents(self.slab).contains_key(t) ==> t < self.capacity
    }

    /// A table with `MAX_TOKEN_NUM` free tokens.
    pub fn new() -> (table: TokenTable)
        ensures
            table.wf(),
            table@ =~= Map::empty(),
            table@.dom().finite(),
            table.spec_capacity() == MAX_TOKEN_NUM,
    {
        TokenTable::with_tokens(MAX_TOKEN_NUM)
    }

    /// A table with `token_num` free tokens.
    pub fn with_tokens(token_num: usize) -> (table: TokenTable)
        requires
            token_num < usize::MAX,
        ensures
            table.wf(),
            table@ =~= Map::empty(),
            table@.dom().finite(),
            table.spec_capacity() == token_num,
    {
        let slab = slab_new(token_num);
        TokenTable { slab, capacity: token_num }
    }

    /// A well-formed table holds finitely many waiting coroutines.
    pub proof fn lemma_view_finite(&self)
        requires
            self.wf(),
        ensures
            self@.dom().finite(),
    {
    }

    /// How many tokens the table offers.
    pub fn capacity(&self) -> (n: usize)
        ensures
            n == self.spec_capacity(),
    {
        self.capacity
    }

    /// Parks `waiter` under a fresh token, which succeeds exactly when some
    /// token is free. `None` when every token is taken; the table is then
    /// unchanged.
    pub fn park(&mut self, waiter: u64) -> (token: Option<usize>)
        requires
            old(self).wf(),
        ensures
            final(self).wf(),
            final(self)@.dom().finite(),
            final(self).spec_capacity() == old(self).spec_capacity(),
            token.is_some() <==> old(self)@.len() < old(self).spec_capacity(),
            match token {
                Some(t) => {
                    &&& t < old(self).spec_capacity()
                    &&& !old(self)@.contains_key(t)
                    &&& final(self)@ == old(self)@.insert(t, waiter)
                },
                None => final(self)@ == old(self)@,
            },
    {
        let res = slab_insert(&mut self.slab, waiter);
        match res {
            Ok(t) => Some(t),
            Err(_) => None,
        }
    }

    /// The event loop reports `token` ready: the coroutine waiting under it, if
    /// any, leaves the table and is returned so that it can run again. An
    /// unknown token changes nothing.
    pub fn wake(&mut self, token: usize) -> (woken: Option<u64>)
        requires
            old(self).wf(),
        ensures
            final(self).wf(),
            final(self)@.dom().finite(),
            final(self).spec_capacity() == old(self).spec_capacity(),
            old(self)@.contains_key(token) ==> {
                &&& woken == Some(old(self)@[token])
                &&& final(self)@ == old(self)@.remove(token)
            },
            !old(self)@.contains_key(token) ==> {
                &&& woken.is_none()
                &&& final(self)@ == old(self)@
            },
    {
        if token < self.capacity && slab_contains(&self.slab, token) {
            slab_remove(&mut self.slab, token)
        } else {
            None
        }
    }

    /// How many coroutines wait for an event.
    pub fn waiting_count(&self) -> (n: usize)
        requires
            self.wf(),
        ensures
            n == self@.len(),
    {
        slab_count(&self.slab)
    }
}

/// What a wake gives back of a park: the coroutine parked under a fresh token
/// is the one that the token's event wakes, it is woken once (a second event
/// on the token finds nobody), and waking it leaves the table as it was before
/// the park.
pub proof fn lemma_park_then_wake(table: Map<usize, u64>, token: usize, waiter: u64)
    requires
        !table.contains_key(token),
    ensures
        table.insert(token, waiter).contains_key(token),
        table.insert(token, waiter)[token] == waiter,
        !table.insert(token, waiter).remove(token).contains_key(token),
        table.insert(token, waiter).remove(token) =~= table,
{
}

/// Parking adds one waiting coroutine and waking a waiting one removes one:
/// the waiting count follows the parks and wakes.
pub proof fn lemma_waiting_count(table: Map<usize, u64>, token: usize, waiter: u64)
    requires
        table.dom().finite(),
    ensures
        !table.contains_key(token) ==> table.insert(token, waiter).len() == table.len() + 1,
        table.contains_key(token) ==> table.remove(token).len() == table.len() - 1,
{
}

/// Waking one token leaves every other waiting coroutine where it was.
pub proof fn lemma_wake_leaves_others(table: Map<usize, u64>, token: usize, other: usize)
    requires
        other != token,
    ensures
        table.remove(token).contains_key(other) == table.contains_key(other),
        table.contains_key(other) ==> table.remove(token)[other] == table[other],
{
}

} // verus!
