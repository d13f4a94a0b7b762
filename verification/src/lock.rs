use vstd::prelude::*;

verus! {

/// A record of what an asynchronous mutex held when it was made: the mutex
/// and its first contents. Only [`new_async_mutex`] makes one.
#[verifier::reject_recursive_types(A)]
pub struct LockSeed<A> {
    lock: Ghost<async_lock::Mutex<A>>,
    held: Ghost<A>,
}

impl<A> LockSeed<A> {
    /// The mutex that was made.
    pub closed spec fn lock(&self) -> async_lock::Mutex<A> {
        self.lock@
    }

    /// What the mutex held when it was made.
    pub closed spec fn held(&self) -> A {
        self.held@
    }
}

/// `async_lock::Mutex::new`: a fresh, unlocked asynchronous mutex holding
/// `data`, with the record that it was made holding `data`. What it holds
/// later is not stated: it changes behind shared references.
#[verifier::external_body]
pub(crate) fn new_async_mutex<A>(data: A) -> (r: (async_lock::Mutex<A>, LockSeed<A>))
    ensures
        r.1.lock() == r.0,
        r.1.held() == data,
{
    let held = Ghost(data);
    let made = async_lock::Mutex::new(data);
    let lock = Ghost(made);
    (made, LockSeed { lock, held })
}

} // verus!
