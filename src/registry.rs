use vstd::prelude::*;

use crate::handler::EventHandler;

verus! {

/// Opaque token that names one registry slot; it is the 64-bit user data
/// stored with a backend registration.
#[derive(Clone, Copy, Debug, PartialEq, Eq, Structural)]
pub struct FFIRef {
    pub token: u64,
}

impl FFIRef {
    /// The 64-bit value to hand to the backend.
    pub fn epoll_repr(&mut self) -> (r: u64)
        ensures
            r == old(self).token,
            *final(self) == *old(self),
    {
        self.token
    }
}

/// A token that names no live handler was dispatched or released.
#[derive(Clone, Copy, Debug, PartialEq, Eq, Structural)]
pub struct StaleToken {
    pub token: u64,
}

/// Whether `token` names an occupied slot of `slots`.
pub open spec fn is_live_in<H>(slots: Seq<Option<H>>, token: u64) -> bool {
    token < slots.len() && slots[token as int] is Some
}

/// `after` is `before` with `h` stored under `token`: the lowest free slot,
/// or a new slot at the end when every slot is taken.
pub open spec fn registered<H>(before: Seq<Option<H>>, h: H, token: u64, after: Seq<Option<H>>) -> bool {
    &&& token <= before.len()
    &&& forall|j: int| 0 <= j < token ==> before[j] is Some
    &&& token < before.len() ==> {
        &&& before[token as int] is None
        &&& after == before.update(token as int, Some(h))
    }
    &&& token == before.len() ==> after == before.push(Some(h))
}

/// One dispatch of `event` to `token`: a live handler takes one step of its
/// own transition relation and every other slot is kept; a stale token
/// leaves the table as it was.
pub open spec fn dispatched<H: EventHandler>(
    before: Seq<Option<H>>,
    token: u64,
    event: u32,
    after: Seq<Option<H>>,
) -> bool {
    if is_live_in(before, token) {
        &&& after.len() == before.len()
        &&& after[token as int] is Some
        &&& H::handles(before[token as int]->Some_0, event, after[token as int]->Some_0)
        &&& forall|j: int| 0 <= j < before.len() && j != token ==> after[j] == before[j]
    } else {
        after == before
    }
}

/// Dispatching the token that registration handed out reaches the handler
/// that was registered: it is live, it takes exactly one step with the given
/// mask, and every other slot stays as registration left it.
pub proof fn lemma_register_then_dispatch<H: EventHandler>(
    before: Seq<Option<H>>,
    h: H,
    token: u64,
    mid: Seq<Option<H>>,
    event: u32,
    after: Seq<Option<H>>,
)
    requires
        registered(before, h, token, mid),
        dispatched(mid, token, event, after),
    ensures
        is_live_in(mid, token),
        after.len() == mid.len(),
        after[token as int] is Some,
        H::handles(h, event, after[token as int]->Some_0),
        forall|j: int| 0 <= j < mid.len() && j != token ==> after[j] == mid[j],
{
    if token < before.len() {
        assert(mid[token as int] == Some(h));
    } else {
        assert(mid[token as int] == Some(h));
    }
}

/// An arena of owned handlers, indexed by token. A freed slot is reused by
/// the next registration.
pub struct HandlerRegistry<H> {
    slots: Vec<Option<H>>,
}

impl<H> View for HandlerRegistry<H> {
    type V = Seq<Option<H>>;

    closed spec fn view(&self) -> Seq<Option<H>> {
        self.slots@
    }
}

impl<H> HandlerRegistry<H> {
    pub fn new() -> (r: Self)
        ensures
            r@ == Seq::<Option<H>>::empty(),
    {
        HandlerRegistry { slots: Vec::new() }
    }

    /// Number of slots, free ones included.
    pub fn len(&self) -> (r: usize)
        ensures
            r == self@.len(),
    {
        self.slots.len()
    }

    pub fn is_live(&self, token: u64) -> (r: bool)
        ensures
            r == is_live_in(self@, token),
    {
        if token < self.slots.len() as u64 {
            self.slots[token as usize].is_some()
        } else {
            false
        }
    }

    /// Takes ownership of `h` and stores it in the lowest free slot, or in a
    /// new slot at the end when none is free.
    pub fn register(&mut self, h: H) -> (t: FFIRef)
        ensures
            registered(old(self)@, h, t.token, final(self)@),
    {
        let n = self.slots.len();
        let mut i: usize = 0;
        while i < n
            invariant
                n == self.slots@.len(),
                self.slots@ == old(self)@,
                i <= n,
                forall|j: int| 0 <= j < i ==> self.slots@[j] is Some,
            decreases n - i,
        {
            if self.slots[i].is_none() {
                self.slots.set(i, Some(h));
                return FFIRef { token: i as u64 };
            }
            i = i + 1;
        }
        self.slots.push(Some(h));
        FFIRef { token: n as u64 }
    }

    /// Gives up the handler named by `token`, leaving its slot free. Only to
    /// be called once the backend registration carrying the token is gone.
    pub fn release(&mut self, token: u64) -> (r: Option<H>)
        ensures
            is_live_in(old(self)@, token) ==> {
                &&& r == old(self)@[token as int]
                &&& final(self)@ == old(self)@.update(token as int, None)
            },
            !is_live_in(old(self)@, token) ==> r is None && final(self)@ == old(self)@,
    {
        if token < self.slots.len() as u64 {
            self.slots[token as usize].take()
        } else {
            None
        }
    }
}

impl<H: EventHandler> HandlerRegistry<H> {
    /// Invokes the handler named by `token` once with `event`, in place.
    pub fn dispatch(&mut self, token: u64, event: u32) -> (r: Result<(), StaleToken>)
        ensures
            r is Ok <==> is_live_in(old(self)@, token),
            r matches Err(e) ==> e.token == token,
            dispatched(old(self)@, token, event, final(self)@),
    {
        if token >= self.slots.len() as u64 {
            return Err(StaleToken { token });
        }
        let i = token as usize;
        match self.slots[i].take() {
            Some(mut h) => {
                h.handle_event(event);
                self.slots.set(i, Some(h));
                Ok(())
            },
            None => {
                assert(self.slots@ =~= old(self).slots@);
                Err(StaleToken { token })
            },
        }
    }
}

} // verus!
