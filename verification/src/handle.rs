use vstd::prelude::*;

verus! {

/// The address that stands for "already taken": no coroutine frame lives there.
pub const TAKEN: usize = 0;

/// A call that the bridge owes the foreign runtime for one coroutine frame.
#[derive(Clone, Copy, Debug, PartialEq, Eq, Structural)]
pub enum CoroutineCall {
    /// Continue the suspended coroutine whose frame is at this address.
    Resume(usize),
    /// Free the frame at this address without continuing the coroutine.
    Destroy(usize),
}

/// What can happen to a wake object during one suspension.
#[derive(Clone, Copy, Debug, PartialEq, Eq, Structural)]
pub enum HandleEvent {
    /// Some copy of the wake object was woken.
    Wake,
    /// The last copy of the wake object went away.
    Release,
}

/// The call that taking `address` out on a wake owes: a resume, if a frame
/// was still stored.
pub open spec fn wake_call(address: usize) -> Option<CoroutineCall> {
    if address == TAKEN {
        None
    } else {
        Some(CoroutineCall::Resume(address))
    }
}

/// The call that taking `address` out on abandonment owes: a destroy, if a
/// frame was still stored.
pub open spec fn release_call(address: usize) -> Option<CoroutineCall> {
    if address == TAKEN {
        None
    } else {
        Some(CoroutineCall::Destroy(address))
    }
}

/// One step of a handle that stores `address`: the address stored afterwards
/// and the call owed.
pub open spec fn step(address: usize, event: HandleEvent) -> (usize, Option<CoroutineCall>) {
    match event {
        HandleEvent::Wake => (TAKEN, wake_call(address)),
        HandleEvent::Release => (TAKEN, release_call(address)),
    }
}

/// The calls owed, event by event, by a handle that stores `address` and then
/// sees `events` in order.
pub open spec fn run(address: usize, events: Seq<HandleEvent>) -> Seq<Option<CoroutineCall>>
    decreases events.len(),
{
    if events.len() == 0 {
        Seq::empty()
    } else {
        seq![step(address, events[0]).1] + run(step(address, events[0]).0, events.drop_first())
    }
}

/// How many of `calls` resume the frame at `address`.
pub open spec fn resumes(calls: Seq<Option<CoroutineCall>>, address: usize) -> nat
    decreases calls.len(),
{
    if calls.len() == 0 {
        0
    } else {
        let rest = resumes(calls.drop_first(), address);
        if calls[0] == Some(CoroutineCall::Resume(address)) {
            rest + 1
        } else {
            rest
        }
    }
}

/// How many of `calls` destroy the frame at `address`.
pub open spec fn destroys(calls: Seq<Option<CoroutineCall>>, address: usize) -> nat
    decreases calls.len(),
{
    if calls.len() == 0 {
        0
    } else {
        let rest = destroys(calls.drop_first(), address);
        if calls[0] == Some(CoroutineCall::Destroy(address)) {
            rest + 1
        } else {
            rest
        }
    }
}

/// The resumption handle of one suspended foreign coroutine: the address of
/// its frame until the first wake or release takes it, `TAKEN` from then on.
/// The address is only carried, never looked into.
#[derive(Debug)]
pub struct CxxCoroutineAddress {
    address: usize,
}

impl View for CxxCoroutineAddress {
    type V = usize;

    /// The address stored now.
    closed spec fn view(&self) -> usize {
        self.address
    }
}

impl CxxCoroutineAddress {
    /// A handle that stores `address`.
    pub fn new(address: usize) -> (handle: Self)
        ensures
            handle@ == address,
    {
        CxxCoroutineAddress { address }
    }

    /// Whether the address has been taken out already.
    pub fn is_taken(&self) -> (taken: bool)
        ensures
            taken == (self@ == TAKEN),
    {
        self.address == TAKEN
    }

    /// Takes the stored address out and leaves `TAKEN` behind.
    pub fn take(&mut self) -> (address: usize)
        ensures
            address == old(self)@,
            final(self)@ == TAKEN,
    {
        let address = self.address;
        self.address = TAKEN;
        address
    }

    /// A wake: takes the address and owes a resume of it, unless it was taken
    /// before.
    pub fn wake(&mut self) -> (call: Option<CoroutineCall>)
        ensures
            call == wake_call(old(self)@),
            final(self)@ == TAKEN,
    {
        let address = self.take();
        if address == TAKEN {
            None
        } else {
            Some(CoroutineCall::Resume(address))
        }
    }

    /// The end of the last copy: takes the address and owes a destroy of it,
    /// unless it was taken before.
    pub fn release(&mut self) -> (call: Option<CoroutineCall>)
        ensures
            call == release_call(old(self)@),
            final(self)@ == TAKEN,
    {
        let address = self.take();
        if address == TAKEN {
            None
        } else {
            Some(CoroutineCall::Destroy(address))
        }
    }

    /// Feeds one event to the handle.
    pub fn on_event(&mut self, event: HandleEvent) -> (call: Option<CoroutineCall>)
        ensures
            (final(self)@, call) == step(old(self)@, event),
    {
        match event {
            HandleEvent::Wake => self.wake(),
            HandleEvent::Release => self.release(),
        }
    }
}

/// Once the address is taken, no event owes any call, whatever `frame` the
/// count is made for.
pub proof fn lemma_taken_handle_is_silent(events: Seq<HandleEvent>, frame: usize)
    ensures
        run(TAKEN, events).len() == events.len(),
        forall|i: int| 0 <= i < events.len() ==> run(TAKEN, events)[i] is None,
        resumes(run(TAKEN, events), frame) == 0,
        destroys(run(TAKEN, events), frame) == 0,
    decreases events.len(),
{
    if events.len() > 0 {
        let rest = events.drop_first();
        lemma_taken_handle_is_silent(rest, frame);
        let calls = run(TAKEN, events);
        assert(calls.drop_first() =~= run(TAKEN, rest));
        assert forall|i: int| 0 <= i < events.len() implies calls[i] is None by {
            if i > 0 {
                assert(calls[i] == run(TAKEN, rest)[i - 1]);
            }
        }
    }
}

/// A handle never names a frame other than its own: whatever happens to a
/// handle for `address`, no call resumes or destroys another `frame`.
pub proof fn law_calls_name_own_frame(address: usize, events: Seq<HandleEvent>, frame: usize)
    requires
        frame != address,
    ensures
        resumes(run(address, events), frame) == 0,
        destroys(run(address, events), frame) == 0,
{
    if events.len() > 0 {
        lemma_taken_handle_is_silent(events.drop_first(), frame);
        assert(run(address, events).drop_first() =~= run(TAKEN, events.drop_first()));
    }
}

/// Whatever happens to a handle, and in whatever order, its frame is resumed
/// or destroyed at most once, and never both.
pub proof fn law_at_most_one_call(address: usize, events: Seq<HandleEvent>)
    ensures
        resumes(run(address, events), address) + destroys(run(address, events), address) <= 1,
{
    if events.len() > 0 {
        lemma_taken_handle_is_silent(events.drop_first(), address);
        assert(run(address, events).drop_first() =~= run(TAKEN, events.drop_first()));
    }
}

/// A handle that holds a frame and sees at least one event has its frame
/// resumed or destroyed exactly once: the frame is never leaked.
pub proof fn law_exactly_one_call(address: usize, events: Seq<HandleEvent>)
    requires
        address != TAKEN,
        events.len() > 0,
    ensures
        resumes(run(address, events), address) + destroys(run(address, events), address) == 1,
{
    lemma_taken_handle_is_silent(events.drop_first(), address);
    assert(run(address, events).drop_first() =~= run(TAKEN, events.drop_first()));
}

/// A handle that is woken first has its frame resumed exactly once and never
/// destroyed, whatever wakes follow and when its last copy goes away.
pub proof fn law_wake_resumes_once(address: usize, later: Seq<HandleEvent>)
    requires
        address != TAKEN,
    ensures
        resumes(run(address, seq![HandleEvent::Wake] + later), address) == 1,
        destroys(run(address, seq![HandleEvent::Wake] + later), address) == 0,
        run(address, seq![HandleEvent::Wake] + later)[0] == Some(CoroutineCall::Resume(address)),
{
    let events = seq![HandleEvent::Wake] + later;
    assert(events.drop_first() =~= later);
    lemma_taken_handle_is_silent(later, address);
    assert(run(address, events).drop_first() =~= run(TAKEN, later));
}

/// A handle whose last copy goes away before any wake has its frame destroyed
/// exactly once and never resumed, whatever comes after.
pub proof fn law_abandonment_destroys_once(address: usize, later: Seq<HandleEvent>)
    requires
        address != TAKEN,
    ensures
        destroys(run(address, seq![HandleEvent::Release] + later), address) == 1,
        resumes(run(address, seq![HandleEvent::Release] + later), address) == 0,
        run(address, seq![HandleEvent::Release] + later)[0] == Some(CoroutineCall::Destroy(address)),
{
    let events = seq![HandleEvent::Release] + later;
    assert(events.drop_first() =~= later);
    lemma_taken_handle_is_silent(later, address);
    assert(run(address, events).drop_first() =~= run(TAKEN, later));
}

} // verus!
