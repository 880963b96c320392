//! Single-occupant callback slots and the event bus.
use vstd::prelude::*;
use crate::names::NameMap;

verus! {

/// Why a registration was refused: what was handed in cannot be called.
#[derive(Clone, Copy, Debug, PartialEq, Eq, Structural)]
pub enum InvalidHandlerError {
    /// The launch notifier was not callable.
    LauncherCallback,
    /// The pack loader was not callable.
    PackLoader,
    /// An event listener was not callable.
    Listener,
}

impl InvalidHandlerError {
    /// The text reported to the caller of the registration.
    pub fn message(&self) -> (r: String)
        ensures
            r@ == match self {
                InvalidHandlerError::LauncherCallback => "callback must be a function"@,
                InvalidHandlerError::PackLoader => "pack_loader must be a function"@,
                InvalidHandlerError::Listener => "listener must be a function"@,
            },
    {
        match self {
            InvalidHandlerError::LauncherCallback => "callback must be a function".to_owned(),
            InvalidHandlerError::PackLoader => "pack_loader must be a function".to_owned(),
            InvalidHandlerError::Listener => "listener must be a function".to_owned(),
        }
    }
}

/// Holds zero or one callback; a new occupant replaces the old one.
pub struct Slot<C> {
    occupant: Option<C>,
}

impl<C> View for Slot<C> {
    type V = Option<C>;

    closed spec fn view(&self) -> Option<C> {
        self.occupant
    }
}

impl<C> Slot<C> {
    pub fn new() -> (r: Self)
        ensures
            r@ == None::<C>,
    {
        Slot { occupant: None }
    }

    /// Puts `cb` in the slot, discarding any earlier occupant.
    pub fn fill(&mut self, cb: C)
        ensures
            final(self)@ == Some(cb),
    {
        self.occupant = Some(cb);
    }

    pub fn clear(&mut self)
        ensures
            final(self)@ == None::<C>,
    {
        self.occupant = None;
    }

    pub fn get(&self) -> (r: Option<&C>)
        ensures
            match r {
                Some(c) => self@ == Some(*c),
                None => self@ == None::<C>,
            },
    {
        match &self.occupant {
            Some(c) => Some(c),
            None => None,
        }
    }

    pub fn is_set(&self) -> (r: bool)
        ensures
            r == self@ is Some,
    {
        self.occupant.is_some()
    }
}

/// At most one handler per event name.
pub struct EventBus<H> {
    handlers: NameMap<H>,
}

impl<H> View for EventBus<H> {
    type V = Map<Seq<char>, H>;

    closed spec fn view(&self) -> Map<Seq<char>, H> {
        self.handlers@
    }
}

impl<H> EventBus<H> {
    pub closed spec fn wf(&self) -> bool {
        self.handlers.wf()
    }

    pub fn new() -> (r: Self)
        ensures
            r.wf(),
            r@ == Map::<Seq<char>, H>::empty(),
    {
        EventBus { handlers: NameMap::new() }
    }

    /// Registers `handler` for `event`, replacing the one there was.
    pub fn on(&mut self, event: &str, handler: H)
        requires
            old(self).wf(),
        ensures
            final(self).wf(),
            final(self)@ == old(self)@.insert(event@, handler),
    {
        self.handlers.insert(event.to_owned(), handler);
    }

    /// Removes the handler for `event`, if any.
    pub fn off(&mut self, event: &str)
        requires
            old(self).wf(),
        ensures
            final(self).wf(),
            final(self)@ == old(self)@.remove(event@),
    {
        self.handlers.remove(event);
    }

    /// The handler that an emission of `event` goes to.
    pub fn handler(&self, event: &str) -> (r: Option<&H>)
        requires
            self.wf(),
        ensures
            match r {
                Some(h) => self@.contains_key(event@) && *h == self@[event@],
                None => !self@.contains_key(event@),
            },
    {
        self.handlers.get(event)
    }
}

/// Registering a second handler under one name replaces the first: the bus
/// then holds what it would hold had only the second been registered.
pub proof fn lemma_second_handler_replaces<H>(bus: Map<Seq<char>, H>, event: Seq<char>, first: H, second: H)
    ensures
        bus.insert(event, first).insert(event, second) == bus.insert(event, second),
        bus.insert(event, first).insert(event, second)[event] == second,
{
    assert(bus.insert(event, first).insert(event, second) =~= bus.insert(event, second));
}

} // verus!
