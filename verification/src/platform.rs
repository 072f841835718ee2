//! The process-wide engine handle.
//!
//! The engine is initialised once for the whole process, when the first handle is
//! acquired, and torn down when the last one is released. Acquiring again after that
//! initialises it anew. The layer counts the handles; its host makes the two native
//! calls when it is told to.

use vstd::prelude::*;

verus! {

/// The record of the engine's initialisations as two numbers.
pub struct PlatformState {
    /// How many handles are alive.
    pub handles: nat,
    /// How often the engine has been initialised.
    pub generation: nat,
}

impl PlatformState {
    /// Before the first acquisition.
    pub open spec fn initial() -> PlatformState {
        PlatformState { handles: 0, generation: 0 }
    }

    /// Whether the engine is initialised: at least one handle is alive.
    pub open spec fn initialized(self) -> bool {
        self.handles > 0
    }

    /// The record after one more handle was acquired: a first handle starts a new
    /// generation, any other joins the one that is alive.
    pub open spec fn acquire(self) -> PlatformState {
        if self.initialized() {
            PlatformState { handles: self.handles + 1, generation: self.generation }
        } else {
            PlatformState { handles: 1, generation: self.generation + 1 }
        }
    }

    /// The record after one handle was released.
    pub open spec fn release(self) -> PlatformState {
        PlatformState { handles: (self.handles - 1) as nat, generation: self.generation }
    }
}

/// Of two handles acquired with none released between them, the second belongs to the
/// same initialisation of the engine as the first, and the engine is not initialised for
/// it again.
pub proof fn second_handle_shares_instance(s: PlatformState)
    ensures
        s.acquire().initialized(),
        s.acquire().acquire().generation == s.acquire().generation,
        s.acquire().acquire().handles == s.acquire().handles + 1,
{
}

/// The engine stays initialised until the last handle is released. A handle acquired
/// after that initialises it anew, as the first handle did.
pub proof fn restart_after_teardown(s: PlatformState)
    requires
        s.initialized(),
    ensures
        s.release().initialized() <==> s.handles > 1,
        s.release().generation == s.generation,
        s.handles == 1 ==> s.release().acquire() == (PlatformState {
            handles: 1,
            generation: s.generation + 1,
        }),
        s.acquire().release() == s,
{
}

/// The process-wide record: one per process, shared by every thread under a lock that
/// the host holds for the length of one call.
pub struct PlatformRegistry {
    handles: u64,
    generation: u64,
}

impl View for PlatformRegistry {
    type V = PlatformState;

    closed spec fn view(&self) -> PlatformState {
        PlatformState { handles: self.handles as nat, generation: self.generation as nat }
    }
}

impl PlatformRegistry {
    /// The record of a process that has acquired nothing yet.
    pub fn new() -> (res: PlatformRegistry)
        ensures
            res@ == PlatformState::initial(),
    {
        PlatformRegistry { handles: 0, generation: 0 }
    }

    /// Whether the engine is initialised.
    pub fn is_initialized(&self) -> (res: bool)
        ensures
            res == self@.initialized(),
    {
        self.handles > 0
    }

    /// Whether one more handle can be counted.
    pub fn has_room(&self) -> (res: bool)
        ensures
            res == (self@.handles < u64::MAX && self@.generation < u64::MAX),
    {
        self.handles < u64::MAX && self.generation < u64::MAX
    }

    /// Whether `platform` is a handle of the generation that is alive.
    pub fn holds(&self, platform: &Platform) -> (res: bool)
        ensures
            res == (self@.initialized() && platform@ == self@.generation),
    {
        self.handles > 0 && platform.instance == self.generation
    }
}

/// An initialised instance of the engine. As long as a handle is held, the engine is not
/// torn down.
#[derive(Debug)]
pub struct Platform {
    instance: u64,
}

impl View for Platform {
    type V = nat;

    /// The generation of the engine that the handle keeps alive.
    closed spec fn view(&self) -> nat {
        self.instance as nat
    }
}

impl Platform {
    /// Acquires a handle. The flag says whether the host has to initialise the engine
    /// before anything else is done with it: it is set for the first handle, and for the
    /// first after all were released, and for no other.
    pub fn get(registry: &mut PlatformRegistry) -> (res: (Platform, bool))
        requires
            old(registry)@.handles < u64::MAX,
            old(registry)@.generation < u64::MAX,
        ensures
            final(registry)@ == old(registry)@.acquire(),
            res.0@ == final(registry)@.generation,
            res.1 == !old(registry)@.initialized(),
    {
        if registry.handles > 0 {
            registry.handles = registry.handles + 1;
            (Platform { instance: registry.generation }, false)
        } else {
            registry.generation = registry.generation + 1;
            registry.handles = 1;
            (Platform { instance: registry.generation }, true)
        }
    }

    /// Gives the handle back. The flag says whether it was the last one, so that the
    /// host has to tear the engine down.
    pub fn release(self, registry: &mut PlatformRegistry) -> (teardown: bool)
        requires
            old(registry)@.initialized(),
            self@ == old(registry)@.generation,
        ensures
            final(registry)@ == old(registry)@.release(),
            teardown == !final(registry)@.initialized(),
    {
        registry.handles = registry.handles - 1;
        registry.handles == 0
    }
}

} // verus!
