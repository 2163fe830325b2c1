//! The model instance manager: lazily holds exactly one loaded model, and
//! guarantees that the load side effect happens at most once.  The manager
//! is an explicitly owned service object; the application shell guards one
//! manager with a process-wide lock and performs the backend load itself,
//! installing the outcome here.  A failed attempt installs nothing, so a
//! later call may retry: failure never poisons the cache.

use vstd::prelude::*;

verus! {

/// One loaded model: the backend handle and the human-readable display
/// name derived from the artifact's base name.  Immutable after load.
pub struct LlmInstance<M> {
    pub handle: M,
    pub model_name: String,
}

/// Lazily constructs and caches exactly one loaded instance.
pub struct InstanceManager<M> {
    /// The cached instance, present after the one successful load.
    pub instance: Option<LlmInstance<M>>,
    /// How many loads were performed; the invariant keeps it at most one.
    pub loads: u64,
}

impl<M> InstanceManager<M> {
    /// The manager's invariant: the load counter counts exactly the one
    /// load that produced the cached instance, so it never exceeds one.
    pub open spec fn wf(self) -> bool {
        self.loads == (if self.instance is Some {
            1int
        } else {
            0int
        })
    }

    /// A manager that has loaded nothing.
    pub fn new() -> (m: InstanceManager<M>)
        ensures
            m.wf(),
            m.instance is None,
            m.loads == 0,
    {
        InstanceManager { instance: None, loads: 0 }
    }

    /// Whether a caller must perform the backend load before the manager
    /// can serve an instance.
    pub fn needs_load(&self) -> (b: bool)
        ensures
            b == (self.instance is None),
    {
        self.instance.is_none()
    }

    /// Installs the outcome of the one successful backend load.  Only a
    /// manager that holds nothing accepts an instance, so the load side
    /// effect is counted exactly once.
    pub fn install(&mut self, handle: M, model_name: String)
        requires
            old(self).wf(),
            old(self).instance is None,
        ensures
            final(self).wf(),
            final(self).instance is Some,
            final(self).instance->0.model_name == model_name,
            final(self).loads == old(self).loads + 1,
    {
        self.instance = Some(LlmInstance { handle, model_name });
        self.loads = self.loads + 1;
    }

    /// The cached instance, if the one load has happened.
    pub fn get(&self) -> (r: Option<&LlmInstance<M>>)
        ensures
            match r {
                Some(inst) => self.instance == Some(*inst),
                None => self.instance is None,
            },
    {
        match &self.instance {
            Some(inst) => Some(inst),
            None => None,
        }
    }

    /// The cached instance's display name, if the one load has happened.
    pub fn cached_model_name(&self) -> (r: Option<&String>)
        ensures
            match r {
                Some(name) => self.instance is Some && self.instance->0.model_name == *name,
                None => self.instance is None,
            },
    {
        match &self.instance {
            Some(inst) => Some(&inst.model_name),
            None => None,
        }
    }
}

/// The model is loaded at most once: in every reachable manager state the
/// load counter is at most one, and once an instance is cached no further
/// `install` is accepted.
pub proof fn lemma_load_at_most_once<M>(m: InstanceManager<M>)
    requires
        m.wf(),
    ensures
        m.loads <= 1,
        m.instance is Some ==> m.loads == 1,
{
}

/// A failed load attempt leaves the manager empty rather than poisoned: a
/// manager that still holds nothing accepts a later `install`, whose
/// precondition is exactly that state.
pub proof fn lemma_failure_does_not_poison<M>(m: InstanceManager<M>)
    requires
        m.wf(),
        m.instance is None,
    ensures
        m.loads == 0,
{
}

} // verus!
