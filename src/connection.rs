use vstd::prelude::*;

verus! {

/// The three provider calls that establish a usable connection, in order.
#[derive(Clone, Copy, Debug, PartialEq, Eq, Structural)]
pub enum SetupStage {
    /// Open a connection to the provider.
    Connect,
    /// Enable the CPU, GPU and memory hardware categories on it.
    Configure,
    /// Load the full hardware and sensor set.
    Refresh,
}

/// What an acquisition needs next: it is over, with the connection to use
/// or `None`; or the caller must run a setup stage and report its outcome.
#[derive(Clone, Debug, PartialEq, Eq)]
pub enum AcquireStep<H> {
    Ready(Option<H>),
    Perform(SetupStage),
}

/// Owner of the single cached connection to the telemetry provider.
///
/// An acquisition reuses the cached connection while it is open. Otherwise
/// it drops it and runs the setup stages, stopping at the first failure; only
/// a connection that passed all of them is cached.
pub struct ManagedClient<H> {
    client: Option<H>,
    pending: Option<H>,
    stage: Option<SetupStage>,
}

impl<H: Clone> ManagedClient<H> {
    /// The cached connection.
    pub closed spec fn cached(&self) -> Option<H> {
        self.client
    }

    /// The connection being set up.
    pub closed spec fn pending_spec(&self) -> Option<H> {
        self.pending
    }

    /// The setup stage whose outcome is awaited, if an acquisition runs.
    pub closed spec fn stage_spec(&self) -> Option<SetupStage> {
        self.stage
    }

    /// While an acquisition runs nothing is cached; a connection is pending
    /// exactly while configuration or refresh is awaited.
    pub open spec fn wf(&self) -> bool {
        match self.stage_spec() {
            None => self.pending_spec() is None,
            Some(SetupStage::Connect) => self.pending_spec() is None && self.cached() is None,
            Some(_) => self.pending_spec() is Some && self.cached() is None,
        }
    }

    /// Nothing cached, no acquisition running.
    pub fn new() -> (r: ManagedClient<H>)
        ensures
            r.wf(),
            r.cached() is None,
            r.stage_spec() is None,
    {
        ManagedClient { client: None, pending: None, stage: None }
    }

    /// The cached connection, for the caller to test whether it has closed.
    pub fn cached_handle(&self) -> (r: Option<&H>)
        ensures
            r == match self.cached() {
                Some(h) => Some(&h),
                None => None::<&H>,
            },
    {
        self.client.as_ref()
    }

    /// The setup stage whose outcome is awaited, if an acquisition runs.
    pub fn stage(&self) -> (r: Option<SetupStage>)
        ensures
            r == self.stage_spec(),
    {
        self.stage
    }

    /// Starts an acquisition; `closed` tells whether the cached connection,
    /// if any, has closed. An open cached connection is handed out (a clone
    /// of it) and kept; a closed one is dropped and a new one set up. An
    /// earlier acquisition that was abandoned part way is discarded.
    pub fn acquire(&mut self, closed: bool) -> (r: AcquireStep<H>)
        requires
            old(self).wf(),
        ensures
            final(self).wf(),
            old(self).cached() is Some && !closed ==> {
                &&& r is Ready
                &&& r->Ready_0 is Some
                &&& cloned(old(self).cached()->Some_0, r->Ready_0->Some_0)
                &&& final(self).cached() == old(self).cached()
                &&& final(self).stage_spec() is None
            },
            old(self).cached() is None || closed ==> {
                &&& r == AcquireStep::<H>::Perform(SetupStage::Connect)
                &&& final(self).cached() is None
                &&& final(self).pending_spec() is None
                &&& final(self).stage_spec() == Some(SetupStage::Connect)
            },
    {
        match &self.client {
            Some(h) => {
                if !closed {
                    return AcquireStep::Ready(Some(h.clone()));
                }
            },
            None => {},
        }
        self.client = None;
        self.pending = None;
        self.stage = Some(SetupStage::Connect);
        AcquireStep::Perform(SetupStage::Connect)
    }

    /// Takes the outcome of the connect stage: the new connection, or `None`
    /// if connecting failed, which ends the acquisition with nothing cached.
    pub fn connected(&mut self, handle: Option<H>) -> (r: AcquireStep<H>)
        requires
            old(self).wf(),
            old(self).stage_spec() == Some(SetupStage::Connect),
        ensures
            final(self).wf(),
            final(self).cached() is None,
            handle is None ==> r == AcquireStep::<H>::Ready(None) && final(self).stage_spec() is None,
            handle is Some ==> {
                &&& r == AcquireStep::<H>::Perform(SetupStage::Configure)
                &&& final(self).stage_spec() == Some(SetupStage::Configure)
                &&& final(self).pending_spec() == handle
            },
    {
        match handle {
            None => {
                self.stage = None;
                AcquireStep::Ready(None)
            },
            Some(h) => {
                self.pending = Some(h);
                self.stage = Some(SetupStage::Configure);
                AcquireStep::Perform(SetupStage::Configure)
            },
        }
    }

    /// Takes the outcome of the configure or refresh stage. A failure ends
    /// the acquisition and drops the new connection; after a successful
    /// refresh the connection is cached and handed out (a clone of it).
    pub fn stage_done(&mut self, ok: bool) -> (r: AcquireStep<H>)
        requires
            old(self).wf(),
            old(self).stage_spec() == Some(SetupStage::Configure) || old(self).stage_spec() == Some(
                SetupStage::Refresh,
            ),
        ensures
            final(self).wf(),
            !ok ==> {
                &&& r == AcquireStep::<H>::Ready(None)
                &&& final(self).cached() is None
                &&& final(self).pending_spec() is None
                &&& final(self).stage_spec() is None
            },
            ok && old(self).stage_spec() == Some(SetupStage::Configure) ==> {
                &&& r == AcquireStep::<H>::Perform(SetupStage::Refresh)
                &&& final(self).cached() is None
                &&& final(self).pending_spec() == old(self).pending_spec()
                &&& final(self).stage_spec() == Some(SetupStage::Refresh)
            },
            ok && old(self).stage_spec() == Some(SetupStage::Refresh) ==> {
                &&& r is Ready
                &&& r->Ready_0 is Some
                &&& final(self).cached() == old(self).pending_spec()
                &&& cloned(old(self).pending_spec()->Some_0, r->Ready_0->Some_0)
                &&& final(self).pending_spec() is None
                &&& final(self).stage_spec() is None
            },
    {
        if !ok {
            self.pending = None;
            self.stage = None;
            return AcquireStep::Ready(None);
        }
        match self.stage {
            Some(SetupStage::Configure) => {
                self.stage = Some(SetupStage::Refresh);
                AcquireStep::Perform(SetupStage::Refresh)
            },
            _ => {
                let h = self.pending.take();
                self.stage = None;
                match h {
                    Some(h) => {
                        let out = h.clone();
                        self.client = Some(h);
                        AcquireStep::Ready(Some(out))
                    },
                    None => AcquireStep::Ready(None),
                }
            },
        }
    }
}

} // verus!
