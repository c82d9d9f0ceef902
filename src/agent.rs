//! The node agent: it decodes each datagram, has it relayed to the
//! coordinator, and applies the request to its registry or turns it into
//! signals for every registered process.

use vstd::prelude::*;

use crate::codec::{decode, decoding, DecodeError};
use crate::registry::{after_request, Registry, RegistryError};
use crate::req::{ReqType, Request};

verus! {

/// The agent's configuration.
#[derive(Debug)]
pub struct Args {
    /// Address of the coordinator (an IP address or a host name).
    pub rapictld_addr: String,
    /// Port of the coordinator.
    pub rapictld_port: u16,
    /// Port that the agent binds.
    pub port: u16,
    /// Log level, one of Error, Warn, Info, Debug, Trace, Off.
    pub debug: String,
}

impl Args {
    /// Where the coordinator listens: its address and port.
    pub fn rapictld_socket_addr(&self) -> (r: (&str, u16))
        ensures
            r.0@ == self.rapictld_addr@,
            r.1 == self.rapictld_port,
    {
        (self.rapictld_addr.as_str(), self.rapictld_port)
    }
}

/// The signal that a process receives.
#[derive(Clone, Copy, Debug, PartialEq, Eq, Structural)]
pub enum SignalKind {
    /// Suspend the process.
    Suspend,
    /// Resume the process.
    Resume,
}

/// The signal that a request asks the agent to deliver, if any.
pub open spec fn signal_of(k: ReqType) -> Option<SignalKind> {
    match k {
        ReqType::Stop => Some(SignalKind::Suspend),
        ReqType::Cont => Some(SignalKind::Resume),
        _ => None,
    }
}

/// What the agent does locally for one request.
#[derive(Debug)]
pub enum Effect {
    /// The pid was added, or was there already.
    Registered { pid: i32 },
    /// The pid was taken out.
    Unregistered { pid: i32 },
    /// Deliver `signal` to each of `targets`, each on its own.
    Deliver { signal: SignalKind, targets: Vec<i32> },
    /// Nothing to do here: the request is only relayed.
    Relay,
}

/// What a request does locally, given the registry before it.
pub open spec fn effect_spec(s: Seq<i32>, r: Request, e: Result<Effect, RegistryError>) -> bool {
    match r.req {
        ReqType::Register => e matches Ok(Effect::Registered { pid }) && pid == r.pid,
        ReqType::Unregister => if s.contains(r.pid) {
            e matches Ok(Effect::Unregistered { pid }) && pid == r.pid
        } else {
            e == Err::<Effect, RegistryError>(RegistryError::UnknownPid { pid: r.pid })
        },
        ReqType::Stop | ReqType::Cont => e matches Ok(Effect::Deliver { signal, targets }) && Some(
            signal,
        ) == signal_of(r.req) && targets@ == s,
        ReqType::CommBegin | ReqType::CommEnd => e matches Ok(Effect::Relay),
    }
}

/// The outcome of one datagram that decoded: the request, to be relayed to
/// the coordinator as it came, and its local effect.
#[derive(Debug)]
pub struct Step {
    pub request: Request,
    pub effect: Result<Effect, RegistryError>,
}

/// A node agent and the processes that it knows of.
pub struct Agent {
    pub registry: Registry,
}

impl Agent {
    pub open spec fn wf(&self) -> bool {
        self.registry.wf()
    }

    /// An agent with an empty registry.
    pub fn new() -> (r: Agent)
        ensures
            r.wf(),
            r.registry@ == Seq::<i32>::empty(),
    {
        Agent { registry: Registry::new() }
    }

    /// Applies one request: `Register` and `Unregister` change the registry
    /// (unregistering an unknown pid is an error that changes nothing),
    /// `Stop` and `Cont` name a signal for every registered pid, and the
    /// communication markers have no local effect.
    pub fn apply(&mut self, req: &Request) -> (r: Result<Effect, RegistryError>)
        requires
            old(self).wf(),
        ensures
            final(self).wf(),
            final(self).registry@ == after_request(old(self).registry@, *req),
            effect_spec(old(self).registry@, *req, r),
    {
        match req.req {
            ReqType::Register => {
                self.registry.register(req.pid);
                Ok(Effect::Registered { pid: req.pid })
            },
            ReqType::Unregister => match self.registry.unregister(req.pid) {
                Ok(()) => Ok(Effect::Unregistered { pid: req.pid }),
                Err(e) => Err(e),
            },
            ReqType::Stop => Ok(Effect::Deliver { signal: SignalKind::Suspend, targets: self.registry.pids() }),
            ReqType::Cont => Ok(Effect::Deliver { signal: SignalKind::Resume, targets: self.registry.pids() }),
            ReqType::CommBegin | ReqType::CommEnd => Ok(Effect::Relay),
        }
    }

    /// Handles one datagram. One that does not decode is dropped with the
    /// error and changes nothing; one that does is to be relayed as it came,
    /// and is applied as `apply` says.
    pub fn handle(&mut self, buf: &[u8]) -> (r: Result<Step, DecodeError>)
        requires
            old(self).wf(),
        ensures
            final(self).wf(),
            match decoding(buf@) {
                Err(e) => r == Err::<Step, DecodeError>(e) && final(self).registry@ == old(
                    self,
                ).registry@,
                Ok(req) => r matches Ok(step) && step.request == req && final(self).registry@
                    == after_request(old(self).registry@, req) && effect_spec(
                    old(self).registry@,
                    req,
                    step.effect,
                ),
            },
    {
        match decode(buf) {
            Err(e) => Err(e),
            Ok(request) => {
                let effect = self.apply(&request);
                Ok(Step { request, effect })
            },
        }
    }
}

} // verus!
