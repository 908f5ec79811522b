//! How the core's modules react to lifecycle events and pulses. Each module
//! runs a loop that receives a signal, asks here what to do, and does it.
use vstd::prelude::*;

use crate::enums::system::{CoreEvent, Pulse};

verus! {

/// What a module's event channel yields.
#[derive(Debug, Clone, Copy, PartialEq, Eq, Structural)]
pub enum ModuleSignal {
    Event(CoreEvent),
    /// The channel closed or fell behind.
    Closed,
}

/// What the harvester and the scheduler do on a signal.
#[derive(Debug, Clone, Copy, PartialEq, Eq, Structural)]
pub enum ModuleStep {
    /// Note the event and wait for the next.
    Continue,
    /// Leave the loop.
    Stop,
}

/// The harvester and the scheduler keep running on startup and restart,
/// and stop on shutdown or when their channel closes.
pub fn module_step(sig: ModuleSignal) -> (r: ModuleStep)
    ensures
        r == match sig {
            ModuleSignal::Event(CoreEvent::Startup) | ModuleSignal::Event(CoreEvent::Restart) => ModuleStep::Continue,
            _ => ModuleStep::Stop,
        },
{
    match sig {
        ModuleSignal::Event(CoreEvent::Startup) | ModuleSignal::Event(CoreEvent::Restart) => ModuleStep::Continue,
        _ => ModuleStep::Stop,
    }
}

/// What the dispatcher does on a signal.
#[derive(Debug, Clone, Copy, PartialEq, Eq, Structural)]
pub enum DispatcherStep {
    /// Load the workers, start the heartbeat listener and the sweep.
    Start,
    /// Nothing.
    Ignore,
    /// Leave the loop.
    Stop,
}

/// The dispatcher starts its work on startup, ignores restarts, and stops
/// on shutdown or when its channel closes.
pub fn dispatcher_step(sig: ModuleSignal) -> (r: DispatcherStep)
    ensures
        r == match sig {
            ModuleSignal::Event(CoreEvent::Startup) => DispatcherStep::Start,
            ModuleSignal::Event(CoreEvent::Restart) => DispatcherStep::Ignore,
            _ => DispatcherStep::Stop,
        },
{
    match sig {
        ModuleSignal::Event(CoreEvent::Startup) => DispatcherStep::Start,
        ModuleSignal::Event(CoreEvent::Restart) => DispatcherStep::Ignore,
        _ => DispatcherStep::Stop,
    }
}

/// What the logger receives: a lifecycle event or a pulse.
#[derive(Debug, Clone, Copy, PartialEq, Eq, Structural)]
pub enum LoggerSignal {
    Event(CoreEvent),
    Pulse(Pulse),
}

/// What the logger does: delete expired rows, flush the buffer, stop; in that order.
#[derive(Debug, Clone, Copy, PartialEq, Eq, Structural)]
pub struct LoggerStep {
    pub clean: bool,
    pub flush: bool,
    pub stop: bool,
}

/// The logger flushes on restart, flushes and stops on shutdown, and on a
/// slow pulse cleans out expired rows and flushes.
pub open spec fn logger_reaction(sig: LoggerSignal) -> LoggerStep {
    match sig {
        LoggerSignal::Event(CoreEvent::Startup) => LoggerStep { clean: false, flush: false, stop: false },
        LoggerSignal::Event(CoreEvent::Restart) => LoggerStep { clean: false, flush: true, stop: false },
        LoggerSignal::Event(CoreEvent::Shutdown) => LoggerStep { clean: false, flush: true, stop: true },
        LoggerSignal::Pulse(Pulse::Slow) => LoggerStep { clean: true, flush: true, stop: false },
        LoggerSignal::Pulse(_) => LoggerStep { clean: false, flush: false, stop: false },
    }
}

/// What the logger does on a signal.
pub fn logger_step(sig: LoggerSignal) -> (r: LoggerStep)
    ensures
        r == logger_reaction(sig),
{
    match sig {
        LoggerSignal::Event(CoreEvent::Startup) => LoggerStep { clean: false, flush: false, stop: false },
        LoggerSignal::Event(CoreEvent::Restart) => LoggerStep { clean: false, flush: true, stop: false },
        LoggerSignal::Event(CoreEvent::Shutdown) => LoggerStep { clean: false, flush: true, stop: true },
        LoggerSignal::Pulse(Pulse::Slow) => LoggerStep { clean: true, flush: true, stop: false },
        LoggerSignal::Pulse(_) => LoggerStep { clean: false, flush: false, stop: false },
    }
}

/// The logger never stops without flushing its buffer first.
pub proof fn logger_flushes_before_stopping(sig: LoggerSignal)
    ensures
        logger_reaction(sig).stop ==> logger_reaction(sig).flush,
{
}

} // verus!
