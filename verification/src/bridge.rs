//! Decision rules of the engine bridge.
//!
//! The bridge registers the engine's callbacks and serializes its lifecycle.
//! The engine's entry points themselves are platform plumbing; what is here
//! is everything those callbacks decide: how an engine call's result code is
//! read, what a vsync request is answered with, which component an inbound
//! platform message belongs to, and when callbacks may run at all.

use vstd::prelude::*;

verus! {

use crate::gpu::{device_wait, Gpu, GpuOp};

/// An engine call's result code.  Anything but success means the host and
/// engine disagree about versions or arguments and the process must stop
/// rather than run on inconsistent state.
#[derive(Clone, Copy, PartialEq, Eq, Structural, Debug)]
pub enum EngineResult {
    Success,
    InvalidLibraryVersion,
    InvalidArguments,
    InternalInconsistency,
    UnknownError,
}

pub open spec fn classify_engine_result_spec(code: u32) -> EngineResult {
    if code == 0 {
        EngineResult::Success
    } else if code == 1 {
        EngineResult::InvalidLibraryVersion
    } else if code == 2 {
        EngineResult::InvalidArguments
    } else if code == 3 {
        EngineResult::InternalInconsistency
    } else {
        EngineResult::UnknownError
    }
}

/// Read an engine result code as the engine's ABI defines the four known
/// values; anything else is an unknown error.
pub fn classify_engine_result(code: u32) -> (r: EngineResult)
    ensures
        r == classify_engine_result_spec(code),
{
    if code == 0 {
        EngineResult::Success
    } else if code == 1 {
        EngineResult::InvalidLibraryVersion
    } else if code == 2 {
        EngineResult::InvalidArguments
    } else if code == 3 {
        EngineResult::InternalInconsistency
    } else {
        EngineResult::UnknownError
    }
}

/// Every result but success is fatal to the process.
pub fn engine_result_is_fatal(r: EngineResult) -> (fatal: bool)
    ensures
        fatal == !(r is Success),
{
    match r {
        EngineResult::Success => false,
        _ => true,
    }
}

/// The frame interval reported to the engine: one sixtieth of a second, in
/// nanoseconds.
pub const FRAME_INTERVAL_NS: u64 = 1000000000 / 60;

/// The answer a vsync request gets: its baton echoed with the frame window.
#[derive(Clone, Copy, PartialEq, Eq, Structural, Debug)]
pub struct VsyncReply {
    /// The engine's correlation token, returned unchanged.
    pub baton: i64,
    /// Start of the frame window: now.
    pub frame_start: u64,
    /// End of the frame window: one frame interval later.
    pub frame_end: u64,
}

/// Answer a vsync request: block until the queue's in-flight GPU work has
/// drained — the wait is recorded in the GPU trace, before anything the
/// caller issues next — then report the window from `now` to `now` plus one
/// frame interval, keyed by the baton.
pub fn vsync_reply(gpu: &mut Gpu, baton: i64, now: u64) -> (r: VsyncReply)
    requires
        now + FRAME_INTERVAL_NS <= u64::MAX,
    ensures
        final(gpu).trace@ == old(gpu).trace@.push(GpuOp::WaitIdle),
        final(gpu).device == old(gpu).device,
        final(gpu).queue == old(gpu).queue,
        final(gpu).surface == old(gpu).surface,
        r.baton == baton,
        r.frame_start == now,
        r.frame_end == now + FRAME_INTERVAL_NS,
{
    let _drained = device_wait(gpu);
    VsyncReply { baton, frame_start: now, frame_end: now + FRAME_INTERVAL_NS }
}

/// Where an inbound platform message belongs.
#[derive(Clone, Copy, PartialEq, Eq, Structural, Debug)]
pub enum MessageRoute {
    /// The text-input channel, handled by the keyboard component.
    TextInput,
    /// Any other channel: the message is acknowledged with an empty
    /// response, never silently dropped.
    Unknown,
}

/// Dispatch an inbound message by its channel name.
pub fn route_channel(channel: &String) -> (r: MessageRoute)
    ensures
        r is TextInput <==> channel@ == "flutter/textinput"@,
{
    let target: String = "flutter/textinput".to_owned();
    if *channel == target {
        MessageRoute::TextInput
    } else {
        MessageRoute::Unknown
    }
}

/// Where the bridge stands in its life.
#[derive(Clone, Copy, PartialEq, Eq, Structural, Debug)]
pub enum LifecyclePhase {
    /// Initialized, not yet running.
    Created,
    /// Running: callbacks may be dispatched.
    Running,
    /// Shutdown has begun: no callback may fire any more.
    ShutDown,
}

/// Serializes the bridge's lifecycle: init, run, shutdown, in that order
/// and only once.
pub struct Lifecycle {
    pub phase: LifecyclePhase,
}

impl Lifecycle {
    pub fn new() -> (r: Lifecycle)
        ensures
            r.phase is Created,
    {
        Lifecycle { phase: LifecyclePhase::Created }
    }

    /// Start running the initialized engine.
    pub fn start(&mut self)
        requires
            old(self).phase is Created,
        ensures
            final(self).phase is Running,
    {
        self.phase = LifecyclePhase::Running;
    }

    /// Shutdown begins; from here on no callback may be dispatched.
    pub fn begin_shutdown(&mut self)
        ensures
            final(self).phase is ShutDown,
    {
        self.phase = LifecyclePhase::ShutDown;
    }

    /// Whether a callback arriving now may be dispatched to a component.
    pub fn callbacks_allowed(&self) -> (r: bool)
        ensures
            r == (self.phase is Running),
    {
        match self.phase {
            LifecyclePhase::Running => true,
            _ => false,
        }
    }
}

} // verus!
