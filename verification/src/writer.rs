//! The writer: the owner of an output pin and a transmit channel, and the
//! rules by which it drives the transmit engine.
//!
//! The writer does not touch the hardware. Each operation returns the call
//! that the engine is to perform; the caller performs it and hands the
//! engine's reply to [`Writer::on_reply`], which says what comes next.

use vstd::prelude::*;
use vstd::slice::slice_to_vec;
use crate::chip::HwChannel;
use crate::config::WriterConfig;
use crate::engine::{Completion, EngineCall, EngineReply, STATUS_OK};
use crate::error::RmtError;
use crate::gpio::OutputPin;
use crate::item::Item;
use crate::signal::Signal;
use crate::units::Hertz;

verus! {

/// Where a writer stands in its life.
#[derive(Clone, Copy, Debug, PartialEq, Eq, Structural)]
pub enum Lifecycle {
    /// The channel is being programmed.
    Setup,
    /// The engine refused to program the channel; the writer is of no use.
    Failed,
    /// The channel is programmed and sends nothing.
    Configured,
    /// The engine sends the records that the writer holds.
    Transmitting,
    /// The channel is torn down; pin and channel can be taken back.
    Released,
}

/// The call whose reply a writer waits for.
#[derive(Clone, Copy, Debug, PartialEq, Eq, Structural)]
pub enum Pending {
    /// No call is under way.
    Nothing,
    /// Programming the channel.
    Program,
    /// Installing the driver.
    Install,
    /// Handing records to the engine.
    Write { blocking: bool },
    /// Asking for the tick frequency.
    Query,
    /// Stopping the transmission.
    Stop,
    /// Stopping the transmission, to tear the channel down after it.
    Release,
    /// Removing the driver.
    Uninstall,
}

/// What follows the engine's reply.
#[derive(Clone, Copy, Debug, PartialEq, Eq, Structural)]
pub enum Progress {
    /// The operation goes on with this call.
    Call(EngineCall),
    /// The operation is done.
    Done(Completion),
    /// The operation failed.
    Failed(RmtError),
}

/// The state of a writer.
#[verifier::ext_equal]
pub struct WriterView {
    /// The number of the channel that the writer owns.
    pub channel: u32,
    pub lifecycle: Lifecycle,
    pub pending: Pending,
    /// The records that the writer holds for the engine.
    pub buffer: Seq<Item>,
}

impl WriterView {
    /// What holds of every state that a writer reaches: the two calls of the
    /// setup are under way during the setup only, a writer that failed or
    /// is released waits for nothing, records are handed over from the
    /// configured state only, and the writer holds records only while they
    /// are handed over or sent.
    pub open spec fn consistent(self) -> bool {
        &&& self.lifecycle is Setup <==> self.pending is Program || self.pending is Install
        &&& self.lifecycle is Failed || self.lifecycle is Released ==> self.pending is Nothing
        &&& self.pending is Write ==> self.lifecycle is Configured
        &&& self.buffer.len() > 0 ==> self.lifecycle is Transmitting || self.pending is Write
    }

    /// Whether the writer takes a new operation: the channel is programmed
    /// and no call is under way.
    pub open spec fn ready(self) -> bool {
        self.pending is Nothing && (self.lifecycle is Configured || self.lifecycle is Transmitting)
    }

    /// The state of a new writer for `channel`: it waits for the reply to
    /// the call that programs the channel.
    pub open spec fn initial(channel: u32) -> WriterView {
        WriterView {
            channel,
            lifecycle: Lifecycle::Setup,
            pending: Pending::Program,
            buffer: Seq::empty(),
        }
    }

    /// Starts a transmission of `items`. The writer must be configured, with
    /// nothing sent and no call under way.
    pub open spec fn start(self, items: Seq<Item>, blocking: bool) -> (WriterView, Result<
        EngineCall,
        RmtError,
    >) {
        if self.pending is Nothing && self.lifecycle is Configured {
            (
                WriterView { pending: Pending::Write { blocking }, buffer: items, ..self },
                Ok(EngineCall::WriteItems { channel: self.channel, blocking }),
            )
        } else {
            (self, Err(RmtError::PreconditionViolation))
        }
    }

    /// Asks the engine to stop. The writer must be ready.
    pub open spec fn stop(self) -> (WriterView, Result<EngineCall, RmtError>) {
        if self.ready() {
            (
                WriterView { pending: Pending::Stop, ..self },
                Ok(EngineCall::Stop { channel: self.channel }),
            )
        } else {
            (self, Err(RmtError::PreconditionViolation))
        }
    }

    /// Asks the engine for the tick frequency. The writer must be ready.
    pub open spec fn counter_clock(self) -> (WriterView, Result<EngineCall, RmtError>) {
        if self.ready() {
            (
                WriterView { pending: Pending::Query, ..self },
                Ok(EngineCall::QueryTickFrequency { channel: self.channel }),
            )
        } else {
            (self, Err(RmtError::PreconditionViolation))
        }
    }

    /// Starts tearing the channel down, by asking the engine to stop. The
    /// writer must be ready.
    pub open spec fn release(self) -> (WriterView, Result<EngineCall, RmtError>) {
        if self.ready() {
            (
                WriterView { pending: Pending::Release, ..self },
                Ok(EngineCall::Stop { channel: self.channel }),
            )
        } else {
            (self, Err(RmtError::PreconditionViolation))
        }
    }

    /// Takes note that the engine has sent the last record. The writer must
    /// be transmitting, with no call under way.
    pub open spec fn confirm_done(self) -> (WriterView, Result<(), RmtError>) {
        if self.pending is Nothing && self.lifecycle is Transmitting {
            (
                WriterView { lifecycle: Lifecycle::Configured, buffer: Seq::empty(), ..self },
                Ok(()),
            )
        } else {
            (self, Err(RmtError::PreconditionViolation))
        }
    }

    /// The state in which no call is under way.
    pub open spec fn settled(self, lifecycle: Lifecycle, buffer: Seq<Item>) -> WriterView {
        WriterView { lifecycle, pending: Pending::Nothing, buffer, ..self }
    }

    /// Takes the engine's reply to the call that is under way.
    ///
    /// A reply that answers no call, or is of the wrong kind for the call,
    /// changes nothing and fails with `PreconditionViolation`. A status other
    /// than [`STATUS_OK`] ends the operation with `EngineRejected`: the setup
    /// has then failed; any other operation leaves the writer as it was
    /// before, but that the records of a refused transmission are let go, and
    /// that a channel whose driver could not be removed is stopped.
    pub open spec fn on_reply(self, reply: EngineReply) -> (WriterView, Progress) {
        let status = reply.spec_status();
        let rejected = Progress::Failed(RmtError::EngineRejected(status));
        let none = Seq::<Item>::empty();
        if self.pending is Nothing || (self.pending is Query) != (reply is TickFrequency) {
            (self, Progress::Failed(RmtError::PreconditionViolation))
        } else if status != STATUS_OK {
            match self.pending {
                Pending::Program | Pending::Install => (
                    self.settled(Lifecycle::Failed, self.buffer),
                    rejected,
                ),
                Pending::Write { .. } | Pending::Uninstall => (
                    self.settled(Lifecycle::Configured, none),
                    rejected,
                ),
                _ => (self.settled(self.lifecycle, self.buffer), rejected),
            }
        } else {
            match self.pending {
                Pending::Program => (
                    WriterView { pending: Pending::Install, ..self },
                    Progress::Call(EngineCall::InstallDriver { channel: self.channel }),
                ),
                Pending::Install => (
                    self.settled(Lifecycle::Configured, self.buffer),
                    Progress::Done(Completion::Ready),
                ),
                Pending::Write { blocking } => if blocking {
                    (self.settled(Lifecycle::Configured, none), Progress::Done(Completion::Sent))
                } else {
                    (
                        self.settled(Lifecycle::Transmitting, self.buffer),
                        Progress::Done(Completion::Started),
                    )
                },
                Pending::Query => (
                    self.settled(self.lifecycle, self.buffer),
                    Progress::Done(
                        Completion::TickFrequency(Hertz(reply->TickFrequency_ticks_hz)),
                    ),
                ),
                Pending::Stop => (
                    self.settled(Lifecycle::Configured, none),
                    Progress::Done(Completion::Stopped),
                ),
                Pending::Release => (
                    WriterView {
                        lifecycle: Lifecycle::Configured,
                        pending: Pending::Uninstall,
                        buffer: none,
                        ..self
                    },
                    Progress::Call(EngineCall::Uninstall { channel: self.channel }),
                ),
                Pending::Uninstall => (
                    self.settled(Lifecycle::Released, none),
                    Progress::Done(Completion::Released),
                ),
                Pending::Nothing => (self, Progress::Failed(RmtError::PreconditionViolation)),
            }
        }
    }
}

/// A new writer is in a consistent state, and every operation and every
/// reply leaves a consistent state consistent.
pub proof fn lemma_consistency_is_kept(
    state: WriterView,
    items: Seq<Item>,
    blocking: bool,
    reply: EngineReply,
)
    requires
        state.consistent(),
    ensures
        WriterView::initial(state.channel).consistent(),
        state.start(items, blocking).0.consistent(),
        state.stop().0.consistent(),
        state.counter_clock().0.consistent(),
        state.release().0.consistent(),
        state.confirm_done().0.consistent(),
        state.on_reply(reply).0.consistent(),
{
}

/// The channel is programmed once: no operation and no reply makes a writer
/// ask for it again.
pub proof fn lemma_channel_is_programmed_once(
    state: WriterView,
    items: Seq<Item>,
    blocking: bool,
    reply: EngineReply,
)
    ensures
        !(state.on_reply(reply).1 matches Progress::Call(EngineCall::Program(_))),
        !(state.start(items, blocking).1 matches Ok(EngineCall::Program(_))),
        !(state.stop().1 matches Ok(EngineCall::Program(_))),
        !(state.counter_clock().1 matches Ok(EngineCall::Program(_))),
        !(state.release().1 matches Ok(EngineCall::Program(_))),
{
}

/// At most one transmission is under way: while records are handed over or
/// sent, a writer takes no others and keeps those it holds.
pub proof fn lemma_one_transmission_at_a_time(state: WriterView, items: Seq<Item>, blocking: bool)
    requires
        state.lifecycle is Transmitting || state.pending is Write,
    ensures
        state.start(items, blocking) == (
            state,
            Err::<EngineCall, RmtError>(RmtError::PreconditionViolation),
        ),
{
}

/// Stopping a writer that sends nothing changes nothing, however often it is
/// done: where the engine accepts the call, the writer is in the state it
/// was in before.
pub proof fn lemma_stop_is_idempotent(state: WriterView)
    requires
        state.consistent(),
        state.lifecycle is Configured,
        state.pending is Nothing,
    ensures
        state.stop().1 == Ok::<EngineCall, RmtError>(EngineCall::Stop { channel: state.channel }),
        state.stop().0.on_reply(EngineReply::Status(STATUS_OK)) == (
            state,
            Progress::Done(Completion::Stopped),
        ),
        state.stop().0.on_reply(EngineReply::Status(STATUS_OK)).0.stop().0.on_reply(
            EngineReply::Status(STATUS_OK),
        ) == (state, Progress::Done(Completion::Stopped)),
{
    let after = state.stop().0.on_reply(EngineReply::Status(STATUS_OK)).0;
    assert(after.buffer =~= state.buffer);
    assert(after == state);
}

/// Where the engine accepts both calls of the setup, the writer is
/// configured after them and holds no records.
pub proof fn lemma_setup_completes(channel: u32)
    ensures
        ({
            let programmed = WriterView::initial(channel).on_reply(EngineReply::Status(STATUS_OK));
            let installed = programmed.0.on_reply(EngineReply::Status(STATUS_OK));
            &&& programmed.1 == Progress::Call(EngineCall::InstallDriver { channel })
            &&& installed.1 == Progress::Done(Completion::Ready)
            &&& installed.0 == WriterView {
                channel,
                lifecycle: Lifecycle::Configured,
                pending: Pending::Nothing,
                buffer: Seq::<Item>::empty(),
            }
        }),
{
}

/// Where the engine accepts both calls of the release, a ready writer is
/// released after them and holds no records, whether or not it was sending.
pub proof fn lemma_release_completes(state: WriterView)
    requires
        state.ready(),
    ensures
        ({
            let stopped = state.release().0.on_reply(EngineReply::Status(STATUS_OK));
            let removed = stopped.0.on_reply(EngineReply::Status(STATUS_OK));
            &&& state.release().1 == Ok::<EngineCall, RmtError>(
                EngineCall::Stop { channel: state.channel },
            )
            &&& stopped.1 == Progress::Call(EngineCall::Uninstall { channel: state.channel })
            &&& removed.1 == Progress::Done(Completion::Released)
            &&& removed.0 == WriterView {
                channel: state.channel,
                lifecycle: Lifecycle::Released,
                pending: Pending::Nothing,
                buffer: Seq::<Item>::empty(),
            }
        }),
{
}

/// A blocking transmission that the engine accepts leaves a configured
/// writer as it was, with no records held: the signal is free at once.
pub proof fn lemma_blocking_start_returns_to_configured(state: WriterView, items: Seq<Item>)
    requires
        state.consistent(),
        state.lifecycle is Configured,
        state.pending is Nothing,
    ensures
        state.start(items, true).1 == Ok::<EngineCall, RmtError>(
            EngineCall::WriteItems { channel: state.channel, blocking: true },
        ),
        state.start(items, true).0.buffer == items,
        !state.start(items, true).0.ready(),
        state.start(items, true).0.on_reply(EngineReply::Status(STATUS_OK)) == (
            state,
            Progress::Done(Completion::Sent),
        ),
{
    let after = state.start(items, true).0.on_reply(EngineReply::Status(STATUS_OK)).0;
    assert(after.buffer =~= state.buffer);
    assert(after == state);
}

/// The owner of an output pin and a transmit channel.
pub struct Writer<P: OutputPin, C: HwChannel> {
    pin: P,
    channel: C,
    // Where the writer stands, and the call it waits for: the two change
    // together.
    stage: (Lifecycle, Pending),
    buffer: Vec<Item>,
}

impl<P: OutputPin, C: HwChannel> View for Writer<P, C> {
    type V = WriterView;

    closed spec fn view(&self) -> WriterView {
        WriterView {
            channel: C::spec_channel(),
            lifecycle: self.stage.0,
            pending: self.stage.1,
            buffer: self.buffer@,
        }
    }
}

impl<P: OutputPin, C: HwChannel> Writer<P, C> {
    /// Every writer is in a consistent state.
    #[verifier::type_invariant]
    pub open spec fn well_formed(self) -> bool {
        self@.consistent()
    }

    /// The pin that the writer owns.
    pub closed spec fn spec_pin(&self) -> P {
        self.pin
    }

    /// The channel that the writer owns.
    pub closed spec fn spec_channel(&self) -> C {
        self.channel
    }

    /// A writer that owns `pin` and `channel`, and the call that programs
    /// the channel with `config`. The writer is configured once the engine
    /// has accepted that call and the one that follows it.
    pub fn new(pin: P, channel: C, config: &WriterConfig) -> (r: (Self, EngineCall))
        ensures
            r.0@ == WriterView::initial(C::spec_channel()),
            r.0.spec_pin() == pin,
            r.0.spec_channel() == channel,
            r.1 == EngineCall::Program(config.spec_record(C::spec_channel(), pin.spec_pin())),
    {
        let record = config.record(C::channel(), pin.pin());
        let writer = Writer {
            pin,
            channel,
            stage: (Lifecycle::Setup, Pending::Program),
            buffer: Vec::new(),
        };
        (writer, EngineCall::Program(record))
    }

    /// Where the writer stands in its life.
    pub fn lifecycle(&self) -> (lifecycle: Lifecycle)
        ensures
            lifecycle == self@.lifecycle,
            self@.consistent(),
    {
        proof {
            use_type_invariant(self);
        }
        self.stage.0
    }

    /// The call whose reply the writer waits for.
    pub fn pending(&self) -> (pending: Pending)
        ensures
            pending == self@.pending,
            self@.consistent(),
    {
        proof {
            use_type_invariant(self);
        }
        self.stage.1
    }

    /// The records that the writer holds for the engine. They stay as they
    /// are, and where they are, until the transmission is over.
    pub fn buffer(&self) -> (items: &[Item])
        ensures
            items@ == self@.buffer,
            self@.consistent(),
    {
        proof {
            use_type_invariant(self);
        }
        self.buffer.as_slice()
    }

    /// Whether the writer takes a new operation.
    pub fn is_ready(&self) -> (ready: bool)
        ensures
            ready == self@.ready(),
            self@.consistent(),
    {
        proof {
            use_type_invariant(self);
        }
        match self.stage {
            (Lifecycle::Configured, Pending::Nothing) => true,
            (Lifecycle::Transmitting, Pending::Nothing) => true,
            _ => false,
        }
    }

    /// Starts sending `signal` in the background. The writer keeps the
    /// records of the signal until the transmission is stopped or confirmed
    /// done.
    pub fn start<S: Signal>(&mut self, signal: S) -> (r: Result<EngineCall, RmtError>)
        ensures
            final(self)@ == old(self)@.start(signal.items(), false).0,
            r == old(self)@.start(signal.items(), false).1,
            final(self).spec_pin() == old(self).spec_pin(),
            final(self).spec_channel() == old(self).spec_channel(),
    {
        self.write_items(&signal, false)
    }

    /// Starts sending `signal`; the engine replies when it has sent the
    /// last record, and `signal` is free again after that.
    pub fn start_blocking<S: Signal>(&mut self, signal: &S) -> (r: Result<EngineCall, RmtError>)
        ensures
            final(self)@ == old(self)@.start(signal.items(), true).0,
            r == old(self)@.start(signal.items(), true).1,
            final(self).spec_pin() == old(self).spec_pin(),
            final(self).spec_channel() == old(self).spec_channel(),
    {
        self.write_items(signal, true)
    }

    fn write_items<S: Signal>(&mut self, signal: &S, blocking: bool) -> (r: Result<
        EngineCall,
        RmtError,
    >)
        ensures
            final(self)@ == old(self)@.start(signal.items(), blocking).0,
            r == old(self)@.start(signal.items(), blocking).1,
            final(self).spec_pin() == old(self).spec_pin(),
            final(self).spec_channel() == old(self).spec_channel(),
    {
        match self.stage {
            (Lifecycle::Configured, Pending::Nothing) => {
                self.stage = (Lifecycle::Configured, Pending::Write { blocking });
                self.buffer = slice_to_vec(signal.as_slice());
                Ok(EngineCall::WriteItems { channel: C::channel(), blocking })
            },
            _ => Err(RmtError::PreconditionViolation),
        }
    }

    /// Asks the engine to stop the transmission, if there is one.
    pub fn stop(&mut self) -> (r: Result<EngineCall, RmtError>)
        ensures
            final(self)@ == old(self)@.stop().0,
            r == old(self)@.stop().1,
            final(self).spec_pin() == old(self).spec_pin(),
            final(self).spec_channel() == old(self).spec_channel(),
    {
        if self.is_ready() {
            self.stage = (self.stage.0, Pending::Stop);
            Ok(EngineCall::Stop { channel: C::channel() })
        } else {
            Err(RmtError::PreconditionViolation)
        }
    }

    /// Asks the engine for the frequency at which the channel counts ticks.
    pub fn counter_clock(&mut self) -> (r: Result<EngineCall, RmtError>)
        ensures
            final(self)@ == old(self)@.counter_clock().0,
            r == old(self)@.counter_clock().1,
            final(self).spec_pin() == old(self).spec_pin(),
            final(self).spec_channel() == old(self).spec_channel(),
    {
        if self.is_ready() {
            self.stage = (self.stage.0, Pending::Query);
            Ok(EngineCall::QueryTickFrequency { channel: C::channel() })
        } else {
            Err(RmtError::PreconditionViolation)
        }
    }

    /// Starts tearing the channel down: the transmission is stopped, then
    /// the driver removed. Once that is done, [`Writer::into_parts`] gives
    /// pin and channel back.
    pub fn release(&mut self) -> (r: Result<EngineCall, RmtError>)
        ensures
            final(self)@ == old(self)@.release().0,
            r == old(self)@.release().1,
            final(self).spec_pin() == old(self).spec_pin(),
            final(self).spec_channel() == old(self).spec_channel(),
    {
        if self.is_ready() {
            self.stage = (self.stage.0, Pending::Release);
            Ok(EngineCall::Stop { channel: C::channel() })
        } else {
            Err(RmtError::PreconditionViolation)
        }
    }

    /// Takes note that the engine has sent the last record of a
    /// transmission in the background, and lets the records go.
    pub fn confirm_done(&mut self) -> (r: Result<(), RmtError>)
        ensures
            final(self)@ == old(self)@.confirm_done().0,
            r == old(self)@.confirm_done().1,
            final(self).spec_pin() == old(self).spec_pin(),
            final(self).spec_channel() == old(self).spec_channel(),
    {
        match self.stage {
            (Lifecycle::Transmitting, Pending::Nothing) => {
                self.buffer = Vec::new();
                self.stage = (Lifecycle::Configured, Pending::Nothing);
                Ok(())
            },
            _ => Err(RmtError::PreconditionViolation),
        }
    }

    /// Takes the engine's reply to the call that is under way, and says
    /// what follows.
    pub fn on_reply(&mut self, reply: EngineReply) -> (progress: Progress)
        ensures
            final(self)@ == old(self)@.on_reply(reply).0,
            progress == old(self)@.on_reply(reply).1,
            final(self).spec_pin() == old(self).spec_pin(),
            final(self).spec_channel() == old(self).spec_channel(),
    {
        proof {
            use_type_invariant(&*self);
        }
        let (lifecycle, pending) = self.stage;
        let ticks_hz = match (pending, reply) {
            (Pending::Nothing, _) => {
                return Progress::Failed(RmtError::PreconditionViolation);
            },
            (Pending::Query, EngineReply::TickFrequency { ticks_hz, .. }) => ticks_hz,
            (Pending::Query, EngineReply::Status(_)) => {
                return Progress::Failed(RmtError::PreconditionViolation);
            },
            (_, EngineReply::TickFrequency { .. }) => {
                return Progress::Failed(RmtError::PreconditionViolation);
            },
            (_, EngineReply::Status(_)) => 0,
        };
        let status = reply.status();
        let channel = C::channel();
        // What the reply makes of the writer: where it stands then, what it
        // waits for, and whether it keeps its records.
        let (stage, keeps_records, progress) = if status != STATUS_OK {
            let rejected = Progress::Failed(RmtError::EngineRejected(status));
            match pending {
                Pending::Program | Pending::Install => (
                    (Lifecycle::Failed, Pending::Nothing),
                    true,
                    rejected,
                ),
                Pending::Write { .. } | Pending::Uninstall => (
                    (Lifecycle::Configured, Pending::Nothing),
                    false,
                    rejected,
                ),
                _ => ((lifecycle, Pending::Nothing), true, rejected),
            }
        } else {
            match pending {
                Pending::Program => (
                    (lifecycle, Pending::Install),
                    true,
                    Progress::Call(EngineCall::InstallDriver { channel }),
                ),
                Pending::Install => (
                    (Lifecycle::Configured, Pending::Nothing),
                    true,
                    Progress::Done(Completion::Ready),
                ),
                Pending::Write { blocking: true } => (
                    (Lifecycle::Configured, Pending::Nothing),
                    false,
                    Progress::Done(Completion::Sent),
                ),
                Pending::Write { blocking: false } => (
                    (Lifecycle::Transmitting, Pending::Nothing),
                    true,
                    Progress::Done(Completion::Started),
                ),
                Pending::Query => (
                    (lifecycle, Pending::Nothing),
                    true,
                    Progress::Done(Completion::TickFrequency(Hertz(ticks_hz))),
                ),
                Pending::Stop => (
                    (Lifecycle::Configured, Pending::Nothing),
                    false,
                    Progress::Done(Completion::Stopped),
                ),
                Pending::Release => (
                    (Lifecycle::Configured, Pending::Uninstall),
                    false,
                    Progress::Call(EngineCall::Uninstall { channel }),
                ),
                Pending::Uninstall => (
                    (Lifecycle::Released, Pending::Nothing),
                    false,
                    Progress::Done(Completion::Released),
                ),
                Pending::Nothing => (
                    (lifecycle, pending),
                    true,
                    Progress::Failed(RmtError::PreconditionViolation),
                ),
            }
        };
        if !keeps_records {
            self.buffer = Vec::new();
        }
        self.stage = stage;
        progress
    }

    /// Gives pin and channel back, once the channel is torn down or could
    /// not be programmed; before that, gives the writer back.
    pub fn into_parts(self) -> (r: Result<(P, C), Self>)
        ensures
            self@.lifecycle is Released || self@.lifecycle is Failed ==> r == Ok::<(P, C), Self>(
                (self.spec_pin(), self.spec_channel()),
            ),
            !(self@.lifecycle is Released || self@.lifecycle is Failed) ==> r == Err::<
                (P, C),
                Self,
            >(self),
    {
        match self.stage.0 {
            Lifecycle::Released | Lifecycle::Failed => Ok((self.pin, self.channel)),
            _ => Err(self),
        }
    }
}

} // verus!
