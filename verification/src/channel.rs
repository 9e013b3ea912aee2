//! Per-channel lifecycle state machine.
//!
//! A [`Channel`] is the exclusive handle to one hardware channel: its slot in
//! the descriptor table, its slot in the writeback table, and its channel
//! registers (enable bit, priority level, trigger source and action, and the
//! transfer-complete and transfer-error status flags).
//!
//! The lifecycle is `Uninitialized -> Ready -> Busy -> (Ready |
//! Uninitialized)`. Software drives `Uninitialized -> Ready`
//! ([`Channel::prepare_transfer`]) and `Ready -> Busy`
//! ([`Channel::software_trigger`]); the remaining transitions follow hardware
//! events, which enter the model through the `on_*` methods: a peripheral
//! trigger firing, a transfer completing, or a bus fault aborting the
//! transfer. State-dependent operations check the lifecycle tag at run time
//! and reject calls made in the wrong state; that check is part of each
//! method's contract.

use vstd::prelude::*;

verus! {

use crate::DmacError;
use crate::descriptor::TransferDescriptor;

/// One of the four hardware arbitration tiers a channel is assigned to.
#[derive(Clone, Copy, Debug, PartialEq, Eq, Structural)]
pub enum PriorityLevel {
    /// Priority level 0, the lowest.
    Level0,
    /// Priority level 1.
    Level1,
    /// Priority level 2.
    Level2,
    /// Priority level 3, the highest.
    Level3,
}

impl PriorityLevel {
    /// The value of the channel's 2-bit priority-level register field.
    pub open spec fn spec_value(self) -> u8 {
        match self {
            PriorityLevel::Level0 => 0,
            PriorityLevel::Level1 => 1,
            PriorityLevel::Level2 => 2,
            PriorityLevel::Level3 => 3,
        }
    }

    /// The value of the channel's 2-bit priority-level register field.
    pub fn value(self) -> (r: u8)
        ensures
            r == self.spec_value(),
    {
        match self {
            PriorityLevel::Level0 => 0,
            PriorityLevel::Level1 => 1,
            PriorityLevel::Level2 => 2,
            PriorityLevel::Level3 => 3,
        }
    }
}

/// The peripheral event a channel listens to. `Disable` means no peripheral
/// triggers the channel; only a software trigger can advance it.
#[derive(Clone, Copy, Debug, PartialEq, Eq, Structural)]
pub enum TriggerSource {
    /// No peripheral trigger; software triggering only.
    Disable,
    /// Receive-ready of the first serial interface.
    Sercom0Rx,
    /// Transmit-ready of the first serial interface.
    Sercom0Tx,
    /// Receive-ready of the second serial interface.
    Sercom1Rx,
    /// Transmit-ready of the second serial interface.
    Sercom1Tx,
    /// Timer/counter overflow.
    Tcc0Overflow,
    /// Timer overflow.
    Tc3Overflow,
    /// Analog-to-digital conversion result ready.
    AdcResultReady,
}

/// How much of the configured transfer one trigger event advances.
#[derive(Clone, Copy, Debug, PartialEq, Eq, Structural)]
pub enum TriggerAction {
    /// One beat per trigger.
    Beat,
    /// One block per trigger.
    Block,
    /// One full transaction (the whole descriptor chain) per trigger.
    Transaction,
    /// Software-only triggering: peripheral events are ignored.
    Software,
}

impl TriggerAction {
    /// Whether a software trigger is permitted under this action.
    pub open spec fn permits_software_trigger(self) -> bool {
        self is Software
    }
}

/// Lifecycle tag of a channel.
#[derive(Clone, Copy, Debug, PartialEq, Eq, Structural)]
pub enum ChannelStatus {
    /// No descriptor configured; the channel-enable bit is clear.
    Uninitialized,
    /// Descriptor and trigger configured, channel enabled, awaiting a
    /// trigger event.
    Ready,
    /// Triggered: hardware is transferring, or the chain is waiting on its
    /// next trigger event.
    Busy,
}

/// Mathematical model of a channel: its identity, lifecycle tag, register
/// fields, status flags, both table slots, and whether any trigger has fired
/// since the slots were last prepared.
pub struct ChannelView {
    /// The hardware channel index this handle owns.
    pub id: u8,
    /// Lifecycle tag.
    pub status: ChannelStatus,
    /// The channel-enable register bit.
    pub enabled: bool,
    /// Arbitration tier of the channel.
    pub priority: PriorityLevel,
    /// The peripheral event that advances the channel.
    pub trigger_source: TriggerSource,
    /// How much of the transfer one trigger advances.
    pub trigger_action: TriggerAction,
    /// The transfer-complete status flag; software clears it.
    pub transfer_complete: bool,
    /// The transfer-error status flag; software clears it.
    pub transfer_error: bool,
    /// The channel's slot in the descriptor table.
    pub descriptor: TransferDescriptor,
    /// The channel's slot in the writeback table. Hardware owns it while the
    /// channel is armed; software only ever clears it.
    pub writeback: TransferDescriptor,
    /// Whether any trigger has fired since the slots were last prepared.
    pub triggered: bool,
}

impl ChannelView {
    /// The state of a channel as `split` hands it out: uninitialized,
    /// disabled, both table slots all-zero, never triggered.
    pub open spec fn initial(id: u8) -> ChannelView {
        ChannelView {
            id,
            status: ChannelStatus::Uninitialized,
            enabled: false,
            priority: PriorityLevel::Level0,
            trigger_source: TriggerSource::Disable,
            trigger_action: TriggerAction::Block,
            transfer_complete: false,
            transfer_error: false,
            descriptor: TransferDescriptor::spec_empty(),
            writeback: TransferDescriptor::spec_empty(),
            triggered: false,
        }
    }

    /// Well-formedness of a channel, established by `new_chan` and preserved
    /// by every operation:
    /// - an uninitialized channel is disabled;
    /// - a ready or busy channel is enabled and its descriptor slot holds a
    ///   valid descriptor that moves at least one beat;
    /// - a busy channel has been triggered;
    /// - the writeback slot of a channel that was never triggered since its
    ///   slots were last prepared is still all-zero.
    pub open spec fn wf(self) -> bool {
        &&& (self.status is Uninitialized ==> !self.enabled)
        &&& (self.status is Ready || self.status is Busy ==> self.enabled
            && self.descriptor.valid && self.descriptor.describes_transfer())
        &&& (self.status is Busy ==> self.triggered)
        &&& (!self.triggered ==> self.writeback == TransferDescriptor::spec_empty())
    }
}

/// Exclusive handle to one hardware channel.
pub struct Channel {
    id: u8,
    status: ChannelStatus,
    enabled: bool,
    priority: PriorityLevel,
    trigger_source: TriggerSource,
    trigger_action: TriggerAction,
    transfer_complete: bool,
    transfer_error: bool,
    descriptor: TransferDescriptor,
    writeback: TransferDescriptor,
    triggered: Ghost<bool>,
}

impl View for Channel {
    type V = ChannelView;

    closed spec fn view(&self) -> ChannelView {
        ChannelView {
            id: self.id,
            status: self.status,
            enabled: self.enabled,
            priority: self.priority,
            trigger_source: self.trigger_source,
            trigger_action: self.trigger_action,
            transfer_complete: self.transfer_complete,
            transfer_error: self.transfer_error,
            descriptor: self.descriptor,
            writeback: self.writeback,
            triggered: self.triggered@,
        }
    }
}

/// A fresh handle to channel `id`, in its initial state.
pub fn new_chan(id: u8) -> (ch: Channel)
    ensures
        ch@ == ChannelView::initial(id),
{
    Channel {
        id,
        status: ChannelStatus::Uninitialized,
        enabled: false,
        priority: PriorityLevel::Level0,
        trigger_source: TriggerSource::Disable,
        trigger_action: TriggerAction::Block,
        transfer_complete: false,
        transfer_error: false,
        descriptor: TransferDescriptor::empty(),
        writeback: TransferDescriptor::empty(),
        triggered: Ghost(false),
    }
}

impl Channel {
    /// Prepare the channel for its first trigger: populate its descriptor
    /// slot (marking it valid), clear its writeback slot so hardware cannot
    /// resume a stale chain, program trigger source, trigger action and
    /// priority, and set the channel-enable bit. Moves the channel from
    /// `Uninitialized` to `Ready`.
    ///
    /// Rejected with `InvalidState` on a channel that is not uninitialized,
    /// and with `InvalidDescriptor` on a descriptor whose block-transfer
    /// count is zero; a rejected call leaves the channel unchanged.
    pub fn prepare_transfer(
        &mut self,
        descriptor: TransferDescriptor,
        source: TriggerSource,
        action: TriggerAction,
        priority: PriorityLevel,
    ) -> (r: Result<(), DmacError>)
        requires
            old(self)@.wf(),
        ensures
            final(self)@.wf(),
            r is Ok <==> old(self)@.status is Uninitialized && descriptor.describes_transfer(),
            r == Err::<(), DmacError>(DmacError::InvalidState)
                <==> !(old(self)@.status is Uninitialized),
            r == Err::<(), DmacError>(DmacError::InvalidDescriptor)
                <==> old(self)@.status is Uninitialized && !descriptor.describes_transfer(),
            r is Err ==> final(self)@ == old(self)@,
            r is Ok ==> final(self)@ == (ChannelView {
                status: ChannelStatus::Ready,
                enabled: true,
                priority,
                trigger_source: source,
                trigger_action: action,
                descriptor: (TransferDescriptor { valid: true, ..descriptor }),
                writeback: TransferDescriptor::spec_empty(),
                triggered: false,
                ..old(self)@
            }),
    {
        if !matches!(self.status, ChannelStatus::Uninitialized) {
            return Err(DmacError::InvalidState);
        }
        if descriptor.block_transfer_count == 0 {
            return Err(DmacError::InvalidDescriptor);
        }
        self.descriptor = TransferDescriptor { valid: true, ..descriptor };
        self.writeback = TransferDescriptor::empty();
        self.trigger_source = source;
        self.trigger_action = action;
        self.priority = priority;
        self.enabled = true;
        self.status = ChannelStatus::Ready;
        self.triggered = Ghost(false);
        Ok(())
    }

    /// Assert the channel's trigger bit from software, moving a ready
    /// channel to `Busy`. Hardware fetches the descriptor into the writeback
    /// slot as the transfer starts.
    ///
    /// Rejected with `InvalidState` on a channel that is not ready — in
    /// particular, an uninitialized channel rejects a software trigger — and
    /// with `SoftwareTriggerDenied` when the configured trigger action does
    /// not permit software triggering; a rejected call leaves the channel
    /// unchanged.
    pub fn software_trigger(&mut self) -> (r: Result<(), DmacError>)
        requires
            old(self)@.wf(),
        ensures
            final(self)@.wf(),
            r is Ok <==> old(self)@.status is Ready
                && old(self)@.trigger_action.permits_software_trigger(),
            r == Err::<(), DmacError>(DmacError::InvalidState)
                <==> !(old(self)@.status is Ready),
            r == Err::<(), DmacError>(DmacError::SoftwareTriggerDenied)
                <==> old(self)@.status is Ready
                && !old(self)@.trigger_action.permits_software_trigger(),
            r is Err ==> final(self)@ == old(self)@,
            r is Ok ==> final(self)@ == (ChannelView {
                status: ChannelStatus::Busy,
                writeback: old(self)@.descriptor,
                triggered: true,
                ..old(self)@
            }),
    {
        if !matches!(self.status, ChannelStatus::Ready) {
            return Err(DmacError::InvalidState);
        }
        if !matches!(self.trigger_action, TriggerAction::Software) {
            return Err(DmacError::SoftwareTriggerDenied);
        }
        self.writeback = self.descriptor;
        self.status = ChannelStatus::Busy;
        self.triggered = Ghost(true);
        Ok(())
    }

    /// A trigger event from the configured peripheral source fires. A ready
    /// channel whose action heeds peripheral events moves to `Busy`, and
    /// hardware fetches the descriptor into the writeback slot; in every
    /// other state, or under software-only triggering, or with no source
    /// configured, the event changes nothing.
    pub fn on_trigger_event(&mut self)
        requires
            old(self)@.wf(),
        ensures
            final(self)@.wf(),
            (old(self)@.status is Ready
                && !old(self)@.trigger_action.permits_software_trigger()
                && !(old(self)@.trigger_source is Disable))
                ==> final(self)@ == (ChannelView {
                    status: ChannelStatus::Busy,
                    writeback: old(self)@.descriptor,
                    triggered: true,
                    ..old(self)@
                }),
            !(old(self)@.status is Ready
                && !old(self)@.trigger_action.permits_software_trigger()
                && !(old(self)@.trigger_source is Disable))
                ==> final(self)@ == old(self)@,
    {
        if matches!(self.status, ChannelStatus::Ready)
            && !matches!(self.trigger_action, TriggerAction::Software)
            && !matches!(self.trigger_source, TriggerSource::Disable)
        {
            self.writeback = self.descriptor;
            self.status = ChannelStatus::Busy;
            self.triggered = Ghost(true);
        }
    }

    /// Hardware signals that the current block or transfer of a busy channel
    /// completed. The transfer-complete flag is raised for software to
    /// observe and clear. When the writeback slot links to a further
    /// descriptor the chain expects another trigger and the channel returns
    /// to `Ready`; otherwise the transaction is over, hardware clears the
    /// writeback slot's valid bit and disables the channel, which returns to
    /// `Uninitialized`. On a channel that is not busy the signal changes
    /// nothing.
    pub fn on_transfer_complete(&mut self)
        requires
            old(self)@.wf(),
        ensures
            final(self)@.wf(),
            !(old(self)@.status is Busy) ==> final(self)@ == old(self)@,
            old(self)@.status is Busy && old(self)@.writeback.spec_is_chained()
                ==> final(self)@ == (ChannelView {
                    status: ChannelStatus::Ready,
                    transfer_complete: true,
                    ..old(self)@
                }),
            old(self)@.status is Busy && !old(self)@.writeback.spec_is_chained()
                ==> final(self)@ == (ChannelView {
                    status: ChannelStatus::Uninitialized,
                    enabled: false,
                    transfer_complete: true,
                    writeback: (TransferDescriptor { valid: false, ..old(self)@.writeback }),
                    ..old(self)@
                }),
    {
        if matches!(self.status, ChannelStatus::Busy) {
            self.transfer_complete = true;
            if self.writeback.is_chained() {
                self.status = ChannelStatus::Ready;
            } else {
                self.writeback = TransferDescriptor { valid: false, ..self.writeback };
                self.enabled = false;
                self.status = ChannelStatus::Uninitialized;
            }
        }
    }

    /// Hardware signals a transfer error (bus fault) on a busy channel: the
    /// transfer-error flag is raised and the channel is auto-disabled,
    /// returning to `Uninitialized`. Software must observe and clear the
    /// flag, then prepare the channel again before reuse. On a channel that
    /// is not busy the signal changes nothing.
    pub fn on_transfer_error(&mut self)
        requires
            old(self)@.wf(),
        ensures
            final(self)@.wf(),
            !(old(self)@.status is Busy) ==> final(self)@ == old(self)@,
            old(self)@.status is Busy ==> final(self)@ == (ChannelView {
                status: ChannelStatus::Uninitialized,
                enabled: false,
                transfer_error: true,
                ..old(self)@
            }),
    {
        if matches!(self.status, ChannelStatus::Busy) {
            self.transfer_error = true;
            self.enabled = false;
            self.status = ChannelStatus::Uninitialized;
        }
    }

    /// Clear the transfer-complete flag, returning whether it was set.
    pub fn clear_transfer_complete(&mut self) -> (was_set: bool)
        requires
            old(self)@.wf(),
        ensures
            final(self)@.wf(),
            was_set == old(self)@.transfer_complete,
            final(self)@ == (ChannelView { transfer_complete: false, ..old(self)@ }),
    {
        let was_set = self.transfer_complete;
        self.transfer_complete = false;
        was_set
    }

    /// Clear the transfer-error flag, returning whether it was set.
    pub fn clear_transfer_error(&mut self) -> (was_set: bool)
        requires
            old(self)@.wf(),
        ensures
            final(self)@.wf(),
            was_set == old(self)@.transfer_error,
            final(self)@ == (ChannelView { transfer_error: false, ..old(self)@ }),
    {
        let was_set = self.transfer_error;
        self.transfer_error = false;
        was_set
    }

    /// Software disable: abort whatever the channel is doing, clear the
    /// channel-enable bit and return to `Uninitialized`, from any state.
    /// The in-flight beat retires synchronously; status flags are left for
    /// software to observe.
    pub fn disable(&mut self)
        requires
            old(self)@.wf(),
        ensures
            final(self)@.wf(),
            final(self)@ == (ChannelView {
                status: ChannelStatus::Uninitialized,
                enabled: false,
                ..old(self)@
            }),
    {
        self.enabled = false;
        self.status = ChannelStatus::Uninitialized;
    }

    /// The hardware channel index this handle owns.
    pub fn id(&self) -> (r: u8)
        ensures
            r == self@.id,
    {
        self.id
    }

    /// The channel's lifecycle tag.
    pub fn status(&self) -> (r: ChannelStatus)
        ensures
            r == self@.status,
    {
        self.status
    }

    /// The channel-enable register bit.
    pub fn enabled(&self) -> (r: bool)
        ensures
            r == self@.enabled,
    {
        self.enabled
    }

    /// The channel's priority level.
    pub fn priority(&self) -> (r: PriorityLevel)
        ensures
            r == self@.priority,
    {
        self.priority
    }

    /// The configured trigger source.
    pub fn trigger_source(&self) -> (r: TriggerSource)
        ensures
            r == self@.trigger_source,
    {
        self.trigger_source
    }

    /// The configured trigger action.
    pub fn trigger_action(&self) -> (r: TriggerAction)
        ensures
            r == self@.trigger_action,
    {
        self.trigger_action
    }

    /// The transfer-complete status flag.
    pub fn transfer_complete(&self) -> (r: bool)
        ensures
            r == self@.transfer_complete,
    {
        self.transfer_complete
    }

    /// The transfer-error status flag.
    pub fn transfer_error(&self) -> (r: bool)
        ensures
            r == self@.transfer_error,
    {
        self.transfer_error
    }

    /// The channel's descriptor-table slot.
    pub fn descriptor(&self) -> (r: TransferDescriptor)
        ensures
            r == self@.descriptor,
    {
        self.descriptor
    }

    /// The channel's writeback-table slot.
    pub fn writeback(&self) -> (r: TransferDescriptor)
        ensures
            r == self@.writeback,
    {
        self.writeback
    }
}

} // verus!
