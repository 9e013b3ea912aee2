use dmac::DmacError;
use dmac::channel::{new_chan, Channel, ChannelStatus, PriorityLevel, TriggerAction, TriggerSource};
use dmac::descriptor::{BeatSize, BlockAction, StepSelection, StepSize, TransferDescriptor};

fn word_descriptor(count: u16, next: u32) -> TransferDescriptor {
    TransferDescriptor {
        valid: false,
        block_action: BlockAction::Interrupt,
        beat_size: BeatSize::Word,
        src_increment: true,
        dst_increment: true,
        step_selection: StepSelection::Source,
        step_size: StepSize::X1,
        block_transfer_count: count,
        source_address: 0x2000_1010,
        destination_address: 0x2000_2010,
        next_descriptor: next,
    }
}

fn ready_channel(action: TriggerAction, source: TriggerSource, next: u32) -> Channel {
    let mut ch = new_chan(0);
    ch.prepare_transfer(word_descriptor(4, next), source, action, PriorityLevel::Level1)
        .expect("a fresh channel accepts a valid descriptor");
    ch
}

#[test]
fn priority_levels_encode_a_two_bit_field() {
    assert_eq!(PriorityLevel::Level0.value(), 0);
    assert_eq!(PriorityLevel::Level1.value(), 1);
    assert_eq!(PriorityLevel::Level2.value(), 2);
    assert_eq!(PriorityLevel::Level3.value(), 3);
}

#[test]
fn fresh_channel_is_uninitialized() {
    let ch = new_chan(7);
    assert_eq!(ch.id(), 7);
    assert_eq!(ch.status(), ChannelStatus::Uninitialized);
    assert!(!ch.enabled());
    assert_eq!(ch.descriptor(), TransferDescriptor::empty());
    assert_eq!(ch.writeback(), TransferDescriptor::empty());
}

#[test]
fn uninitialized_channel_rejects_software_trigger() {
    let mut ch = new_chan(0);
    let r = ch.software_trigger();
    assert!(matches!(r, Err(DmacError::InvalidState)));
    assert_eq!(ch.status(), ChannelStatus::Uninitialized);
}

#[test]
fn zero_length_descriptor_is_rejected() {
    let mut ch = new_chan(0);
    let r = ch.prepare_transfer(
        word_descriptor(0, 0),
        TriggerSource::Disable,
        TriggerAction::Software,
        PriorityLevel::Level0,
    );
    assert!(matches!(r, Err(DmacError::InvalidDescriptor)));
    assert_eq!(ch.status(), ChannelStatus::Uninitialized);
    assert!(!ch.enabled());
}

#[test]
fn prepare_transfer_arms_the_channel() {
    let ch = ready_channel(TriggerAction::Software, TriggerSource::Disable, 0);
    assert_eq!(ch.status(), ChannelStatus::Ready);
    assert!(ch.enabled());
    // The slot was populated and marked valid; the writeback slot was cleared.
    assert!(ch.descriptor().valid);
    assert_eq!(ch.descriptor().block_transfer_count, 4);
    assert_eq!(ch.writeback(), TransferDescriptor::empty());
    assert_eq!(ch.priority(), PriorityLevel::Level1);
    assert_eq!(ch.trigger_action(), TriggerAction::Software);
}

#[test]
fn prepare_transfer_rejected_when_not_uninitialized() {
    let mut ch = ready_channel(TriggerAction::Software, TriggerSource::Disable, 0);
    let r = ch.prepare_transfer(
        word_descriptor(2, 0),
        TriggerSource::Disable,
        TriggerAction::Software,
        PriorityLevel::Level0,
    );
    assert!(matches!(r, Err(DmacError::InvalidState)));
    assert_eq!(ch.status(), ChannelStatus::Ready);
    assert_eq!(ch.descriptor().block_transfer_count, 4);
}

#[test]
fn terminal_transfer_runs_to_uninitialized() {
    let mut ch = ready_channel(TriggerAction::Software, TriggerSource::Disable, 0);
    ch.software_trigger().expect("ready and software-triggerable");
    assert_eq!(ch.status(), ChannelStatus::Busy);
    // Hardware holds the in-flight descriptor in the writeback slot.
    assert!(ch.writeback().valid);
    assert_eq!(ch.writeback().block_transfer_count, 4);

    ch.on_transfer_complete();
    // Null next-link: the transaction is over and the channel is released.
    assert_eq!(ch.status(), ChannelStatus::Uninitialized);
    assert!(!ch.enabled());
    assert!(!ch.writeback().valid);
    assert!(ch.transfer_complete());
    // The completion flag clears exactly once.
    assert!(ch.clear_transfer_complete());
    assert!(!ch.clear_transfer_complete());
    assert!(!ch.transfer_complete());
}

#[test]
fn chained_transfer_returns_to_ready() {
    let mut ch = ready_channel(TriggerAction::Software, TriggerSource::Disable, 0x2000_3000);
    ch.software_trigger().expect("ready and software-triggerable");
    assert_eq!(ch.status(), ChannelStatus::Busy);

    ch.on_transfer_complete();
    // The chain links on: a further trigger is still expected.
    assert_eq!(ch.status(), ChannelStatus::Ready);
    assert!(ch.enabled());
    assert!(ch.transfer_complete());
    assert!(ch.clear_transfer_complete());
    assert!(!ch.clear_transfer_complete());
}

#[test]
fn software_trigger_denied_under_peripheral_action() {
    let mut ch = ready_channel(TriggerAction::Block, TriggerSource::Sercom0Rx, 0);
    let r = ch.software_trigger();
    assert!(matches!(r, Err(DmacError::SoftwareTriggerDenied)));
    assert_eq!(ch.status(), ChannelStatus::Ready);
}

#[test]
fn trigger_while_busy_is_rejected() {
    let mut ch = ready_channel(TriggerAction::Software, TriggerSource::Disable, 0);
    ch.software_trigger().expect("ready and software-triggerable");
    let r = ch.software_trigger();
    assert!(matches!(r, Err(DmacError::InvalidState)));
    assert_eq!(ch.status(), ChannelStatus::Busy);
}

#[test]
fn peripheral_trigger_event_arms_busy() {
    let mut ch = ready_channel(TriggerAction::Block, TriggerSource::Sercom0Rx, 0);
    ch.on_trigger_event();
    assert_eq!(ch.status(), ChannelStatus::Busy);
    assert!(ch.writeback().valid);
}

#[test]
fn peripheral_trigger_event_ignored_under_software_action() {
    let mut ch = ready_channel(TriggerAction::Software, TriggerSource::Disable, 0);
    ch.on_trigger_event();
    assert_eq!(ch.status(), ChannelStatus::Ready);
    assert_eq!(ch.writeback(), TransferDescriptor::empty());
}

#[test]
fn transfer_error_auto_disables_the_channel() {
    let mut ch = ready_channel(TriggerAction::Software, TriggerSource::Disable, 0);
    ch.software_trigger().expect("ready and software-triggerable");
    ch.on_transfer_error();
    assert_eq!(ch.status(), ChannelStatus::Uninitialized);
    assert!(!ch.enabled());
    assert!(ch.transfer_error());
    assert!(ch.clear_transfer_error());
    assert!(!ch.clear_transfer_error());
    // Recovery: the channel can be prepared again after the error is cleared.
    let r = ch.prepare_transfer(
        word_descriptor(1, 0),
        TriggerSource::Disable,
        TriggerAction::Software,
        PriorityLevel::Level0,
    );
    assert!(r.is_ok());
    assert_eq!(ch.status(), ChannelStatus::Ready);
}

#[test]
fn transfer_error_signal_ignored_when_not_busy() {
    let mut ch = ready_channel(TriggerAction::Software, TriggerSource::Disable, 0);
    ch.on_transfer_error();
    assert_eq!(ch.status(), ChannelStatus::Ready);
    assert!(!ch.transfer_error());
}

#[test]
fn disable_aborts_from_any_state() {
    let mut ch = ready_channel(TriggerAction::Software, TriggerSource::Disable, 0);
    ch.software_trigger().expect("ready and software-triggerable");
    ch.disable();
    assert_eq!(ch.status(), ChannelStatus::Uninitialized);
    assert!(!ch.enabled());
}
