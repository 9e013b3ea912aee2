//! Transfer descriptors, in the hardware-defined layout shared by the
//! descriptor table and the writeback table.
//!
//! One descriptor describes one block transfer: how many beats to move, the
//! source and destination addresses, the addressing flags, and a link to the
//! next descriptor of the chain (null, that is zero, terminates the chain).
//!
//! Hardware convention for incremented addresses: when address increment is
//! enabled for one side of the transfer, the descriptor holds the address of
//! the *last* beat moved on that side, not the first. Software must
//! pre-compute that end address from the base address, the beat size and the
//! block-transfer count; [`end_address`] does so with an exact
//! overflow-checked contract.

use vstd::prelude::*;

verus! {

/// Width of one beat, the single data unit moved per transfer step.
#[derive(Clone, Copy, Debug, PartialEq, Eq, Structural)]
pub enum BeatSize {
    /// 8-bit beats.
    Byte,
    /// 16-bit beats.
    HalfWord,
    /// 32-bit beats.
    Word,
}

impl BeatSize {
    /// Number of bytes moved by one beat of this size.
    pub open spec fn spec_bytes(self) -> u32 {
        match self {
            BeatSize::Byte => 1,
            BeatSize::HalfWord => 2,
            BeatSize::Word => 4,
        }
    }

    /// Number of bytes moved by one beat of this size.
    pub fn bytes(self) -> (r: u32)
        ensures
            r == self.spec_bytes(),
    {
        match self {
            BeatSize::Byte => 1,
            BeatSize::HalfWord => 2,
            BeatSize::Word => 4,
        }
    }
}

/// What the channel does when the block described by a descriptor completes.
#[derive(Clone, Copy, Debug, PartialEq, Eq, Structural)]
pub enum BlockAction {
    /// Proceed silently to the next block, if any.
    NoAction,
    /// Raise the transfer-complete interrupt flag.
    Interrupt,
    /// Suspend the channel.
    Suspend,
    /// Raise the interrupt flag and suspend the channel.
    Both,
}

/// Which side of the transfer the address step size applies to.
#[derive(Clone, Copy, Debug, PartialEq, Eq, Structural)]
pub enum StepSelection {
    /// The step size applies to the source address.
    Source,
    /// The step size applies to the destination address.
    Destination,
}

/// Address step size, as a multiple of the beat size.
#[derive(Clone, Copy, Debug, PartialEq, Eq, Structural)]
pub enum StepSize {
    /// Advance by one beat per beat.
    X1,
    /// Advance by 2 beats per beat.
    X2,
    /// Advance by 4 beats per beat.
    X4,
    /// Advance by 8 beats per beat.
    X8,
    /// Advance by 16 beats per beat.
    X16,
    /// Advance by 32 beats per beat.
    X32,
    /// Advance by 64 beats per beat.
    X64,
    /// Advance by 128 beats per beat.
    X128,
}

impl StepSize {
    /// The multiplier this step size stands for.
    pub open spec fn spec_multiplier(self) -> u32 {
        match self {
            StepSize::X1 => 1,
            StepSize::X2 => 2,
            StepSize::X4 => 4,
            StepSize::X8 => 8,
            StepSize::X16 => 16,
            StepSize::X32 => 32,
            StepSize::X64 => 64,
            StepSize::X128 => 128,
        }
    }

    /// The multiplier this step size stands for.
    pub fn multiplier(self) -> (r: u32)
        ensures
            r == self.spec_multiplier(),
    {
        match self {
            StepSize::X1 => 1,
            StepSize::X2 => 2,
            StepSize::X4 => 4,
            StepSize::X8 => 8,
            StepSize::X16 => 16,
            StepSize::X32 => 32,
            StepSize::X64 => 64,
            StepSize::X128 => 128,
        }
    }
}

/// One transfer descriptor, in the layout hardware reads from the descriptor
/// table and writes back into the writeback table.
#[derive(Clone, Copy, Debug, PartialEq, Eq, Structural)]
pub struct TransferDescriptor {
    /// BTCTRL.VALID: hardware only executes a descriptor whose valid bit is
    /// set; clearing it in a writeback slot invalidates a stale chain.
    pub valid: bool,
    /// What happens when this block completes.
    pub block_action: BlockAction,
    /// Width of one beat.
    pub beat_size: BeatSize,
    /// Whether the source address increments after each beat.
    pub src_increment: bool,
    /// Whether the destination address increments after each beat.
    pub dst_increment: bool,
    /// Which side the step size applies to.
    pub step_selection: StepSelection,
    /// Address step size for the selected side.
    pub step_size: StepSize,
    /// Number of beats in this block; must be nonzero for a valid transfer.
    pub block_transfer_count: u16,
    /// Source address; the end address when source increment is enabled.
    pub source_address: u32,
    /// Destination address; the end address when destination increment is
    /// enabled.
    pub destination_address: u32,
    /// Address of the next descriptor in the chain; zero terminates it.
    pub next_descriptor: u32,
}

impl TransferDescriptor {
    /// The all-zero, invalid descriptor: the state of every writeback slot
    /// before its channel is first triggered, and the value software writes
    /// to invalidate a slot.
    pub open spec fn spec_empty() -> TransferDescriptor {
        TransferDescriptor {
            valid: false,
            block_action: BlockAction::NoAction,
            beat_size: BeatSize::Byte,
            src_increment: false,
            dst_increment: false,
            step_selection: StepSelection::Source,
            step_size: StepSize::X1,
            block_transfer_count: 0,
            source_address: 0,
            destination_address: 0,
            next_descriptor: 0,
        }
    }

    /// The all-zero, invalid descriptor.
    pub fn empty() -> (r: TransferDescriptor)
        ensures
            r == TransferDescriptor::spec_empty(),
    {
        TransferDescriptor {
            valid: false,
            block_action: BlockAction::NoAction,
            beat_size: BeatSize::Byte,
            src_increment: false,
            dst_increment: false,
            step_selection: StepSelection::Source,
            step_size: StepSize::X1,
            block_transfer_count: 0,
            source_address: 0,
            destination_address: 0,
            next_descriptor: 0,
        }
    }

    /// A descriptor describes a transfer only if it moves at least one beat.
    pub open spec fn describes_transfer(self) -> bool {
        self.block_transfer_count > 0
    }

    /// Whether this descriptor links to a further descriptor: a nonzero next
    /// link means the chain continues and a further trigger is expected.
    pub open spec fn spec_is_chained(self) -> bool {
        self.next_descriptor != 0
    }

    /// Whether this descriptor links to a further descriptor.
    pub fn is_chained(&self) -> (r: bool)
        ensures
            r == self.spec_is_chained(),
    {
        self.next_descriptor != 0
    }
}

/// Pre-compute the end address the hardware expects in a descriptor whose
/// address increment is enabled: the base address plus one beat's bytes for
/// each beat of the block. Returns `None` exactly when that sum does not fit
/// in an address word.
pub fn end_address(base: u32, beat_size: BeatSize, block_transfer_count: u16) -> (r: Option<u32>)
    ensures
        r matches Some(a) ==> a == base + beat_size.spec_bytes() * block_transfer_count,
        r is None <==> base + beat_size.spec_bytes() * block_transfer_count > u32::MAX,
{
    let bytes: u32 = beat_size.bytes();
    proof {
        assert((bytes as u64) * (block_transfer_count as u64) <= 4 * 65535) by (nonlinear_arith)
            requires
                bytes <= 4,
                block_transfer_count <= 65535,
        ;
    }
    let span: u64 = (bytes as u64) * (block_transfer_count as u64);
    let end: u64 = (base as u64) + span;
    if end > (u32::MAX as u64) {
        None
    } else {
        Some(end as u32)
    }
}

} // verus!
