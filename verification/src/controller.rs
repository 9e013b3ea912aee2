//! The DMAC controller: owns the peripheral-wide register file, publishes
//! the descriptor- and writeback-table base addresses, carries the global
//! enable, the priority-level-enable mask and the per-level round-robin
//! arbitration bits, and hands out the channel handles exactly once.

use vstd::prelude::*;

verus! {

use crate::DmacError;
use crate::channel::{new_chan, Channel, ChannelView};
use crate::registers::{
    Dmac, Pm, CTRL_DMAENABLE, CTRL_LVLEN0, CTRL_LVLEN1, CTRL_LVLEN2, CTRL_LVLEN3,
    CTRL_LVLEN_MASK, MAX_RESET_POLLS, PRICTRL_RRLVLEN0, PRICTRL_RRLVLEN1, PRICTRL_RRLVLEN2,
    PRICTRL_RRLVLEN3, PRICTRL_RRLVLEN_MASK,
};

/// Number of hardware channels of the target variant.
pub const CHANNEL_COUNT: usize = 12;

/// Trait binding a zero-sized channel-id type to its channel index.
pub trait ChId {
    /// The channel index as a byte.
    const U8: u8;
    /// The channel index as a table index.
    const USIZE: usize;
}

/// Channel-id type for channel 0.
pub struct Ch0;

/// Channel-id type for channel 1.
pub struct Ch1;

/// Channel-id type for channel 2.
pub struct Ch2;

/// Channel-id type for channel 3.
pub struct Ch3;

/// Channel-id type for channel 4.
pub struct Ch4;

/// Channel-id type for channel 5.
pub struct Ch5;

/// Channel-id type for channel 6.
pub struct Ch6;

/// Channel-id type for channel 7.
pub struct Ch7;

/// Channel-id type for channel 8.
pub struct Ch8;

/// Channel-id type for channel 9.
pub struct Ch9;

/// Channel-id type for channel 10.
pub struct Ch10;

/// Channel-id type for channel 11.
pub struct Ch11;

impl ChId for Ch0 {
    const U8: u8 = 0;

    const USIZE: usize = 0;
}

impl ChId for Ch1 {
    const U8: u8 = 1;

    const USIZE: usize = 1;
}

impl ChId for Ch2 {
    const U8: u8 = 2;

    const USIZE: usize = 2;
}

impl ChId for Ch3 {
    const U8: u8 = 3;

    const USIZE: usize = 3;
}

impl ChId for Ch4 {
    const U8: u8 = 4;

    const USIZE: usize = 4;
}

impl ChId for Ch5 {
    const U8: u8 = 5;

    const USIZE: usize = 5;
}

impl ChId for Ch6 {
    const U8: u8 = 6;

    const USIZE: usize = 6;
}

impl ChId for Ch7 {
    const U8: u8 = 7;

    const USIZE: usize = 7;
}

impl ChId for Ch8 {
    const U8: u8 = 8;

    const USIZE: usize = 8;
}

impl ChId for Ch9 {
    const U8: u8 = 9;

    const USIZE: usize = 9;
}

impl ChId for Ch10 {
    const U8: u8 = 10;

    const USIZE: usize = 10;
}

impl ChId for Ch11 {
    const U8: u8 = 11;

    const USIZE: usize = 11;
}

/// A 4-bit mask of priority levels, held pre-shifted to the position of the
/// level-enable bits of the control register. By construction no bit outside
/// the level-enable field can be set, so read-modify-writes through such a
/// mask can never touch another control bit.
#[derive(Clone, Copy, Debug)]
pub struct PriorityLevelMask {
    bits: u16,
}

impl View for PriorityLevelMask {
    type V = u16;

    closed spec fn view(&self) -> u16 {
        self.bits
    }
}

impl PriorityLevelMask {
    #[verifier::type_invariant]
    spec fn type_inv(self) -> bool {
        self.bits & !CTRL_LVLEN_MASK == 0
    }

    /// The empty mask: no priority level selected.
    pub fn new() -> (r: PriorityLevelMask)
        ensures
            r@ == 0,
    {
        proof {
            assert(0u16 & !CTRL_LVLEN_MASK == 0) by (bit_vector);
        }
        PriorityLevelMask { bits: 0 }
    }

    /// Include (or exclude) priority level 0 in the mask.
    pub fn with_level0(self, selected: bool) -> (r: PriorityLevelMask)
        ensures
            r@ == (if selected {
                self@ | CTRL_LVLEN0
            } else {
                self@ & !CTRL_LVLEN0
            }),
    {
        proof {
            assert(CTRL_LVLEN0 & !CTRL_LVLEN_MASK == 0) by (bit_vector);
        }
        self.with_bit(selected, CTRL_LVLEN0)
    }

    /// Include (or exclude) priority level 1 in the mask.
    pub fn with_level1(self, selected: bool) -> (r: PriorityLevelMask)
        ensures
            r@ == (if selected {
                self@ | CTRL_LVLEN1
            } else {
                self@ & !CTRL_LVLEN1
            }),
    {
        proof {
            assert(CTRL_LVLEN1 & !CTRL_LVLEN_MASK == 0) by (bit_vector);
        }
        self.with_bit(selected, CTRL_LVLEN1)
    }

    /// Include (or exclude) priority level 2 in the mask.
    pub fn with_level2(self, selected: bool) -> (r: PriorityLevelMask)
        ensures
            r@ == (if selected {
                self@ | CTRL_LVLEN2
            } else {
                self@ & !CTRL_LVLEN2
            }),
    {
        proof {
            assert(CTRL_LVLEN2 & !CTRL_LVLEN_MASK == 0) by (bit_vector);
        }
        self.with_bit(selected, CTRL_LVLEN2)
    }

    /// Include (or exclude) priority level 3 in the mask.
    pub fn with_level3(self, selected: bool) -> (r: PriorityLevelMask)
        ensures
            r@ == (if selected {
                self@ | CTRL_LVLEN3
            } else {
                self@ & !CTRL_LVLEN3
            }),
    {
        proof {
            assert(CTRL_LVLEN3 & !CTRL_LVLEN_MASK == 0) by (bit_vector);
        }
        self.with_bit(selected, CTRL_LVLEN3)
    }

    /// Set or clear one level-enable bit of the mask.
    fn with_bit(self, selected: bool, bit: u16) -> (r: PriorityLevelMask)
        requires
            bit & !CTRL_LVLEN_MASK == 0,
        ensures
            r@ == (if selected {
                self@ | bit
            } else {
                self@ & !bit
            }),
    {
        proof {
            use_type_invariant(&self);
        }
        let old_bits: u16 = self.bits;
        let new_bits: u16 = if selected {
            old_bits | bit
        } else {
            old_bits & !bit
        };
        proof {
            assert(new_bits & !CTRL_LVLEN_MASK == 0) by (bit_vector)
                requires
                    old_bits & !CTRL_LVLEN_MASK == 0,
                    bit & !CTRL_LVLEN_MASK == 0,
                    new_bits == old_bits | bit || new_bits == old_bits & !bit,
            ;
        }
        PriorityLevelMask { bits: new_bits }
    }

    /// The mask's raw bits; only level-enable bits can be set.
    pub fn bits(&self) -> (r: u16)
        ensures
            r == self@,
            r & !CTRL_LVLEN_MASK == 0,
    {
        proof {
            use_type_invariant(self);
        }
        self.bits
    }
}

/// A 4-bit mask of priority levels, held pre-shifted to the positions of the
/// round-robin-enable bits of the priority-control register: one bit every 8
/// bits, starting at bit 7. By construction no bit outside those four
/// positions can be set.
#[derive(Clone, Copy, Debug)]
pub struct RoundRobinMask {
    bits: u32,
}

impl View for RoundRobinMask {
    type V = u32;

    closed spec fn view(&self) -> u32 {
        self.bits
    }
}

impl RoundRobinMask {
    #[verifier::type_invariant]
    spec fn type_inv(self) -> bool {
        self.bits & !PRICTRL_RRLVLEN_MASK == 0
    }

    /// The empty mask: no priority level selected.
    pub fn new() -> (r: RoundRobinMask)
        ensures
            r@ == 0,
    {
        proof {
            assert(0u32 & !PRICTRL_RRLVLEN_MASK == 0) by (bit_vector);
        }
        RoundRobinMask { bits: 0 }
    }

    /// Include (or exclude) priority level 0 in the mask.
    pub fn with_level0(self, selected: bool) -> (r: RoundRobinMask)
        ensures
            r@ == (if selected {
                self@ | PRICTRL_RRLVLEN0
            } else {
                self@ & !PRICTRL_RRLVLEN0
            }),
    {
        proof {
            assert(PRICTRL_RRLVLEN0 & !PRICTRL_RRLVLEN_MASK == 0) by (bit_vector);
        }
        self.with_bit(selected, PRICTRL_RRLVLEN0)
    }

    /// Include (or exclude) priority level 1 in the mask.
    pub fn with_level1(self, selected: bool) -> (r: RoundRobinMask)
        ensures
            r@ == (if selected {
                self@ | PRICTRL_RRLVLEN1
            } else {
                self@ & !PRICTRL_RRLVLEN1
            }),
    {
        proof {
            assert(PRICTRL_RRLVLEN1 & !PRICTRL_RRLVLEN_MASK == 0) by (bit_vector);
        }
        self.with_bit(selected, PRICTRL_RRLVLEN1)
    }

    /// Include (or exclude) priority level 2 in the mask.
    pub fn with_level2(self, selected: bool) -> (r: RoundRobinMask)
        ensures
            r@ == (if selected {
                self@ | PRICTRL_RRLVLEN2
            } else {
                self@ & !PRICTRL_RRLVLEN2
            }),
    {
        proof {
            assert(PRICTRL_RRLVLEN2 & !PRICTRL_RRLVLEN_MASK == 0) by (bit_vector);
        }
        self.with_bit(selected, PRICTRL_RRLVLEN2)
    }

    /// Include (or exclude) priority level 3 in the mask.
    pub fn with_level3(self, selected: bool) -> (r: RoundRobinMask)
        ensures
            r@ == (if selected {
                self@ | PRICTRL_RRLVLEN3
            } else {
                self@ & !PRICTRL_RRLVLEN3
            }),
    {
        proof {
            assert(PRICTRL_RRLVLEN3 & !PRICTRL_RRLVLEN_MASK == 0) by (bit_vector);
        }
        self.with_bit(selected, PRICTRL_RRLVLEN3)
    }

    /// Set or clear one round-robin-enable bit of the mask.
    fn with_bit(self, selected: bool, bit: u32) -> (r: RoundRobinMask)
        requires
            bit & !PRICTRL_RRLVLEN_MASK == 0,
        ensures
            r@ == (if selected {
                self@ | bit
            } else {
                self@ & !bit
            }),
    {
        proof {
            use_type_invariant(&self);
        }
        let old_bits: u32 = self.bits;
        let new_bits: u32 = if selected {
            old_bits | bit
        } else {
            old_bits & !bit
        };
        proof {
            assert(new_bits & !PRICTRL_RRLVLEN_MASK == 0) by (bit_vector)
                requires
                    old_bits & !PRICTRL_RRLVLEN_MASK == 0,
                    bit & !PRICTRL_RRLVLEN_MASK == 0,
                    new_bits == old_bits | bit || new_bits == old_bits & !bit,
            ;
        }
        RoundRobinMask { bits: new_bits }
    }

    /// The mask's raw bits; only round-robin-enable bits can be set.
    pub fn bits(&self) -> (r: u32)
        ensures
            r == self@,
            r & !PRICTRL_RRLVLEN_MASK == 0,
    {
        proof {
            use_type_invariant(self);
        }
        self.bits
    }
}

/// The complete set of channel handles, one per hardware channel, produced
/// exactly once by [`DmaController::split`].
pub struct Channels(pub Vec<Channel>);

impl Channels {
    /// Borrow the handle of the channel that the id type `C` names.
    pub fn channel<C: ChId>(&self) -> (r: &Channel)
        requires
            C::USIZE < self.0@.len(),
        ensures
            r == self.0@[C::USIZE as int],
    {
        &self.0[C::USIZE]
    }
}

/// The initialized DMA controller: exclusive owner of the peripheral's
/// register file from `init` to `free`.
pub struct DmaController {
    dmac: Dmac,
    split_done: bool,
}

impl DmaController {
    /// The controller's register file.
    pub closed spec fn regs(self) -> Dmac {
        self.dmac
    }

    /// Whether the channel handles were already handed out.
    pub closed spec fn spec_split_done(self) -> bool {
        self.split_done
    }

    /// Initialize the DMAC: open its clock gates, issue a software reset and
    /// wait (bounded) for it to complete, publish the two table base
    /// addresses, enable all four priority levels and set the global enable
    /// bit. The table addresses are fixed for the controller's lifetime:
    /// hardware caches them, so the tables must never be relocated after
    /// this call.
    ///
    /// Fails only with the fatal `ResetTimeout`, when the reset does not
    /// complete within the poll budget; the peripheral is then assumed
    /// non-functional.
    pub fn init(dmac: Dmac, pm: &mut Pm, descriptor_base: u32, writeback_base: u32) -> (r:
        Result<DmaController, DmacError>)
        ensures
            *final(pm) == (Pm { ahbmask_dmac: true, apbbmask_dmac: true }),
            r is Ok <==> dmac.reset_latency <= MAX_RESET_POLLS,
            r is Err ==> r == Err::<DmaController, DmacError>(DmacError::ResetTimeout),
            r matches Ok(c) ==> c.regs() == (Dmac {
                ctrl: CTRL_DMAENABLE | CTRL_LVLEN_MASK,
                prictrl0: 0,
                baseaddr: descriptor_base,
                wrbaddr: writeback_base,
                reset_latency: dmac.reset_latency,
            }) && !c.spec_split_done(),
    {
        pm.ahbmask_dmac = true;
        pm.apbbmask_dmac = true;
        let mut dmac = dmac;
        match dmac.software_reset() {
            Err(e) => {
                return Err(e);
            },
            Ok(()) => {},
        }
        dmac.baseaddr = descriptor_base;
        dmac.wrbaddr = writeback_base;
        dmac.ctrl = dmac.ctrl | CTRL_LVLEN_MASK;
        dmac.ctrl = dmac.ctrl | CTRL_DMAENABLE;
        proof {
            assert((0u16 | CTRL_LVLEN_MASK) | CTRL_DMAENABLE == CTRL_DMAENABLE | CTRL_LVLEN_MASK)
                by (bit_vector);
        }
        Ok(DmaController { dmac, split_done: false })
    }

    /// Borrow the underlying register file. The controller expects its
    /// configuration to be preserved; change it through the controller's
    /// methods.
    pub fn dmac(&self) -> (r: &Dmac)
        ensures
            *r == self.regs(),
    {
        &self.dmac
    }

    /// Borrow the underlying register file mutably. Writes made through this
    /// reference land in the controller's register file; the controller
    /// expects its configuration to be preserved.
    pub fn dmac_mut(&mut self) -> (r: &mut Dmac)
        ensures
            *r == old(self).regs(),
            final(self).regs() == *final(r),
            final(self).spec_split_done() == old(self).spec_split_done(),
    {
        &mut self.dmac
    }

    /// Enable the priority levels selected by the mask, by a read-modify-
    /// write of the control register: the selected level-enable bits are
    /// set and every other control bit is preserved.
    pub fn enable_levels(&mut self, mask: PriorityLevelMask)
        ensures
            final(self).regs() == (Dmac {
                ctrl: old(self).regs().ctrl | mask@,
                ..old(self).regs()
            }),
            final(self).regs().ctrl & !CTRL_LVLEN_MASK == old(self).regs().ctrl
                & !CTRL_LVLEN_MASK,
            final(self).spec_split_done() == old(self).spec_split_done(),
    {
        let m = mask.bits();
        let c0 = self.dmac.ctrl;
        self.dmac.ctrl = c0 | m;
        proof {
            assert((c0 | m) & !CTRL_LVLEN_MASK == c0 & !CTRL_LVLEN_MASK) by (bit_vector)
                requires
                    m & !CTRL_LVLEN_MASK == 0,
            ;
        }
    }

    /// Disable the priority levels selected by the mask, by a read-modify-
    /// write of the control register: the selected level-enable bits are
    /// cleared and every other control bit is preserved.
    pub fn disable_levels(&mut self, mask: PriorityLevelMask)
        ensures
            final(self).regs() == (Dmac {
                ctrl: old(self).regs().ctrl & !mask@,
                ..old(self).regs()
            }),
            final(self).regs().ctrl & !CTRL_LVLEN_MASK == old(self).regs().ctrl
                & !CTRL_LVLEN_MASK,
            final(self).spec_split_done() == old(self).spec_split_done(),
    {
        let m = mask.bits();
        let c0 = self.dmac.ctrl;
        self.dmac.ctrl = c0 & !m;
        proof {
            assert((c0 & !m) & !CTRL_LVLEN_MASK == c0 & !CTRL_LVLEN_MASK) by (bit_vector)
                requires
                    m & !CTRL_LVLEN_MASK == 0,
            ;
        }
    }

    /// Select round-robin arbitration for the priority levels of the mask,
    /// by a read-modify-write of the priority-control register: the selected
    /// round-robin-enable bits are set and every other bit is preserved.
    pub fn round_robin_arbitration(&mut self, mask: RoundRobinMask)
        ensures
            final(self).regs() == (Dmac {
                prictrl0: old(self).regs().prictrl0 | mask@,
                ..old(self).regs()
            }),
            final(self).regs().prictrl0 & !PRICTRL_RRLVLEN_MASK == old(self).regs().prictrl0
                & !PRICTRL_RRLVLEN_MASK,
            final(self).spec_split_done() == old(self).spec_split_done(),
    {
        let m = mask.bits();
        let p0 = self.dmac.prictrl0;
        self.dmac.prictrl0 = p0 | m;
        proof {
            assert((p0 | m) & !PRICTRL_RRLVLEN_MASK == p0 & !PRICTRL_RRLVLEN_MASK) by (bit_vector)
                requires
                    m & !PRICTRL_RRLVLEN_MASK == 0,
            ;
        }
    }

    /// Select static arbitration (that is, clear round-robin arbitration)
    /// for the priority levels of the mask, by a read-modify-write of the
    /// priority-control register: the selected round-robin-enable bits are
    /// cleared and every other bit is preserved.
    pub fn static_arbitration(&mut self, mask: RoundRobinMask)
        ensures
            final(self).regs() == (Dmac {
                prictrl0: old(self).regs().prictrl0 & !mask@,
                ..old(self).regs()
            }),
            final(self).regs().prictrl0 & !PRICTRL_RRLVLEN_MASK == old(self).regs().prictrl0
                & !PRICTRL_RRLVLEN_MASK,
            final(self).spec_split_done() == old(self).spec_split_done(),
    {
        let m = mask.bits();
        let p0 = self.dmac.prictrl0;
        self.dmac.prictrl0 = p0 & !m;
        proof {
            assert((p0 & !m) & !PRICTRL_RRLVLEN_MASK == p0 & !PRICTRL_RRLVLEN_MASK) by (bit_vector)
                requires
                    m & !PRICTRL_RRLVLEN_MASK == 0,
            ;
        }
    }

    /// Hand out the fixed set of channel handles, one per hardware channel,
    /// all uninitialized and with all-zero table slots. The handles are
    /// yielded exactly once, so no two live handles can name the same
    /// channel: a second call is rejected with `AlreadySplit` and yields
    /// nothing.
    pub fn split(&mut self) -> (r: Result<Channels, DmacError>)
        ensures
            final(self).regs() == old(self).regs(),
            final(self).spec_split_done(),
            r is Ok <==> !old(self).spec_split_done(),
            r is Err <==> r == Err::<Channels, DmacError>(DmacError::AlreadySplit)
                && old(self).spec_split_done(),
            r matches Ok(chs) ==> chs.0@.len() == CHANNEL_COUNT && forall|i: int|
                0 <= i < CHANNEL_COUNT ==> (#[trigger] chs.0@[i])@ == ChannelView::initial(
                    i as u8,
                ),
    {
        if self.split_done {
            return Err(DmacError::AlreadySplit);
        }
        self.split_done = true;
        let mut channels: Vec<Channel> = Vec::new();
        let mut i: usize = 0;
        while i < CHANNEL_COUNT
            invariant
                i <= CHANNEL_COUNT,
                channels@.len() == i,
                forall|j: int|
                    0 <= j < i ==> (#[trigger] channels@[j])@ == ChannelView::initial(j as u8),
            decreases CHANNEL_COUNT - i,
        {
            channels.push(new_chan(i as u8));
            i = i + 1;
        }
        Ok(Channels(channels))
    }

    /// Release the DMAC: clear the global enable bit, software-reset the
    /// peripheral, close its clock gates, and return the register file to
    /// the caller with the global enable cleared and the clocking disabled,
    /// whatever level-enable and arbitration masks were set in between.
    ///
    /// Fails only with the fatal `ResetTimeout`; the peripheral is then
    /// assumed non-functional and its clock gates are left as they were.
    pub fn free(self, pm: &mut Pm) -> (r: Result<Dmac, DmacError>)
        ensures
            r is Ok <==> self.regs().reset_latency <= MAX_RESET_POLLS,
            r matches Ok(d) ==> d == (Dmac {
                ctrl: 0,
                prictrl0: 0,
                baseaddr: 0,
                wrbaddr: 0,
                reset_latency: self.regs().reset_latency,
            }) && d.ctrl & CTRL_DMAENABLE == 0 && *final(pm) == (Pm {
                ahbmask_dmac: false,
                apbbmask_dmac: false,
            }),
            r is Err ==> r == Err::<Dmac, DmacError>(DmacError::ResetTimeout) && *final(pm)
                == *old(pm),
    {
        let mut dmac = self.dmac;
        dmac.ctrl = dmac.ctrl & !CTRL_DMAENABLE;
        match dmac.software_reset() {
            Err(e) => {
                return Err(e);
            },
            Ok(()) => {},
        }
        pm.apbbmask_dmac = false;
        pm.ahbmask_dmac = false;
        proof {
            assert(0u16 & CTRL_DMAENABLE == 0) by (bit_vector);
        }
        Ok(dmac)
    }
}

/// Law: a read-modify-write of the control register through a mask that
/// holds only level-enable bits never modifies a bit outside the
/// level-enable field, whether the masked bits are set or cleared.
pub proof fn lemma_level_mask_touches_only_level_bits(ctrl: u16, m: u16)
    requires
        m & !CTRL_LVLEN_MASK == 0,
    ensures
        (ctrl | m) & !CTRL_LVLEN_MASK == ctrl & !CTRL_LVLEN_MASK,
        (ctrl & !m) & !CTRL_LVLEN_MASK == ctrl & !CTRL_LVLEN_MASK,
{
    assert((ctrl | m) & !CTRL_LVLEN_MASK == ctrl & !CTRL_LVLEN_MASK && (ctrl & !m)
        & !CTRL_LVLEN_MASK == ctrl & !CTRL_LVLEN_MASK) by (bit_vector)
        requires
            m & !CTRL_LVLEN_MASK == 0,
    ;
}

/// Law: enabling the levels of a mask and then disabling the same levels
/// restores the control register to its prior value, provided those levels
/// were disabled before the pair of calls. (Without that proviso the pair
/// is not a round trip: it leaves the masked levels disabled, `(ctrl | m) &
/// !m == ctrl & !m`, as after `init`, which enables all four levels.)
pub proof fn lemma_enable_disable_levels_round_trip(ctrl: u16, m: u16)
    requires
        m & !CTRL_LVLEN_MASK == 0,
        ctrl & m == 0,
    ensures
        (ctrl | m) & !m == ctrl,
{
    assert((ctrl | m) & !m == ctrl) by (bit_vector)
        requires
            ctrl & m == 0,
    ;
}

/// Law: a read-modify-write of the priority-control register through a mask
/// that holds only round-robin-enable bits never modifies a bit outside the
/// four round-robin positions, whether the masked bits are set or cleared.
pub proof fn lemma_round_robin_mask_touches_only_rr_bits(prictrl0: u32, m: u32)
    requires
        m & !PRICTRL_RRLVLEN_MASK == 0,
    ensures
        (prictrl0 | m) & !PRICTRL_RRLVLEN_MASK == prictrl0 & !PRICTRL_RRLVLEN_MASK,
        (prictrl0 & !m) & !PRICTRL_RRLVLEN_MASK == prictrl0 & !PRICTRL_RRLVLEN_MASK,
{
    assert((prictrl0 | m) & !PRICTRL_RRLVLEN_MASK == prictrl0 & !PRICTRL_RRLVLEN_MASK && (prictrl0
        & !m) & !PRICTRL_RRLVLEN_MASK == prictrl0 & !PRICTRL_RRLVLEN_MASK) by (bit_vector)
        requires
            m & !PRICTRL_RRLVLEN_MASK == 0,
    ;
}

/// Law: selecting round-robin arbitration for the levels of a mask and then
/// selecting static arbitration for the same levels restores the
/// priority-control register to its prior value, provided round-robin was
/// not already selected for any of those levels. (A software reset clears
/// the whole register, so the proviso holds for every mask on a freshly
/// initialized controller.)
pub proof fn lemma_round_robin_static_round_trip(prictrl0: u32, m: u32)
    requires
        m & !PRICTRL_RRLVLEN_MASK == 0,
        prictrl0 & m == 0,
    ensures
        (prictrl0 | m) & !m == prictrl0,
{
    assert((prictrl0 | m) & !m == prictrl0) by (bit_vector)
        requires
            prictrl0 & m == 0,
    ;
}

} // verus!
