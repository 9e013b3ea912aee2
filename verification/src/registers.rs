//! Model of the DMAC's peripheral-wide register file.
//!
//! The register layout is fixed by the hardware and must be reproduced
//! bit-exact: one 16-bit control register holding the software-reset bit, the
//! global-enable bit and four level-enable bits; one 32-bit priority-control
//! register with a round-robin-enable bit for each priority level, one every
//! eight bits starting at bit 7; and two 32-bit base-address registers for
//! the descriptor and writeback tables.

use vstd::prelude::*;

verus! {

use crate::DmacError;

/// CTRL.SWRST: writing 1 issues a software reset; the bit reads as 1 while
/// the reset is still in progress.
pub const CTRL_SWRST: u16 = 0x0001;
/// CTRL.DMAENABLE: the global DMA enable bit.
pub const CTRL_DMAENABLE: u16 = 0x0002;
/// CTRL.LVLEN0: enable bit for priority level 0.
pub const CTRL_LVLEN0: u16 = 0x0100;
/// CTRL.LVLEN1: enable bit for priority level 1.
pub const CTRL_LVLEN1: u16 = 0x0200;
/// CTRL.LVLEN2: enable bit for priority level 2.
pub const CTRL_LVLEN2: u16 = 0x0400;
/// CTRL.LVLEN3: enable bit for priority level 3.
pub const CTRL_LVLEN3: u16 = 0x0800;
/// All four level-enable bits of the control register.
pub const CTRL_LVLEN_MASK: u16 = 0x0F00;

/// PRICTRL0.RRLVLEN0: round-robin arbitration enable for priority level 0.
pub const PRICTRL_RRLVLEN0: u32 = 0x0000_0080;
/// PRICTRL0.RRLVLEN1: round-robin arbitration enable for priority level 1.
pub const PRICTRL_RRLVLEN1: u32 = 0x0000_8000;
/// PRICTRL0.RRLVLEN2: round-robin arbitration enable for priority level 2.
pub const PRICTRL_RRLVLEN2: u32 = 0x0080_0000;
/// PRICTRL0.RRLVLEN3: round-robin arbitration enable for priority level 3.
pub const PRICTRL_RRLVLEN3: u32 = 0x8000_0000;
/// All four round-robin-enable bits of the priority-control register.
pub const PRICTRL_RRLVLEN_MASK: u32 = 0x8080_8080;

/// Upper bound on the number of CTRL.SWRST polls before a software reset is
/// declared failed. The hardware completes a reset within a bounded number
/// of cycles, so reaching this cap means the peripheral is not responding.
pub const MAX_RESET_POLLS: u32 = 1024;

/// Model of the power manager's two clock gates for the DMAC: the AHB mask
/// bit and the APB bridge mask bit. Both must be open while the controller
/// is in use; `init` opens them and `free` closes them.
pub struct Pm {
    /// AHBMASK.DMAC: the AHB clock gate for the DMAC.
    pub ahbmask_dmac: bool,
    /// APBBMASK.DMAC: the APB bridge clock gate for the DMAC.
    pub apbbmask_dmac: bool,
}

impl Pm {
    /// The power manager with both DMAC clock gates closed.
    pub fn new() -> (r: Pm)
        ensures
            r == (Pm { ahbmask_dmac: false, apbbmask_dmac: false }),
    {
        Pm { ahbmask_dmac: false, apbbmask_dmac: false }
    }
}

/// The DMAC register file.
///
/// `reset_latency` is not a register but the modelled hardware
/// characteristic that the reset spin-loop polls against: the number of
/// reads of CTRL.SWRST that still report an issued reset as in progress.
/// A value above [`MAX_RESET_POLLS`] models a hung peripheral.
pub struct Dmac {
    /// CTRL: software reset, global enable and the four level-enable bits.
    pub ctrl: u16,
    /// PRICTRL0: one round-robin-enable bit per priority level.
    pub prictrl0: u32,
    /// BASEADDR: base address of the descriptor table.
    pub baseaddr: u32,
    /// WRBADDR: base address of the writeback table.
    pub wrbaddr: u32,
    /// How many polls an issued software reset stays in progress.
    pub reset_latency: u32,
}

impl Dmac {
    /// The register file at its power-on values, for a peripheral whose
    /// software reset completes after `reset_latency` polls.
    pub fn at_reset(reset_latency: u32) -> (r: Dmac)
        ensures
            r == (Dmac { ctrl: 0, prictrl0: 0, baseaddr: 0, wrbaddr: 0, reset_latency }),
    {
        Dmac { ctrl: 0, prictrl0: 0, baseaddr: 0, wrbaddr: 0, reset_latency }
    }

    /// Issue a software reset and poll CTRL.SWRST until it clears, giving up
    /// after [`MAX_RESET_POLLS`] polls. On completion every register reverts
    /// to its power-on value; on timeout the registers are left with the
    /// reset still pending and the caller must treat the peripheral as
    /// non-functional.
    pub(crate) fn software_reset(&mut self) -> (r: Result<(), DmacError>)
        ensures
            r is Ok <==> old(self).reset_latency <= MAX_RESET_POLLS,
            r is Ok ==> *final(self) == (Dmac {
                ctrl: 0,
                prictrl0: 0,
                baseaddr: 0,
                wrbaddr: 0,
                reset_latency: old(self).reset_latency,
            }),
            r is Err ==> r == Err::<(), DmacError>(DmacError::ResetTimeout)
                && *final(self) == (Dmac { ctrl: old(self).ctrl | CTRL_SWRST, ..*old(self) }),
    {
        self.ctrl = self.ctrl | CTRL_SWRST;
        let mut polls: u32 = 0;
        while polls < self.reset_latency && polls < MAX_RESET_POLLS
            invariant
                polls <= self.reset_latency,
                polls <= MAX_RESET_POLLS,
                *self == (Dmac { ctrl: old(self).ctrl | CTRL_SWRST, ..*old(self) }),
            decreases self.reset_latency - polls,
        {
            polls = polls + 1;
        }
        if polls >= self.reset_latency {
            self.ctrl = 0;
            self.prictrl0 = 0;
            self.baseaddr = 0;
            self.wrbaddr = 0;
            Ok(())
        } else {
            Err(DmacError::ResetTimeout)
        }
    }
}

} // verus!
