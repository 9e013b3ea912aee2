use dmac::DmacError;
use dmac::controller::{Ch3, Ch5, ChId, DmaController, PriorityLevelMask, RoundRobinMask, CHANNEL_COUNT};
use dmac::descriptor::TransferDescriptor;
use dmac::registers::{Dmac, Pm, CTRL_DMAENABLE, MAX_RESET_POLLS};

fn fresh_controller() -> (DmaController, Pm) {
    let mut pm = Pm::new();
    let controller = DmaController::init(Dmac::at_reset(0), &mut pm, 0x2000_0000, 0x2000_0200)
        .expect("reset completes immediately");
    (controller, pm)
}

#[test]
fn init_configures_the_peripheral() {
    let mut pm = Pm::new();
    let c = DmaController::init(Dmac::at_reset(3), &mut pm, 0x2000_0000, 0x2000_0200)
        .expect("latency 3 is within the poll budget");
    assert!(pm.ahbmask_dmac);
    assert!(pm.apbbmask_dmac);
    // Global enable plus all four level-enable bits.
    assert_eq!(c.dmac().ctrl, 0x0F02);
    assert_eq!(c.dmac().prictrl0, 0);
    assert_eq!(c.dmac().baseaddr, 0x2000_0000);
    assert_eq!(c.dmac().wrbaddr, 0x2000_0200);
}

#[test]
fn init_reset_timeout_is_fatal() {
    let mut pm = Pm::new();
    let r = DmaController::init(
        Dmac::at_reset(MAX_RESET_POLLS + 1),
        &mut pm,
        0x2000_0000,
        0x2000_0200,
    );
    assert!(matches!(r, Err(DmacError::ResetTimeout)));
}

#[test]
fn init_succeeds_at_the_poll_budget() {
    let mut pm = Pm::new();
    let r = DmaController::init(Dmac::at_reset(MAX_RESET_POLLS), &mut pm, 0, 0);
    assert!(r.is_ok());
}

#[test]
fn level_mask_bits_are_exact() {
    assert_eq!(PriorityLevelMask::new().bits(), 0);
    let m = PriorityLevelMask::new().with_level0(true).with_level3(true);
    assert_eq!(m.bits(), 0x0900);
    assert_eq!(m.with_level0(false).bits(), 0x0800);
    let all = PriorityLevelMask::new()
        .with_level0(true)
        .with_level1(true)
        .with_level2(true)
        .with_level3(true);
    assert_eq!(all.bits(), 0x0F00);
}

#[test]
fn round_robin_mask_bits_are_exact() {
    assert_eq!(RoundRobinMask::new().bits(), 0);
    let m = RoundRobinMask::new().with_level1(true);
    assert_eq!(m.bits(), 0x8000);
    let all = RoundRobinMask::new()
        .with_level0(true)
        .with_level1(true)
        .with_level2(true)
        .with_level3(true);
    assert_eq!(all.bits(), 0x8080_8080);
    assert_eq!(all.with_level2(false).bits(), 0x8000_8080);
}

#[test]
fn enable_then_disable_levels_round_trips_from_disabled() {
    let (mut c, _pm) = fresh_controller();
    // Start with level 1 disabled: init enabled all four.
    let level1 = PriorityLevelMask::new().with_level1(true);
    c.disable_levels(level1);
    let before = c.dmac().ctrl;
    assert_eq!(before, 0x0D02);
    c.enable_levels(level1);
    assert_eq!(c.dmac().ctrl, 0x0F02);
    c.disable_levels(level1);
    assert_eq!(c.dmac().ctrl, before);
}

#[test]
fn level_ops_preserve_other_control_bits() {
    let (mut c, _pm) = fresh_controller();
    let all = PriorityLevelMask::new()
        .with_level0(true)
        .with_level1(true)
        .with_level2(true)
        .with_level3(true);
    c.disable_levels(all);
    // The global enable bit survives the read-modify-write.
    assert_eq!(c.dmac().ctrl & CTRL_DMAENABLE, CTRL_DMAENABLE);
    assert_eq!(c.dmac().ctrl, 0x0002);
    c.enable_levels(all);
    assert_eq!(c.dmac().ctrl, 0x0F02);
}

#[test]
fn round_robin_then_static_round_trips() {
    let (mut c, _pm) = fresh_controller();
    let m = RoundRobinMask::new().with_level0(true).with_level3(true);
    assert_eq!(c.dmac().prictrl0, 0);
    c.round_robin_arbitration(m);
    assert_eq!(c.dmac().prictrl0, 0x8000_0080);
    c.static_arbitration(m);
    assert_eq!(c.dmac().prictrl0, 0);
}

#[test]
fn arbitration_ops_preserve_other_priority_bits() {
    let (mut c, _pm) = fresh_controller();
    // Plant a value in the non-round-robin fields of the register.
    c.dmac_mut().prictrl0 = 0x0000_0015;
    let m = RoundRobinMask::new().with_level0(true);
    c.round_robin_arbitration(m);
    assert_eq!(c.dmac().prictrl0, 0x0000_0095);
    c.static_arbitration(m);
    assert_eq!(c.dmac().prictrl0, 0x0000_0015);
}

#[test]
fn split_yields_every_channel_exactly_once() {
    let (mut c, _pm) = fresh_controller();
    let channels = c.split().expect("first split succeeds");
    assert_eq!(channels.0.len(), CHANNEL_COUNT);
    for (i, ch) in channels.0.iter().enumerate() {
        assert_eq!(ch.id() as usize, i);
        assert!(!ch.enabled());
    }
    let again = c.split();
    assert!(matches!(again, Err(DmacError::AlreadySplit)));
}

#[test]
fn typed_channel_ids_index_the_channels() {
    assert_eq!(Ch5::U8, 5);
    assert_eq!(Ch3::USIZE, 3);
    let (mut c, _pm) = fresh_controller();
    let channels = c.split().expect("first split succeeds");
    assert_eq!(channels.channel::<Ch3>().id(), 3);
    assert_eq!(channels.channel::<Ch5>().id(), 5);
}

#[test]
fn writeback_slots_are_all_zero_after_init() {
    let (mut c, _pm) = fresh_controller();
    let channels = c.split().expect("first split succeeds");
    for ch in channels.0.iter() {
        assert_eq!(ch.writeback(), TransferDescriptor::empty());
        assert!(!ch.writeback().valid);
        assert!(!ch.transfer_complete());
        assert!(!ch.transfer_error());
    }
}

#[test]
fn free_clears_the_global_enable_and_the_clocking() {
    let (mut c, mut pm) = fresh_controller();
    // Whatever masks were set in between, free returns a quiescent block.
    c.enable_levels(PriorityLevelMask::new().with_level2(true));
    c.round_robin_arbitration(RoundRobinMask::new().with_level1(true));
    c.disable_levels(PriorityLevelMask::new().with_level0(true));
    let d = c.free(&mut pm).expect("reset completes immediately");
    assert_eq!(d.ctrl & CTRL_DMAENABLE, 0);
    assert_eq!(d.ctrl, 0);
    assert_eq!(d.prictrl0, 0);
    assert!(!pm.ahbmask_dmac);
    assert!(!pm.apbbmask_dmac);
}
