use embassy_dlyb::dlyb::{
    CfgUpdate, Dlyb, DlybBlock, DlybCfg, DlybRegs, DlybStatus, Error, PollStep, StatusFlag,
    StatusPoll, POLL_LIMIT,
};

fn regs(dll_en: bool, dll_byp_en: bool, rx_tap_sel: u8) -> DlybRegs {
    DlybRegs {
        block: DlybBlock::DlybSdmmc1,
        cfg: DlybCfg { dll_en, dll_byp_en, rx_tap_sel },
    }
}

const CLEAR: DlybStatus = DlybStatus { dll_lock: false, rx_tap_sel_ack: false };
const LOCKED: DlybStatus = DlybStatus { dll_lock: true, rx_tap_sel_ack: false };
const ACKED: DlybStatus = DlybStatus { dll_lock: false, rx_tap_sel_ack: true };

/// Feeds `reads` to `poll` until the wait ends; returns the result and the
/// number of reads made, or `None` if `reads` ran out first.
fn run(mut poll: StatusPoll, reads: &[DlybStatus]) -> Option<(Result<(), Error>, usize)> {
    for (i, status) in reads.iter().enumerate() {
        match poll.step(*status) {
            PollStep::Pending(next) => {
                assert_eq!(next.reads() as usize, i + 1);
                poll = next;
            }
            PollStep::Done(result) => return Some((result, i + 1)),
        }
    }
    None
}

#[test]
fn new_keeps_the_given_registers() {
    let d = Dlyb::new(regs(false, true, 7));
    assert_eq!(d.regs(), regs(false, true, 7));
}

#[test]
fn enable_lock_leaves_bypass_and_enables_dll() {
    let mut d = Dlyb::new(regs(false, true, 9));
    let write = d.enable_lock();
    assert_eq!(d.regs(), regs(true, false, 9));
    assert_eq!(
        write.update(),
        CfgUpdate { dll_en: Some(true), dll_byp_en: Some(false), rx_tap_sel: None }
    );
    let poll = write.written();
    assert_eq!(poll.flag(), StatusFlag::DllLock);
    assert_eq!(poll.reads(), 0);
}

#[test]
fn enable_lock_succeeds_on_first_locked_read() {
    let mut d = Dlyb::new(regs(false, false, 0));
    let poll = d.enable_lock().written();
    assert_eq!(run(poll, &[LOCKED, CLEAR]), Some((Ok(()), 1)));
}

#[test]
fn enable_lock_succeeds_after_some_clear_reads() {
    let mut d = Dlyb::new(regs(false, false, 0));
    let poll = d.enable_lock().written();
    assert_eq!(run(poll, &[CLEAR, CLEAR, CLEAR, LOCKED]), Some((Ok(()), 4)));
}

#[test]
fn enable_lock_ignores_tap_acknowledge() {
    let mut d = Dlyb::new(regs(false, false, 0));
    let poll = d.enable_lock().written();
    assert_eq!(run(poll, &[ACKED, ACKED]), None);
}

#[test]
fn enable_lock_times_out_after_poll_limit_reads() {
    let mut d = Dlyb::new(regs(false, false, 0));
    let poll = d.enable_lock().written();
    let reads = vec![CLEAR; POLL_LIMIT as usize + 5];
    assert_eq!(run(poll, &reads), Some((Err(Error::Timeout), POLL_LIMIT as usize)));
}

#[test]
fn lock_on_last_allowed_read_succeeds() {
    let mut d = Dlyb::new(regs(false, false, 0));
    let poll = d.enable_lock().written();
    let mut reads = vec![CLEAR; POLL_LIMIT as usize - 1];
    reads.push(LOCKED);
    assert_eq!(run(poll, &reads), Some((Ok(()), POLL_LIMIT as usize)));
}

#[test]
fn lock_after_limit_is_not_seen() {
    let mut d = Dlyb::new(regs(false, false, 0));
    let poll = d.enable_lock().written();
    let mut reads = vec![CLEAR; POLL_LIMIT as usize];
    reads.push(LOCKED);
    assert_eq!(run(poll, &reads), Some((Err(Error::Timeout), POLL_LIMIT as usize)));
}

#[test]
fn disable_clears_only_dll_enable() {
    let mut d = Dlyb::new(regs(true, false, 12));
    let update = d.disable();
    assert_eq!(d.regs(), regs(false, false, 12));
    assert_eq!(update, CfgUpdate { dll_en: Some(false), dll_byp_en: None, rx_tap_sel: None });
}

#[test]
fn set_tap_selects_tap_and_waits_for_ack() {
    let mut d = Dlyb::new(regs(true, false, 3));
    let write = d.set_tap(21);
    assert_eq!(d.regs(), regs(true, false, 21));
    assert_eq!(write.update(), CfgUpdate { dll_en: None, dll_byp_en: None, rx_tap_sel: Some(21) });
    let poll = write.written();
    assert_eq!(poll.flag(), StatusFlag::RxTapSelAck);
    assert_eq!(run(poll, &[CLEAR, LOCKED, ACKED]), Some((Ok(()), 3)));
}

#[test]
fn set_tap_times_out_without_ack() {
    let mut d = Dlyb::new(regs(true, false, 3));
    let poll = d.set_tap(4).written();
    let reads = vec![LOCKED; POLL_LIMIT as usize];
    assert_eq!(run(poll, &reads), Some((Err(Error::Timeout), POLL_LIMIT as usize)));
}

#[test]
fn tuning_sequence_keeps_each_field() {
    let mut d = Dlyb::new(regs(false, true, 0));
    let _ = d.enable_lock();
    let _ = d.set_tap(5);
    assert_eq!(d.regs(), regs(true, false, 5));
    d.disable();
    assert_eq!(d.regs(), regs(false, false, 5));
    assert_eq!(d.regs().block, DlybBlock::DlybSdmmc1);
}

#[test]
fn status_flag_selection() {
    assert!(LOCKED.is_set(StatusFlag::DllLock));
    assert!(!LOCKED.is_set(StatusFlag::RxTapSelAck));
    assert!(ACKED.is_set(StatusFlag::RxTapSelAck));
    assert!(!ACKED.is_set(StatusFlag::DllLock));
}
