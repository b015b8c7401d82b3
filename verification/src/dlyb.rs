//! DLYB tuning helpers used by SDMMC for SDR50 / SDR104 sampling.
//!
//! The delay block is driven through two registers: `CFG`, which the driver
//! writes, and `STATUS`, whose flags the hardware raises. This module holds
//! the driver's side of that conversation: what it writes to `CFG`, in which
//! order it writes and reads, and what it decides on each `STATUS` read.
//! Whoever owns the registers makes the write a [`CfgWrite`] names, then
//! hands each `STATUS` value to [`StatusPoll::step`].
use vstd::prelude::*;

verus! {

/// Number of `STATUS` reads a DLYB procedure makes before giving up.
pub const POLL_LIMIT: u32 = 100_000;

/// Errors reported by the delay-block procedures.
#[derive(Clone, Copy, Debug, PartialEq, Eq, Structural)]
pub enum Error {
    /// The awaited status flag did not rise within `POLL_LIMIT` reads.
    Timeout,
}

/// The two delay blocks, one in front of each SDMMC controller.
#[derive(Clone, Copy, Debug, PartialEq, Eq, Structural)]
pub enum DlybBlock {
    /// The register block `DLYB_SDMMC1`.
    DlybSdmmc1,
    /// The register block `DLYB_SDMMC2`.
    DlybSdmmc2,
}

/// The fields of the DLYB `CFG` register that the driver controls.
#[derive(Clone, Copy, Debug, PartialEq, Eq, Structural)]
pub struct DlybCfg {
    /// `SDMMC_DLL_EN`: the delay-locked loop is enabled.
    pub dll_en: bool,
    /// `SDMMC_DLL_BYP_EN`: the delay-locked loop is bypassed.
    pub dll_byp_en: bool,
    /// `SDMMC_RX_TAP_SEL`: the receive sampling tap.
    pub rx_tap_sel: u8,
}

/// One read of the DLYB `STATUS` register.
#[derive(Clone, Copy, Debug, PartialEq, Eq, Structural)]
pub struct DlybStatus {
    /// `SDMMC_DLL_LOCK`: the delay-locked loop has locked.
    pub dll_lock: bool,
    /// `SDMMC_RX_TAP_SEL_ACK`: the last tap selection has taken effect.
    pub rx_tap_sel_ack: bool,
}

/// The `STATUS` flag that a procedure waits for.
#[derive(Clone, Copy, Debug, PartialEq, Eq, Structural)]
pub enum StatusFlag {
    /// Wait for `SDMMC_DLL_LOCK`.
    DllLock,
    /// Wait for `SDMMC_RX_TAP_SEL_ACK`.
    RxTapSelAck,
}

/// A delay block: which register block it is, and what its `CFG` fields hold.
#[derive(Clone, Copy, Debug, PartialEq, Eq, Structural)]
pub struct DlybRegs {
    /// The register block.
    pub block: DlybBlock,
    /// The driver-controlled fields of its `CFG` register.
    pub cfg: DlybCfg,
}

/// The value of `flag` in one `STATUS` read.
pub open spec fn flag_in(status: DlybStatus, flag: StatusFlag) -> bool {
    match flag {
        StatusFlag::DllLock => status.dll_lock,
        StatusFlag::RxTapSelAck => status.rx_tap_sel_ack,
    }
}

impl DlybStatus {
    /// Reads `flag` out of this `STATUS` value.
    pub fn is_set(&self, flag: StatusFlag) -> (r: bool)
        ensures
            r == flag_in(*self, flag),
            flag == StatusFlag::DllLock ==> r == self.dll_lock,
            flag == StatusFlag::RxTapSelAck ==> r == self.rx_tap_sel_ack,
    {
        match flag {
            StatusFlag::DllLock => self.dll_lock,
            StatusFlag::RxTapSelAck => self.rx_tap_sel_ack,
        }
    }
}

/// Each wait tests only its own `STATUS` bit: a wait for `SDMMC_DLL_LOCK`
/// sees the lock bit and a wait for `SDMMC_RX_TAP_SEL_ACK` sees the
/// acknowledge bit, whatever the other bit holds.
pub proof fn lemma_flag_is_own_bit(status: DlybStatus)
    ensures
        flag_in(status, StatusFlag::DllLock) == status.dll_lock,
        flag_in(status, StatusFlag::RxTapSelAck) == status.rx_tap_sel_ack,
        forall|other: bool|
            flag_in(DlybStatus { rx_tap_sel_ack: other, ..status }, StatusFlag::DllLock)
                == flag_in(status, StatusFlag::DllLock),
        forall|other: bool|
            flag_in(DlybStatus { dll_lock: other, ..status }, StatusFlag::RxTapSelAck)
                == flag_in(status, StatusFlag::RxTapSelAck),
{
}

/// A wait, at any point, that reads `STATUS` with its own bit set ends at
/// that read in `Ok`, whatever the other bit holds; with its own bit clear
/// it never ends in `Ok` at that read.
pub proof fn lemma_own_bit_decides(reads: u32, status: DlybStatus, flag: StatusFlag)
    requires
        reads < POLL_LIMIT,
    ensures
        flag == StatusFlag::DllLock ==> (step_view(reads, flag_in(status, flag))
            == PollView::Done(Ok(())) <==> status.dll_lock),
        flag == StatusFlag::RxTapSelAck ==> (step_view(reads, flag_in(status, flag))
            == PollView::Done(Ok(())) <==> status.rx_tap_sel_ack),
{
}

/// Where a wait on a `STATUS` flag stands: still waiting after the given
/// number of reads that found the flag clear, or finished with a result.
#[derive(Clone, Copy, Debug)]
pub enum PollView {
    /// Still waiting; the count is the number of reads made so far.
    Pending(u32),
    /// Finished: `Ok` when the flag was seen set, `Err(Timeout)` otherwise.
    Done(Result<(), Error>),
}

/// One read of the awaited flag, made after `reads` reads that found it clear.
pub open spec fn step_view(reads: u32, set: bool) -> PollView {
    if set {
        PollView::Done(Ok(()))
    } else if reads + 1 >= POLL_LIMIT {
        PollView::Done(Err(Error::Timeout))
    } else {
        PollView::Pending((reads + 1) as u32)
    }
}

/// The state reached from `state` when the awaited flag reads as `flags`,
/// one element per `STATUS` read; reads that come after the wait has
/// finished are not made.
pub open spec fn drive(state: PollView, flags: Seq<bool>) -> PollView
    decreases flags.len(),
{
    if flags.len() == 0 {
        state
    } else {
        match state {
            PollView::Pending(n) => drive(step_view(n, flags[0]), flags.drop_first()),
            PollView::Done(_) => state,
        }
    }
}

/// Whether one of the first `count` reads in `flags` found the flag set.
pub open spec fn seen_within(flags: Seq<bool>, count: int) -> bool {
    exists|i: int| 0 <= i < count && i < flags.len() && #[trigger] flags[i]
}

/// What a wait that has already made `done` clear reads comes to when the
/// next reads of the flag are `flags`: `Ok` if the flag is set in one of the
/// reads that remain of the `POLL_LIMIT` allowed, `Err(Timeout)` if all of
/// them find it clear, and still pending if `flags` runs out first.
pub open spec fn wait_outcome(done: u32, flags: Seq<bool>) -> PollView {
    if seen_within(flags, POLL_LIMIT - done) {
        PollView::Done(Ok(()))
    } else if done + flags.len() >= POLL_LIMIT {
        PollView::Done(Err(Error::Timeout))
    } else {
        PollView::Pending((done + flags.len()) as u32)
    }
}

/// A wait for one `STATUS` flag, as the delay-block procedures make it: at
/// most `POLL_LIMIT` reads, stopping at the first that finds the flag set.
pub struct StatusPoll {
    flag: StatusFlag,
    reads: u32,
}

/// The outcome of one `STATUS` read during a wait.
pub enum PollStep {
    /// The flag was clear and reads remain: read `STATUS` again.
    Pending(StatusPoll),
    /// The wait is over.
    Done(Result<(), Error>),
}

impl StatusPoll {
    #[verifier::type_invariant]
    spec fn inv(self) -> bool {
        self.reads < POLL_LIMIT
    }

    /// The flag this wait is for.
    pub closed spec fn flag_spec(self) -> StatusFlag {
        self.flag
    }

    /// The number of reads made so far, all of which found the flag clear.
    pub closed spec fn reads_spec(self) -> u32 {
        self.reads
    }

    /// Starts a wait for `flag`, before any read.
    fn new(flag: StatusFlag) -> (p: Self)
        ensures
            p.flag_spec() == flag,
            p.reads_spec() == 0,
    {
        StatusPoll { flag, reads: 0 }
    }

    /// The flag this wait is for.
    pub fn flag(&self) -> (f: StatusFlag)
        ensures
            f == self.flag_spec(),
    {
        self.flag
    }

    /// The number of reads made so far.
    pub fn reads(&self) -> (n: u32)
        ensures
            n == self.reads_spec(),
            n < POLL_LIMIT,
    {
        proof {
            use_type_invariant(self);
        }
        self.reads
    }

    /// Takes one `STATUS` read into account: done with `Ok` if it shows the
    /// flag set, done with `Err(Timeout)` if it was the last of the
    /// `POLL_LIMIT` reads allowed, and otherwise pending with one more read
    /// counted.
    pub fn step(self, status: DlybStatus) -> (r: PollStep)
        ensures
            r.view() == step_view(self.reads_spec(), flag_in(status, self.flag_spec())),
            r matches PollStep::Pending(p) ==> p.flag_spec() == self.flag_spec(),
            self.flag_spec() == StatusFlag::DllLock && status.dll_lock
                ==> r.view() == PollView::Done(Ok(())),
            self.flag_spec() == StatusFlag::RxTapSelAck && status.rx_tap_sel_ack
                ==> r.view() == PollView::Done(Ok(())),
            !flag_in(status, self.flag_spec()) && self.reads_spec() + 1 < POLL_LIMIT
                ==> r.view() == PollView::Pending((self.reads_spec() + 1) as u32),
    {
        proof {
            use_type_invariant(&self);
        }
        if status.is_set(self.flag) {
            PollStep::Done(Ok(()))
        } else if self.reads + 1 >= POLL_LIMIT {
            PollStep::Done(Err(Error::Timeout))
        } else {
            PollStep::Pending(StatusPoll { flag: self.flag, reads: self.reads + 1 })
        }
    }
}

impl PollStep {
    /// Where the wait stands after this step.
    pub open spec fn view(self) -> PollView {
        match self {
            PollStep::Pending(p) => PollView::Pending(p.reads_spec()),
            PollStep::Done(r) => PollView::Done(r),
        }
    }
}

/// Stepping a wait through the flag values of successive `STATUS` reads
/// ends where the procedure's loop ends: `Ok` at the first read (of the
/// `POLL_LIMIT` allowed) that finds the flag set, `Err(Timeout)` when all
/// `POLL_LIMIT` reads find it clear, and still pending when fewer reads have
/// been made.
pub proof fn lemma_drive_is_wait_outcome(done: u32, flags: Seq<bool>)
    requires
        done < POLL_LIMIT,
    ensures
        drive(PollView::Pending(done), flags) == wait_outcome(done, flags),
    decreases flags.len(),
{
    if flags.len() == 0 {
        assert(!seen_within(flags, POLL_LIMIT - done));
    } else if flags[0] {
        assert(seen_within(flags, POLL_LIMIT - done));
        lemma_drive_done(Ok(()), flags.drop_first());
    } else if done + 1 >= POLL_LIMIT {
        assert(!seen_within(flags, POLL_LIMIT - done)) by {
            if seen_within(flags, POLL_LIMIT - done) {
                let i = choose|i: int| 0 <= i < POLL_LIMIT - done && i < flags.len() && #[trigger] flags[i];
                assert(i == 0);
            }
        }
        lemma_drive_done(Err(Error::Timeout), flags.drop_first());
    } else {
        let rest = flags.drop_first();
        lemma_drive_is_wait_outcome((done + 1) as u32, rest);
        assert(seen_within(flags, POLL_LIMIT - done) == seen_within(rest, POLL_LIMIT - (done + 1))) by {
            if seen_within(flags, POLL_LIMIT - done) {
                let i = choose|i: int| 0 <= i < POLL_LIMIT - done && i < flags.len() && #[trigger] flags[i];
                assert(i != 0);
                assert(rest[i - 1]);
            }
            if seen_within(rest, POLL_LIMIT - (done + 1)) {
                let j = choose|j: int| 0 <= j < POLL_LIMIT - (done + 1) && j < rest.len() && #[trigger] rest[j];
                assert(flags[j + 1]);
            }
        }
    }
}

/// A fresh wait (as `CfgWrite::written` starts it after the `CFG` write of
/// `Dlyb::enable_lock` or `Dlyb::set_tap`),
/// stepped through the flag values `flags` of successive `STATUS` reads,
/// succeeds exactly when one of the first `POLL_LIMIT` reads finds the flag
/// set, times out exactly when `flags` holds `POLL_LIMIT` reads that all find
/// it clear, and is otherwise still waiting after `flags.len()` reads.
pub proof fn lemma_fresh_wait(flags: Seq<bool>)
    ensures
        drive(PollView::Pending(0), flags) == PollView::Done(Ok(()))
            <==> seen_within(flags, POLL_LIMIT as int),
        drive(PollView::Pending(0), flags) == PollView::Done(Err(Error::Timeout))
            <==> !seen_within(flags, POLL_LIMIT as int) && flags.len() >= POLL_LIMIT,
        drive(PollView::Pending(0), flags) == PollView::Pending(flags.len() as u32)
            <==> !seen_within(flags, POLL_LIMIT as int) && flags.len() < POLL_LIMIT,
{
    lemma_drive_is_wait_outcome(0, flags);
}

/// Once a wait is over, further reads change nothing (and are not made).
pub proof fn lemma_drive_done(result: Result<(), Error>, flags: Seq<bool>)
    ensures
        drive(PollView::Done(result), flags) == PollView::Done(result),
{
}

/// One read-modify-write of `CFG`: each field given as `Some` is set to
/// that value, each `None` field keeps what the register holds.
#[derive(Clone, Copy, Debug, PartialEq, Eq)]
pub struct CfgUpdate {
    /// New value of `SDMMC_DLL_EN`, if it changes.
    pub dll_en: Option<bool>,
    /// New value of `SDMMC_DLL_BYP_EN`, if it changes.
    pub dll_byp_en: Option<bool>,
    /// New value of `SDMMC_RX_TAP_SEL`, if it changes.
    pub rx_tap_sel: Option<u8>,
}

/// The `CFG` fields after `update` is written over `cfg`.
pub open spec fn apply_update(cfg: DlybCfg, update: CfgUpdate) -> DlybCfg {
    DlybCfg {
        dll_en: match update.dll_en {
            Some(v) => v,
            None => cfg.dll_en,
        },
        dll_byp_en: match update.dll_byp_en {
            Some(v) => v,
            None => cfg.dll_byp_en,
        },
        rx_tap_sel: match update.rx_tap_sel {
            Some(v) => v,
            None => cfg.rx_tap_sel,
        },
    }
}

/// The first half of a procedure that writes `CFG` and then waits on
/// `STATUS`: one `CFG` write, to be made before anything else. Only
/// [`CfgWrite::written`], which consumes it, gives the wait; the wait itself
/// only reads `STATUS` and writes nothing. So a procedure makes exactly one
/// `CFG` write, before its first `STATUS` read, and none after.
pub struct CfgWrite {
    update: CfgUpdate,
    flag: StatusFlag,
}

impl CfgWrite {
    /// The `CFG` write to make.
    pub closed spec fn update_spec(self) -> CfgUpdate {
        self.update
    }

    /// The flag that the wait after the write is for.
    pub closed spec fn flag_spec(self) -> StatusFlag {
        self.flag
    }

    /// The `CFG` write to make.
    pub fn update(&self) -> (u: CfgUpdate)
        ensures
            u == self.update_spec(),
    {
        self.update
    }

    /// Called once the `CFG` write has been made: starts the wait, before
    /// any `STATUS` read.
    pub fn written(self) -> (p: StatusPoll)
        ensures
            p.flag_spec() == self.flag_spec(),
            p.reads_spec() == 0,
    {
        StatusPoll::new(self.flag)
    }
}

/// The driver for one delay block. It keeps the block's identity and the
/// `CFG` fields as it has set them; each procedure returns the `CFG` write to
/// make and, where the procedure waits, the `STATUS` wait that follows it.
pub struct Dlyb {
    regs: DlybRegs,
}

impl View for Dlyb {
    type V = DlybRegs;

    closed spec fn view(&self) -> DlybRegs {
        self.regs
    }
}

impl Dlyb {
    /// A driver for the block `regs`, whose `CFG` fields hold `regs.cfg`.
    pub fn new(regs: DlybRegs) -> (d: Self)
        ensures
            d@ == regs,
    {
        Self { regs }
    }

    /// The block and the `CFG` fields as the driver has set them.
    pub fn regs(&self) -> (r: DlybRegs)
        ensures
            r == self@,
    {
        self.regs
    }

    /// Puts the delay block in lock mode: one `CFG` write takes the DLL out
    /// of bypass and enables it, leaving the tap selection as it was; then
    /// the wait for `SDMMC_DLL_LOCK`, which ends in `Err(Error::Timeout)` if
    /// the lock does not come within `POLL_LIMIT` reads.
    pub fn enable_lock(&mut self) -> (w: CfgWrite)
        ensures
            final(self)@.block == old(self)@.block,
            final(self)@.cfg == (DlybCfg {
                dll_en: true,
                dll_byp_en: false,
                rx_tap_sel: old(self)@.cfg.rx_tap_sel,
            }),
            w.update_spec() == (CfgUpdate { dll_en: Some(true), dll_byp_en: Some(false), rx_tap_sel: None }),
            final(self)@.cfg == apply_update(old(self)@.cfg, w.update_spec()),
            w.flag_spec() == StatusFlag::DllLock,
    {
        self.regs.cfg.dll_byp_en = false;
        self.regs.cfg.dll_en = true;
        CfgWrite {
            update: CfgUpdate { dll_en: Some(true), dll_byp_en: Some(false), rx_tap_sel: None },
            flag: StatusFlag::DllLock,
        }
    }

    /// Disables the DLL with one `CFG` write (the returned one); bypass and
    /// tap selection are left as they were. Nothing is waited for.
    pub fn disable(&mut self) -> (u: CfgUpdate)
        ensures
            final(self)@.block == old(self)@.block,
            final(self)@.cfg == (DlybCfg { dll_en: false, ..old(self)@.cfg }),
            u == (CfgUpdate { dll_en: Some(false), dll_byp_en: None, rx_tap_sel: None }),
            final(self)@.cfg == apply_update(old(self)@.cfg, u),
    {
        self.regs.cfg.dll_en = false;
        CfgUpdate { dll_en: Some(false), dll_byp_en: None, rx_tap_sel: None }
    }

    /// Selects the receive sampling tap `tap` with one `CFG` write, leaving
    /// the DLL settings as they were; then the wait for
    /// `SDMMC_RX_TAP_SEL_ACK`, which ends in `Err(Error::Timeout)` if the
    /// acknowledge does not come within `POLL_LIMIT` reads.
    pub fn set_tap(&mut self, tap: u8) -> (w: CfgWrite)
        ensures
            final(self)@.block == old(self)@.block,
            final(self)@.cfg == (DlybCfg { rx_tap_sel: tap, ..old(self)@.cfg }),
            w.update_spec() == (CfgUpdate { dll_en: None, dll_byp_en: None, rx_tap_sel: Some(tap) }),
            final(self)@.cfg == apply_update(old(self)@.cfg, w.update_spec()),
            w.flag_spec() == StatusFlag::RxTapSelAck,
    {
        self.regs.cfg.rx_tap_sel = tap;
        CfgWrite {
            update: CfgUpdate { dll_en: None, dll_byp_en: None, rx_tap_sel: Some(tap) },
            flag: StatusFlag::RxTapSelAck,
        }
    }
}

} // verus!
