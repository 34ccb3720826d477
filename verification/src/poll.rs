use vstd::prelude::*;
use crate::config::{ChnConf, IMPPayloadType};
use crate::stream::{fd_save_count, spec_fd_save_count};

verus! {

/// Progress of the fd-driven capture on one channel.
#[derive(Clone, Copy, Debug, PartialEq, Eq, Structural)]
pub struct ChnCapture {
    pub enabled: bool,
    pub saved: i32,
    pub total: i32,
}

/// What to do with the result of waiting on the encoder descriptors.
#[derive(Clone, Copy, Debug, PartialEq, Eq, Structural)]
pub enum SelectAction {
    /// The wait failed: stop the capture with this code.
    Fail(i32),
    /// The wait timed out: wait again.
    Retry,
    /// Some descriptors are ready: serve the ready channels.
    Serve,
}

/// The fd-driven capture over all channels.
pub struct CaptureState {
    pub chns: Vec<ChnCapture>,
}

/// The starting progress of a channel: nothing saved; an enabled channel
/// must save its share of `nr` frames, a disabled one none.
pub open spec fn spec_capture_start(c: ChnConf, nr: i32) -> ChnCapture {
    ChnCapture {
        enabled: c.enable,
        saved: 0,
        total: if c.enable { spec_fd_save_count(c.payload_type, nr) as i32 } else { 0 },
    }
}

/// A channel is still watched while it is enabled and short of its total.
pub open spec fn spec_watched(c: ChnCapture) -> bool {
    c.enabled && c.saved < c.total
}

/// A channel is done once it has saved its total.
pub open spec fn spec_done(c: ChnCapture) -> bool {
    c.saved >= c.total
}

/// Frames still to save on a channel.
pub open spec fn spec_left(c: ChnCapture) -> int {
    if c.saved < c.total { c.total - c.saved } else { 0 }
}

/// Frames still to save over all channels.
pub open spec fn spec_total_left(cs: Seq<ChnCapture>) -> int
    decreases cs.len(),
{
    if cs.len() == 0 {
        0
    } else {
        spec_total_left(cs.drop_last()) + spec_left(cs.last())
    }
}

impl CaptureState {
    /// A disabled channel is never behind.
    pub open spec fn wf(&self) -> bool {
        forall|i: int| 0 <= i < self.chns.len() && !(#[trigger] self.chns@[i]).enabled ==> spec_done(self.chns@[i])
    }

    /// The capture of a channel table, nothing saved yet.
    pub fn start(chns: &Vec<ChnConf>, nr: i32) -> (s: Self)
        ensures
            s.wf(),
            s.chns.len() == chns.len(),
            forall|i: int| 0 <= i < chns.len() ==> #[trigger] s.chns@[i] == spec_capture_start(chns@[i], nr),
    {
        let mut v: Vec<ChnCapture> = Vec::new();
        let mut i: usize = 0;
        while i < chns.len()
            invariant
                i <= chns.len(),
                v.len() == i,
                forall|k: int| 0 <= k < i ==> #[trigger] v@[k] == spec_capture_start(chns@[k], nr),
            decreases chns.len() - i,
        {
            let c = chns[i];
            let total = if c.enable { fd_save_count(c.payload_type, nr) } else { 0 };
            v.push(ChnCapture { enabled: c.enable, saved: 0, total });
            i = i + 1;
        }
        CaptureState { chns: v }
    }

    /// Whether every channel has saved its total.
    pub fn all_saved(&self) -> (r: bool)
        ensures
            r == forall|i: int| 0 <= i < self.chns.len() ==> #[trigger] spec_done(self.chns@[i]),
    {
        let mut i: usize = 0;
        while i < self.chns.len()
            invariant
                i <= self.chns.len(),
                forall|k: int| 0 <= k < i ==> #[trigger] spec_done(self.chns@[k]),
            decreases self.chns.len() - i,
        {
            if self.chns[i].saved < self.chns[i].total {
                assert(!spec_done(self.chns@[i as int]));
                return false;
            }
            i = i + 1;
        }
        true
    }

    /// The channels whose descriptors the next wait covers.
    pub fn watch_set(&self) -> (w: Vec<bool>)
        ensures
            w.len() == self.chns.len(),
            forall|i: int| 0 <= i < self.chns.len() ==> #[trigger] w@[i] == spec_watched(self.chns@[i]),
    {
        let mut w: Vec<bool> = Vec::new();
        let mut i: usize = 0;
        while i < self.chns.len()
            invariant
                i <= self.chns.len(),
                w.len() == i,
                forall|k: int| 0 <= k < i ==> #[trigger] w@[k] == spec_watched(self.chns@[k]),
            decreases self.chns.len() - i,
        {
            let c = self.chns[i];
            w.push(c.enabled && c.saved < c.total);
            i = i + 1;
        }
        w
    }

    /// Whether channel `i` is served when its descriptor readiness is `ready`:
    /// enabled channels with a ready descriptor are.
    pub fn should_serve(&self, i: usize, ready: bool) -> (r: bool)
        requires
            i < self.chns.len(),
        ensures
            r == (self.chns@[i as int].enabled && ready),
    {
        self.chns[i].enabled && ready
    }

    /// Counts one more frame saved on channel `i`.
    pub fn record_saved(&mut self, i: usize)
        requires
            i < old(self).chns.len(),
            old(self).chns@[i as int].saved < i32::MAX,
        ensures
            old(self).wf() ==> final(self).wf(),
            final(self).chns.len() == old(self).chns.len(),
            final(self).chns@[i as int] == (ChnCapture {
                saved: (old(self).chns@[i as int].saved + 1) as i32,
                ..old(self).chns@[i as int]
            }),
            forall|k: int| 0 <= k < old(self).chns.len() && k != i ==> #[trigger] final(self).chns@[k] == old(self).chns@[k],
    {
        let mut c = self.chns[i];
        c.saved = c.saved + 1;
        self.chns.set(i, c);
    }
}

/// The action for the result of a wait: failure below zero, a retry on a
/// timeout (zero), service otherwise.
pub fn on_select(ret: i32) -> (a: SelectAction)
    ensures
        ret < 0 ==> a == SelectAction::Fail(ret),
        ret == 0 ==> a == SelectAction::Retry,
        ret > 0 ==> a == SelectAction::Serve,
{
    if ret < 0 {
        SelectAction::Fail(ret)
    } else if ret == 0 {
        SelectAction::Retry
    } else {
        SelectAction::Serve
    }
}

/// The highest descriptor seen so far.
pub fn max_fd(cur: i32, fd: i32) -> (m: i32)
    ensures
        m == if cur < fd { fd } else { cur },
        m >= cur,
        m >= fd,
{
    if cur < fd { fd } else { cur }
}

/// The capture stops exactly when no channel is left to watch: with
/// disabled channels never behind, all channels have saved their totals
/// if and only if the watch set is empty.
pub proof fn lemma_stop_iff_nothing_watched(s: CaptureState)
    requires
        s.wf(),
    ensures
        (forall|i: int| 0 <= i < s.chns.len() ==> #[trigger] spec_done(s.chns@[i]))
            <==> (forall|i: int| 0 <= i < s.chns.len() ==> !#[trigger] spec_watched(s.chns@[i])),
{
    if forall|i: int| 0 <= i < s.chns.len() ==> !#[trigger] spec_watched(s.chns@[i]) {
        assert forall|i: int| 0 <= i < s.chns.len() implies #[trigger] spec_done(s.chns@[i]) by {
            assert(!spec_watched(s.chns@[i]));
        }
    }
    if forall|i: int| 0 <= i < s.chns.len() ==> #[trigger] spec_done(s.chns@[i]) {
        assert forall|i: int| 0 <= i < s.chns.len() implies !#[trigger] spec_watched(s.chns@[i]) by {
            assert(spec_done(s.chns@[i]));
        }
    }
}

proof fn lemma_total_left_update(cs: Seq<ChnCapture>, i: int, c: ChnCapture)
    requires
        0 <= i < cs.len(),
    ensures
        spec_total_left(cs.update(i, c)) == spec_total_left(cs) - spec_left(cs[i]) + spec_left(c),
    decreases cs.len(),
{
    if i == cs.len() - 1 {
        assert(cs.update(i, c).drop_last() =~= cs.drop_last());
    } else {
        lemma_total_left_update(cs.drop_last(), i, c);
        assert(cs.update(i, c).drop_last() =~= cs.drop_last().update(i, c));
    }
}

/// Saving a frame on a watched channel keeps the channel within its
/// total, keeps every disabled channel done, and lowers the frames left
/// over all channels by one: the capture loop makes progress and ends.
pub proof fn lemma_serve_progress(s: Seq<ChnCapture>, i: int)
    requires
        0 <= i < s.len(),
        spec_watched(s[i]),
    ensures
        ({
            let c = s[i];
            let c2 = ChnCapture { saved: (c.saved + 1) as i32, ..c };
            let s2 = s.update(i, c2);
            &&& c2.saved <= c2.total
            &&& spec_total_left(s2) == spec_total_left(s) - 1
            &&& spec_total_left(s2) >= 0
        }),
{
    let c = s[i];
    let c2 = ChnCapture { saved: (c.saved + 1) as i32, ..c };
    lemma_total_left_update(s, i, c2);
    lemma_total_left_nonneg(s.update(i, c2));
}

proof fn lemma_total_left_nonneg(cs: Seq<ChnCapture>)
    ensures
        spec_total_left(cs) >= 0,
    decreases cs.len(),
{
    if cs.len() > 0 {
        lemma_total_left_nonneg(cs.drop_last());
    }
}


/// Where the descriptor-driven capture stands: the call to make next on a
/// channel (by table slot), a wait on the descriptors, or the end.
#[derive(Clone, Copy, Debug, PartialEq, Eq, Structural)]
pub enum FdStep {
    /// Open the stream file of a video channel.
    Open(usize),
    /// Get the encoder channel's descriptor.
    GetFd(usize),
    /// Start the encoder channel receiving pictures.
    StartRecv(usize),
    /// Wait on the descriptors of the watched channels.
    Select,
    /// Take a stream from a ready channel.
    GetStream(usize),
    /// Save the stream: a snapshot file for JPEG, the stream file otherwise.
    Save(usize),
    /// Release the stream and count the frame saved.
    Release(usize),
    /// Close the stream file after a failed save; the capture then fails with -1.
    CloseAfterFailure(usize),
    /// Stop the encoder channel receiving pictures.
    StopRecv(usize),
    /// Close the channel's stream file.
    Close(usize),
    /// The capture is over.
    Done,
    /// The capture stopped with this error.
    Failed(i32),
}

/// The descriptor-driven capture: each channel's progress, which channels
/// are JPEG, and the next step.
pub struct FdCapture {
    pub state: CaptureState,
    pub jpeg: Vec<bool>,
    pub step: FdStep,
}

/// The first slot at or after `i` whose flag is set (the length when none is).
pub open spec fn spec_first_from(flags: Seq<bool>, i: int) -> int
    decreases flags.len() - i,
{
    if i < 0 || i >= flags.len() {
        flags.len() as int
    } else if flags[i] {
        i
    } else {
        spec_first_from(flags, i + 1)
    }
}

/// Which channels are enabled.
pub open spec fn spec_enabled_flags(cs: Seq<ChnCapture>) -> Seq<bool> {
    Seq::new(cs.len(), |k: int| cs[k].enabled)
}

/// Which channels are served after a wait: the enabled ones whose
/// descriptor is ready.
pub open spec fn spec_serve_flags(cs: Seq<ChnCapture>, ready: Seq<bool>) -> Seq<bool> {
    Seq::new(cs.len(), |k: int| cs[k].enabled && k < ready.len() && ready[k])
}

/// Every channel has saved its total.
pub open spec fn spec_all_done(cs: Seq<ChnCapture>) -> bool {
    forall|k: int| 0 <= k < cs.len() ==> #[trigger] spec_done(cs[k])
}

/// Tear-down from slot `i` on: stop the next enabled channel, or end.
pub open spec fn spec_teardown_from(cs: Seq<ChnCapture>, i: int) -> FdStep {
    let j = spec_first_from(spec_enabled_flags(cs), i);
    if j < cs.len() { FdStep::StopRecv(j as usize) } else { FdStep::Done }
}

/// The head of the capture loop: tear down once every channel has saved
/// its total, wait on the descriptors otherwise.
pub open spec fn spec_loop_step(cs: Seq<ChnCapture>) -> FdStep {
    if spec_all_done(cs) { spec_teardown_from(cs, 0) } else { FdStep::Select }
}

/// Set-up from slot `i` on: the next enabled channel opens its stream file
/// (JPEG channels have none and get their descriptor at once); after the
/// last one the loop begins.
pub open spec fn spec_setup_from(cs: Seq<ChnCapture>, jpeg: Seq<bool>, i: int) -> FdStep {
    let j = spec_first_from(spec_enabled_flags(cs), i);
    if j < cs.len() {
        if jpeg[j] { FdStep::GetFd(j as usize) } else { FdStep::Open(j as usize) }
    } else {
        spec_loop_step(cs)
    }
}

/// Serving from slot `i` on: the next ready channel gives a stream; after
/// the last one the loop comes round again.
pub open spec fn spec_serve_from(cs: Seq<ChnCapture>, ready: Seq<bool>, i: int) -> FdStep {
    let j = spec_first_from(spec_serve_flags(cs, ready), i);
    if j < cs.len() { FdStep::GetStream(j as usize) } else { spec_loop_step(cs) }
}

/// The first step of a capture.
pub open spec fn spec_fd_first(cs: Seq<ChnCapture>, jpeg: Seq<bool>) -> FdStep {
    spec_setup_from(cs, jpeg, 0)
}

/// The progress after a step: releasing a stream counts one more frame
/// saved on its channel.
pub open spec fn spec_fd_state(step: FdStep, cs: Seq<ChnCapture>) -> Seq<ChnCapture> {
    match step {
        FdStep::Release(i) => cs.update(i as int, ChnCapture { saved: (cs[i as int].saved + 1) as i32, ..cs[i as int] }),
        _ => cs,
    }
}

/// The step after `step` returned `ret`, on the progress `cs` after it
/// (`ready` is what the last wait found ready). Set-up calls, waits and
/// stream takes fail with their negative result; a failed JPEG save fails
/// with its result, a failed video save closes the file and fails with -1;
/// a wait that times out comes round again; tear-down results are not
/// looked at.
pub open spec fn spec_fd_next(step: FdStep, cs: Seq<ChnCapture>, jpeg: Seq<bool>, ret: i32, ready: Seq<bool>) -> FdStep {
    match step {
        FdStep::Open(i) => if ret < 0 { FdStep::Failed(ret) } else { FdStep::GetFd(i) },
        FdStep::GetFd(i) => if ret < 0 { FdStep::Failed(ret) } else { FdStep::StartRecv(i) },
        FdStep::StartRecv(i) => if ret < 0 { FdStep::Failed(ret) } else { spec_setup_from(cs, jpeg, i + 1) },
        FdStep::Select => if ret < 0 {
            FdStep::Failed(ret)
        } else if ret == 0 {
            spec_loop_step(cs)
        } else {
            spec_serve_from(cs, ready, 0)
        },
        FdStep::GetStream(i) => if ret < 0 { FdStep::Failed(ret) } else { FdStep::Save(i) },
        FdStep::Save(i) => if ret == 0 {
            FdStep::Release(i)
        } else if jpeg[i as int] {
            FdStep::Failed(ret)
        } else {
            FdStep::CloseAfterFailure(i)
        },
        FdStep::Release(i) => spec_serve_from(cs, ready, i + 1),
        FdStep::CloseAfterFailure(_) => FdStep::Failed(-1i32),
        FdStep::StopRecv(i) => FdStep::Close(i),
        FdStep::Close(i) => spec_teardown_from(cs, i + 1),
        FdStep::Done => FdStep::Done,
        FdStep::Failed(c) => FdStep::Failed(c),
    }
}

/// The slot a step names lies in the table.
pub open spec fn spec_step_in(step: FdStep, n: int) -> bool {
    match step {
        FdStep::Open(i) => i < n,
        FdStep::GetFd(i) => i < n,
        FdStep::StartRecv(i) => i < n,
        FdStep::GetStream(i) => i < n,
        FdStep::Save(i) => i < n,
        FdStep::Release(i) => i < n,
        FdStep::CloseAfterFailure(i) => i < n,
        FdStep::StopRecv(i) => i < n,
        FdStep::Close(i) => i < n,
        _ => true,
    }
}

fn first_from(flags: &Vec<bool>, i: usize) -> (j: usize)
    requires
        i <= flags.len(),
    ensures
        j == spec_first_from(flags@, i as int),
        j <= flags.len(),
{
    let mut j = i;
    while j < flags.len() && !flags[j]
        invariant
            i <= j <= flags.len(),
            spec_first_from(flags@, i as int) == spec_first_from(flags@, j as int),
        decreases flags.len() - j,
    {
        j = j + 1;
    }
    j
}

impl FdCapture {
    /// Progress and JPEG flags cover the same channels, disabled channels
    /// are never behind, and the step names a channel of the table.
    pub open spec fn wf(&self) -> bool {
        &&& self.state.wf()
        &&& self.jpeg.len() == self.state.chns.len()
        &&& spec_step_in(self.step, self.state.chns.len() as int)
    }

    fn enabled_flags(&self) -> (v: Vec<bool>)
        ensures
            v@ == spec_enabled_flags(self.state.chns@),
    {
        let mut v: Vec<bool> = Vec::new();
        let mut i: usize = 0;
        while i < self.state.chns.len()
            invariant
                i <= self.state.chns.len(),
                v@ =~= spec_enabled_flags(self.state.chns@).take(i as int),
            decreases self.state.chns.len() - i,
        {
            v.push(self.state.chns[i].enabled);
            i = i + 1;
        }
        assert(spec_enabled_flags(self.state.chns@).take(i as int) =~= spec_enabled_flags(self.state.chns@));
        v
    }

    fn serve_flags(&self, ready: &Vec<bool>) -> (v: Vec<bool>)
        ensures
            v@ == spec_serve_flags(self.state.chns@, ready@),
    {
        let mut v: Vec<bool> = Vec::new();
        let mut i: usize = 0;
        while i < self.state.chns.len()
            invariant
                i <= self.state.chns.len(),
                v@ =~= spec_serve_flags(self.state.chns@, ready@).take(i as int),
            decreases self.state.chns.len() - i,
        {
            v.push(self.state.chns[i].enabled && i < ready.len() && ready[i]);
            i = i + 1;
        }
        assert(spec_serve_flags(self.state.chns@, ready@).take(i as int) =~= spec_serve_flags(self.state.chns@, ready@));
        v
    }

    fn teardown_from(&self, i: usize) -> (s: FdStep)
        requires
            i <= self.state.chns.len(),
        ensures
            s == spec_teardown_from(self.state.chns@, i as int),
            spec_step_in(s, self.state.chns.len() as int),
    {
        let flags = self.enabled_flags();
        let j = first_from(&flags, i);
        if j < self.state.chns.len() { FdStep::StopRecv(j) } else { FdStep::Done }
    }

    fn loop_step(&self) -> (s: FdStep)
        ensures
            s == spec_loop_step(self.state.chns@),
            spec_step_in(s, self.state.chns.len() as int),
    {
        if self.state.all_saved() {
            self.teardown_from(0)
        } else {
            FdStep::Select
        }
    }

    fn setup_from(&self, i: usize) -> (s: FdStep)
        requires
            i <= self.state.chns.len(),
            self.jpeg.len() == self.state.chns.len(),
        ensures
            s == spec_setup_from(self.state.chns@, self.jpeg@, i as int),
            spec_step_in(s, self.state.chns.len() as int),
    {
        let flags = self.enabled_flags();
        let j = first_from(&flags, i);
        if j < self.state.chns.len() {
            if self.jpeg[j] { FdStep::GetFd(j) } else { FdStep::Open(j) }
        } else {
            self.loop_step()
        }
    }

    fn serve_from(&self, ready: &Vec<bool>, i: usize) -> (s: FdStep)
        requires
            i <= self.state.chns.len(),
        ensures
            s == spec_serve_from(self.state.chns@, ready@, i as int),
            spec_step_in(s, self.state.chns.len() as int),
    {
        let flags = self.serve_flags(ready);
        let j = first_from(&flags, i);
        if j < self.state.chns.len() { FdStep::GetStream(j) } else { self.loop_step() }
    }

    /// The capture of a channel table, nothing saved yet, at its first step.
    pub fn start(chns: &Vec<ChnConf>, nr: i32) -> (c: Self)
        ensures
            c.wf(),
            c.state.chns.len() == chns.len(),
            forall|i: int| 0 <= i < chns.len() ==> #[trigger] c.state.chns@[i] == spec_capture_start(chns@[i], nr),
            c.jpeg.len() == chns.len(),
            forall|i: int| 0 <= i < chns.len() ==> #[trigger] c.jpeg@[i] == (chns@[i].payload_type
                == IMPPayloadType::PT_JPEG),
            c.step == spec_fd_first(c.state.chns@, c.jpeg@),
    {
        let state = CaptureState::start(chns, nr);
        let mut jpeg: Vec<bool> = Vec::new();
        let mut i: usize = 0;
        while i < chns.len()
            invariant
                i <= chns.len(),
                jpeg.len() == i,
                forall|k: int| 0 <= k < i ==> #[trigger] jpeg@[k] == (chns@[k].payload_type == IMPPayloadType::PT_JPEG),
            decreases chns.len() - i,
        {
            jpeg.push(chns[i].payload_type == IMPPayloadType::PT_JPEG);
            i = i + 1;
        }
        let mut c = FdCapture { state, jpeg, step: FdStep::Done };
        c.step = c.setup_from(0);
        c
    }

    /// Takes the result `ret` of the current step (`ready`: which channels'
    /// descriptors the last wait found ready) and moves to the next step.
    pub fn on_result(&mut self, ret: i32, ready: &Vec<bool>)
        requires
            old(self).wf(),
            old(self).step matches FdStep::Release(i) ==> old(self).state.chns@[i as int].saved < i32::MAX,
        ensures
            final(self).wf(),
            final(self).jpeg@ == old(self).jpeg@,
            final(self).state.chns@ == spec_fd_state(old(self).step, old(self).state.chns@),
            final(self).step == spec_fd_next(old(self).step, final(self).state.chns@, old(self).jpeg@, ret, ready@),
    {
        match self.step {
            FdStep::Open(i) => {
                self.step = if ret < 0 { FdStep::Failed(ret) } else { FdStep::GetFd(i) };
            },
            FdStep::GetFd(i) => {
                self.step = if ret < 0 { FdStep::Failed(ret) } else { FdStep::StartRecv(i) };
            },
            FdStep::StartRecv(i) => {
                self.step = if ret < 0 { FdStep::Failed(ret) } else { self.setup_from(i + 1) };
            },
            FdStep::Select => {
                self.step = if ret < 0 {
                    FdStep::Failed(ret)
                } else if ret == 0 {
                    self.loop_step()
                } else {
                    self.serve_from(ready, 0)
                };
            },
            FdStep::GetStream(i) => {
                self.step = if ret < 0 { FdStep::Failed(ret) } else { FdStep::Save(i) };
            },
            FdStep::Save(i) => {
                self.step = if ret == 0 {
                    FdStep::Release(i)
                } else if self.jpeg[i] {
                    FdStep::Failed(ret)
                } else {
                    FdStep::CloseAfterFailure(i)
                };
            },
            FdStep::Release(i) => {
                self.state.record_saved(i);
                assert(self.state.chns@ =~= spec_fd_state(old(self).step, old(self).state.chns@));
                self.step = self.serve_from(ready, i + 1);
            },
            FdStep::CloseAfterFailure(_) => {
                self.step = FdStep::Failed(-1);
            },
            FdStep::StopRecv(i) => {
                self.step = FdStep::Close(i);
            },
            FdStep::Close(i) => {
                self.step = self.teardown_from(i + 1);
            },
            FdStep::Done => {},
            FdStep::Failed(_) => {},
        }
    }
}

} // verus!
