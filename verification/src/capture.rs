use vstd::prelude::*;
use crate::config::{ChnConf, IMPPayloadType};
use crate::encoder::encoder_chn_num_fits;
use crate::stream::{
    spec_arg_chn, spec_arg_payload, spec_pack_arg, spec_thread_save_count, stream_thread_arg,
    thread_save_count, unpack_thread_arg,
};
use crate::config::spec_payload_code;
use crate::encoder::spec_encoder_chn_num;

verus! {

/// How a capture thread ends: with no value, or with an error code in
/// place of its result pointer.
#[derive(Clone, Copy, Debug, PartialEq, Eq, Structural)]
pub enum ThreadExit {
    Null,
    Code(i32),
}

/// The call a capture thread makes next.
#[derive(Clone, Copy, Debug, PartialEq, Eq, Structural)]
pub enum ThreadStep {
    /// Start the encoder channel (a failure is only logged).
    StartRecv,
    /// Open the stream file (video payloads only).
    OpenFile,
    /// Wait up to a second for frame `idx`.
    Poll,
    /// Fetch the frame.
    GetStream,
    /// Save the frame: a JPEG frame to its own snapshot file `idx`, a video
    /// frame to the stream file.
    SaveStream,
    /// Hand the frame back to the encoder.
    Release,
    /// Close the stream file, then stop the encoder channel.
    CloseFile,
    /// Close the stream file after a failed save, then end with the code.
    CloseOnError(i32),
    /// Stop the encoder channel.
    StopRecv,
    /// The thread ends.
    Exit(ThreadExit),
}

/// One capture thread: saves `total` frames of one encoder channel.
pub struct ThreadCapture {
    pub chn_num: i32,
    pub payload: i32,
    pub total: i32,
    pub idx: i32,
    pub step: ThreadStep,
}

/// Whether a payload code is JPEG.
pub open spec fn spec_is_jpeg_code(code: i32) -> bool {
    code == spec_payload_code(IMPPayloadType::PT_JPEG)
}

/// The frames a thread saves for a payload code: a fiftieth of `nr` (at
/// least one) for JPEG, `nr` otherwise.
pub open spec fn spec_thread_total(code: i32, nr: i32) -> int {
    if spec_is_jpeg_code(code) {
        spec_thread_save_count(IMPPayloadType::PT_JPEG, nr)
    } else {
        nr as int
    }
}

/// Where the frame loop goes after frame `idx`: the next frame, or the
/// closing of the file once all `total` have had their turn.
pub open spec fn spec_after_frame(idx: int, total: int) -> ThreadStep {
    if idx + 1 < total { ThreadStep::Poll } else { ThreadStep::CloseFile }
}

/// The step after `st` when its call returned `ret`. Saves report 0 for
/// success and the error code otherwise.
pub open spec fn spec_thread_next(st: ThreadStep, code: i32, idx: int, total: int, ret: i32) -> ThreadStep {
    match st {
        ThreadStep::StartRecv => if spec_is_jpeg_code(code) {
            if total > 0 { ThreadStep::Poll } else { ThreadStep::CloseFile }
        } else {
            ThreadStep::OpenFile
        },
        ThreadStep::OpenFile => if ret < 0 {
            ThreadStep::Exit(ThreadExit::Null)
        } else if total > 0 {
            ThreadStep::Poll
        } else {
            ThreadStep::CloseFile
        },
        ThreadStep::Poll => if ret < 0 { spec_after_frame(idx, total) } else { ThreadStep::GetStream },
        ThreadStep::GetStream => if ret < 0 { ThreadStep::Exit(ThreadExit::Null) } else { ThreadStep::SaveStream },
        ThreadStep::SaveStream => if ret == 0 {
            ThreadStep::Release
        } else if spec_is_jpeg_code(code) {
            ThreadStep::Exit(ThreadExit::Code(ret))
        } else {
            ThreadStep::CloseOnError(ret)
        },
        ThreadStep::Release => spec_after_frame(idx, total),
        ThreadStep::CloseFile => ThreadStep::StopRecv,
        ThreadStep::CloseOnError(c) => ThreadStep::Exit(ThreadExit::Code(c)),
        ThreadStep::StopRecv => ThreadStep::Exit(ThreadExit::Null),
        ThreadStep::Exit(e) => ThreadStep::Exit(e),
    }
}

/// The frame number after `st` returned `ret`: it moves on when a frame's
/// turn ends (a failed wait or a release).
pub open spec fn spec_thread_idx(st: ThreadStep, idx: int, ret: i32) -> int {
    match st {
        ThreadStep::Poll => if ret < 0 { idx + 1 } else { idx },
        ThreadStep::Release => idx + 1,
        _ => idx,
    }
}

/// Work left: eight units per frame still to come, plus the steps left
/// in the current frame's turn and in closing down.
pub open spec fn spec_thread_measure(t: ThreadCapture) -> int {
    let fl = if t.idx < t.total { t.total - t.idx } else { 0 };
    match t.step {
        ThreadStep::StartRecv => 8 * fl + 10,
        ThreadStep::OpenFile => 8 * fl + 9,
        ThreadStep::Poll => 8 * (fl - 1) + 8,
        ThreadStep::GetStream => 8 * (fl - 1) + 7,
        ThreadStep::SaveStream => 8 * (fl - 1) + 6,
        ThreadStep::Release => 8 * (fl - 1) + 5,
        ThreadStep::CloseFile => 2,
        ThreadStep::CloseOnError(_) => 2,
        ThreadStep::StopRecv => 1,
        ThreadStep::Exit(_) => 0,
    }
}

impl ThreadCapture {
    /// The frame number lies within the run while frames are handled.
    pub open spec fn wf(&self) -> bool {
        &&& 0 <= self.idx
        &&& (self.step is Poll || self.step is GetStream || self.step is SaveStream || self.step is Release)
            ==> self.idx < self.total
        &&& (self.step is StartRecv || self.step is OpenFile) ==> self.idx == 0
    }

    /// A capture thread for the word it was started with: channel and
    /// payload unpacked from it, `nr` frames to save for video and a
    /// fiftieth (at least one) for JPEG.
    pub fn start(arg: i32, nr: i32) -> (t: Self)
        ensures
            t.wf(),
            t.chn_num == spec_arg_chn(arg),
            t.payload == spec_arg_payload(arg),
            t.total == spec_thread_total(spec_arg_payload(arg), nr),
            t.idx == 0,
            t.step == ThreadStep::StartRecv,
    {
        let (chn_num, payload) = unpack_thread_arg(arg);
        let total = if payload == 0 { thread_save_count(IMPPayloadType::PT_JPEG, nr) } else { nr };
        ThreadCapture { chn_num, payload, total, idx: 0, step: ThreadStep::StartRecv }
    }

    /// Whether this thread saves JPEG snapshots.
    pub fn is_jpeg(&self) -> (r: bool)
        ensures
            r == spec_is_jpeg_code(self.payload),
    {
        self.payload == 0
    }

    /// Takes the result of the current step's call and moves to the next
    /// step as `spec_thread_next` says; the work left always shrinks, so
    /// the thread ends.
    pub fn on_result(&mut self, ret: i32)
        requires
            old(self).wf(),
            !(old(self).step is Exit),
        ensures
            final(self).wf(),
            final(self).chn_num == old(self).chn_num,
            final(self).payload == old(self).payload,
            final(self).total == old(self).total,
            final(self).step == spec_thread_next(
                old(self).step,
                old(self).payload,
                old(self).idx as int,
                old(self).total as int,
                ret,
            ),
            final(self).idx == spec_thread_idx(old(self).step, old(self).idx as int, ret),
            0 <= spec_thread_measure(*final(self)) < spec_thread_measure(*old(self)),
    {
        let jpeg = self.payload == 0;
        let next_frame = if self.idx < i32::MAX && self.idx + 1 < self.total {
            ThreadStep::Poll
        } else {
            ThreadStep::CloseFile
        };
        match self.step {
            ThreadStep::StartRecv => {
                self.step = if jpeg {
                    if self.total > 0 { ThreadStep::Poll } else { ThreadStep::CloseFile }
                } else {
                    ThreadStep::OpenFile
                };
            },
            ThreadStep::OpenFile => {
                self.step = if ret < 0 {
                    ThreadStep::Exit(ThreadExit::Null)
                } else if self.total > 0 {
                    ThreadStep::Poll
                } else {
                    ThreadStep::CloseFile
                };
            },
            ThreadStep::Poll => {
                if ret < 0 {
                    self.step = next_frame;
                    self.idx = self.idx + 1;
                } else {
                    self.step = ThreadStep::GetStream;
                }
            },
            ThreadStep::GetStream => {
                self.step = if ret < 0 { ThreadStep::Exit(ThreadExit::Null) } else { ThreadStep::SaveStream };
            },
            ThreadStep::SaveStream => {
                self.step = if ret == 0 {
                    ThreadStep::Release
                } else if jpeg {
                    ThreadStep::Exit(ThreadExit::Code(ret))
                } else {
                    ThreadStep::CloseOnError(ret)
                };
            },
            ThreadStep::Release => {
                self.step = next_frame;
                self.idx = self.idx + 1;
            },
            ThreadStep::CloseFile => {
                self.step = ThreadStep::StopRecv;
            },
            ThreadStep::CloseOnError(c) => {
                self.step = ThreadStep::Exit(ThreadExit::Code(c));
            },
            ThreadStep::StopRecv => {
                self.step = ThreadStep::Exit(ThreadExit::Null);
            },
            ThreadStep::Exit(_) => {},
        }
    }
}

/// The capture-thread words of the enabled channels, with their table
/// slots, in table order.
pub open spec fn spec_thread_args(chns: Seq<ChnConf>) -> Seq<(usize, i32)>
    decreases chns.len(),
{
    if chns.len() == 0 {
        Seq::empty()
    } else {
        let rest = spec_thread_args(chns.drop_last());
        let c = chns.last();
        if c.enable {
            rest.push(((chns.len() - 1) as usize, spec_pack_arg(spec_payload_code(c.payload_type), spec_encoder_chn_num(c) as i32)))
        } else {
            rest
        }
    }
}

/// The capture threads to start: one per enabled channel, in table order,
/// each with its table slot and the word that names its encoder channel
/// and payload.
pub fn thread_args(chns: &Vec<ChnConf>) -> (a: Vec<(usize, i32)>)
    requires
        forall|i: int| 0 <= i < chns.len() && (#[trigger] chns@[i]).enable ==> encoder_chn_num_fits(chns@[i]),
    ensures
        a@ == spec_thread_args(chns@),
{
    let mut a: Vec<(usize, i32)> = Vec::new();
    let mut i: usize = 0;
    while i < chns.len()
        invariant
            i <= chns.len(),
            forall|k: int| 0 <= k < chns.len() && (#[trigger] chns@[k]).enable ==> encoder_chn_num_fits(chns@[k]),
            a@ == spec_thread_args(chns@.take(i as int)),
        decreases chns.len() - i,
    {
        assert(chns@.take(i + 1).drop_last() =~= chns@.take(i as int));
        assert(chns@.take(i + 1).last() == chns@[i as int]);
        if chns[i].enable {
            let arg = stream_thread_arg(&chns[i]);
            a.push((i, arg));
        }
        i = i + 1;
    }
    assert(chns@.take(chns.len() as int) =~= chns@);
    a
}

} // verus!
