use vstd::prelude::*;
use crate::config::{ChnConf, IMPPayloadType, payload_code, spec_payload_code};
use crate::encoder::{encoder_chn_num, encoder_chn_num_fits, spec_encoder_chn_num, tdiv};

verus! {

/// Frames each video stream saves before it stops.
pub const NR_FRAMES_TO_SAVE: i32 = 200;
/// Capacity of a stream file path built by the fd-driven capture.
pub const STREAM_PATH_CAP: usize = 128;
/// Capacity of a stream file path built by a capture thread.
pub const THREAD_PATH_CAP: usize = 64;
/// Capacity of a snapshot file path.
pub const SNAP_PATH_CAP: usize = 128;

/// "/tmp" followed by its NUL terminator.
pub open spec fn spec_stream_prefix() -> Seq<u8> {
    seq![47u8, 116u8, 109u8, 112u8, 0u8]
}

/// The directory that stream files go to, NUL-terminated ("/tmp\0").
pub fn stream_file_path_prefix() -> (p: Vec<u8>)
    ensures
        p@ == spec_stream_prefix(),
{
    let p: Vec<u8> = vec![47u8, 116u8, 109u8, 112u8, 0u8];
    assert(p@ =~= spec_stream_prefix());
    p
}

/// File suffix of a payload, NUL-terminated: "h264", "h265" or "jpeg".
pub open spec fn spec_suffix(pt: IMPPayloadType) -> Seq<u8> {
    match pt {
        IMPPayloadType::PT_H264 => seq![104u8, 50u8, 54u8, 52u8, 0u8],
        IMPPayloadType::PT_H265 => seq![104u8, 50u8, 54u8, 53u8, 0u8],
        IMPPayloadType::PT_JPEG => seq![106u8, 112u8, 101u8, 103u8, 0u8],
    }
}

/// "none", NUL-terminated: the suffix of an unknown payload code.
pub open spec fn spec_no_suffix() -> Seq<u8> {
    seq![110u8, 111u8, 110u8, 101u8, 0u8]
}

/// The file suffix of a payload type.
pub fn stream_suffix(pt: IMPPayloadType) -> (s: Vec<u8>)
    ensures
        s@ == spec_suffix(pt),
{
    let s: Vec<u8> = match pt {
        IMPPayloadType::PT_H264 => vec![104u8, 50u8, 54u8, 52u8, 0u8],
        IMPPayloadType::PT_H265 => vec![104u8, 50u8, 54u8, 53u8, 0u8],
        IMPPayloadType::PT_JPEG => vec![106u8, 112u8, 101u8, 103u8, 0u8],
    };
    assert(s@ =~= spec_suffix(pt));
    s
}

/// The file suffix of a payload code; codes of no payload type give "none".
pub fn stream_suffix_of_code(code: i32) -> (s: Vec<u8>)
    ensures
        code == 0 ==> s@ == spec_suffix(IMPPayloadType::PT_JPEG),
        code == 1 ==> s@ == spec_suffix(IMPPayloadType::PT_H264),
        code == 2 ==> s@ == spec_suffix(IMPPayloadType::PT_H265),
        !(0 <= code <= 2) ==> s@ == spec_no_suffix(),
{
    if code == 1 {
        stream_suffix(IMPPayloadType::PT_H264)
    } else if code == 2 {
        stream_suffix(IMPPayloadType::PT_H265)
    } else if code == 0 {
        stream_suffix(IMPPayloadType::PT_JPEG)
    } else {
        let s: Vec<u8> = vec![110u8, 111u8, 110u8, 101u8, 0u8];
        assert(s@ =~= spec_no_suffix());
        s
    }
}

/// The word handed to a capture thread: payload code in the high half,
/// encoder channel number in the low half.
pub open spec fn spec_pack_arg(code: i32, chn_num: i32) -> i32 {
    (code << 16u32) | chn_num
}

/// The encoder channel number (low 16 bits) of a capture-thread word.
pub open spec fn spec_arg_chn(val: i32) -> i32 {
    val & 0xffff
}

/// The payload code (bits 16 to 31) of a capture-thread word.
pub open spec fn spec_arg_payload(val: i32) -> i32 {
    (val >> 16u32) & 0xffff
}

/// The word that tells a capture thread which channel and payload it reads.
pub fn stream_thread_arg(chn: &ChnConf) -> (arg: i32)
    requires
        encoder_chn_num_fits(*chn),
    ensures
        arg == spec_pack_arg(spec_payload_code(chn.payload_type), spec_encoder_chn_num(*chn) as i32),
{
    let code = payload_code(chn.payload_type);
    let n = encoder_chn_num(chn);
    (code << 16u32) | n
}

/// Splits a capture-thread word into (encoder channel, payload code).
pub fn unpack_thread_arg(val: i32) -> (r: (i32, i32))
    ensures
        r.0 == spec_arg_chn(val),
        r.1 == spec_arg_payload(val),
{
    (val & 0xffff, (val >> 16u32) & 0xffff)
}

/// Unpacking a capture-thread word gives back the channel and payload
/// that were packed, for channel numbers and payload codes below 2^16.
pub proof fn lemma_thread_arg_roundtrip(code: i32, chn_num: i32)
    requires
        0 <= chn_num < 0x10000,
        0 <= code < 0x10000,
    ensures
        spec_arg_chn(spec_pack_arg(code, chn_num)) == chn_num,
        spec_arg_payload(spec_pack_arg(code, chn_num)) == code,
{
    assert(((code << 16u32) | chn_num) & 0xffff == chn_num) by (bit_vector)
        requires
            0 <= chn_num < 0x10000,
            0 <= code < 0x10000,
    ;
    assert((((code << 16u32) | chn_num) >> 16u32) & 0xffff == code) by (bit_vector)
        requires
            0 <= chn_num < 0x10000,
            0 <= code < 0x10000,
    ;
}

/// Frames a capture thread saves: for JPEG a fiftieth of `nr` (at least
/// one), for video all `nr`.
pub open spec fn spec_thread_save_count(pt: IMPPayloadType, nr: i32) -> int {
    if pt == IMPPayloadType::PT_JPEG {
        if tdiv(nr as int, 50) > 0 { tdiv(nr as int, 50) } else { 1 }
    } else {
        nr as int
    }
}

/// Frames a capture thread saves.
pub fn thread_save_count(pt: IMPPayloadType, nr: i32) -> (n: i32)
    ensures
        n == spec_thread_save_count(pt, nr),
{
    if pt == IMPPayloadType::PT_JPEG {
        if nr / 50 > 0 { nr / 50 } else { 1 }
    } else {
        nr
    }
}

/// Frames the fd-driven capture saves on a channel: for JPEG a fiftieth
/// of `nr` when that is positive and `nr` otherwise, for video all `nr`.
pub open spec fn spec_fd_save_count(pt: IMPPayloadType, nr: i32) -> int {
    if pt == IMPPayloadType::PT_JPEG {
        if tdiv(nr as int, 50) > 0 { tdiv(nr as int, 50) } else { nr as int }
    } else {
        nr as int
    }
}

/// Frames the fd-driven capture saves on a channel.
pub fn fd_save_count(pt: IMPPayloadType, nr: i32) -> (n: i32)
    ensures
        n == spec_fd_save_count(pt, nr),
{
    if pt == IMPPayloadType::PT_JPEG {
        if nr / 50 > 0 { nr / 50 } else { nr }
    } else {
        nr
    }
}

/// The decimal digits of a natural number, most significant first.
pub open spec fn spec_digits(n: nat) -> Seq<u8>
    decreases n,
{
    if n < 10 {
        seq![(48 + n) as u8]
    } else {
        spec_digits(n / 10).push((48 + n % 10) as u8)
    }
}

/// The decimal text of an integer: a '-' before negative numbers.
pub open spec fn spec_decimal(n: int) -> Seq<u8> {
    if n < 0 {
        seq![45u8] + spec_digits((-n) as nat)
    } else {
        spec_digits(n as nat)
    }
}

fn digits(m: u64) -> (d: Vec<u8>)
    ensures
        d@ == spec_digits(m as nat),
    decreases m,
{
    if m < 10 {
        let d: Vec<u8> = vec![(48 + m) as u8];
        assert(d@ =~= spec_digits(m as nat));
        d
    } else {
        let mut d = digits(m / 10);
        d.push((48 + m % 10) as u8);
        d
    }
}

/// The decimal text of a machine integer.
pub fn decimal(n: i32) -> (d: Vec<u8>)
    ensures
        d@ == spec_decimal(n as int),
{
    if n < 0 {
        let m = (-(n as i64)) as u64;
        let mut d: Vec<u8> = vec![45u8];
        let mut t = digits(m);
        d.append(&mut t);
        assert(d@ =~= spec_decimal(n as int));
        d
    } else {
        digits(n as u64)
    }
}

/// A formatting write that did not fit its buffer.
#[derive(Clone, Copy, Debug, PartialEq, Eq, Structural)]
pub struct FmtError;

/// Writes text into a fixed buffer, refusing any write that would not fit.
pub struct ByteArrayWriter {
    pub buffer: Vec<u8>,
    pub position: usize,
}

impl ByteArrayWriter {
    /// The position lies inside the buffer.
    pub open spec fn wf(&self) -> bool {
        self.position <= self.buffer.len()
    }

    /// An empty writer over a zero-filled buffer of `cap` bytes.
    pub fn new(cap: usize) -> (w: Self)
        ensures
            w.wf(),
            w.position == 0,
            w.buffer@ == Seq::new(cap as nat, |i: int| 0u8),
    {
        let mut buffer: Vec<u8> = Vec::new();
        let mut i: usize = 0;
        while i < cap
            invariant
                i <= cap,
                buffer@ =~= Seq::new(i as nat, |k: int| 0u8),
            decreases cap - i,
        {
            buffer.push(0u8);
            i = i + 1;
        }
        ByteArrayWriter { buffer, position: 0 }
    }

    /// Appends `s` at the position, or fails and changes nothing when it
    /// would run past the end of the buffer.
    pub fn write_str(&mut self, s: &Vec<u8>) -> (r: Result<(), FmtError>)
        requires
            old(self).wf(),
        ensures
            final(self).wf(),
            final(self).buffer.len() == old(self).buffer.len(),
            old(self).position + s.len() > old(self).buffer.len() ==> {
                &&& r is Err
                &&& final(self).buffer@ == old(self).buffer@
                &&& final(self).position == old(self).position
            },
            old(self).position + s.len() <= old(self).buffer.len() ==> {
                &&& r is Ok
                &&& final(self).position == old(self).position + s.len()
                &&& final(self).buffer@ == old(self).buffer@.subrange(0, old(self).position as int) + s@
                    + old(self).buffer@.subrange(old(self).position + s.len(), old(self).buffer.len() as int)
            },
    {
        if s.len() > self.buffer.len() - self.position {
            return Err(FmtError);
        }
        let ghost b0 = self.buffer@;
        let p0 = self.position;
        let mut k: usize = 0;
        while k < s.len()
            invariant
                k <= s.len(),
                p0 + s.len() <= b0.len(),
                self.position == p0,
                self.buffer.len() == b0.len(),
                self.buffer@ =~= b0.subrange(0, p0 as int) + s@.subrange(0, k as int)
                    + b0.subrange(p0 + k, b0.len() as int),
            decreases s.len() - k,
        {
            self.buffer.set(p0 + k, s[k]);
            k = k + 1;
        }
        self.position = p0 + s.len();
        Ok(())
    }
}

/// The pieces of a text, joined in order.
pub open spec fn spec_concat(ps: Seq<Seq<u8>>) -> Seq<u8>
    decreases ps.len(),
{
    if ps.len() == 0 {
        Seq::empty()
    } else {
        spec_concat(ps.drop_last()) + ps.last()
    }
}

/// `text` at the start of a zero-filled buffer of `cap` bytes.
pub open spec fn spec_filled(text: Seq<u8>, cap: nat) -> Seq<u8> {
    text + Seq::new((cap - text.len()) as nat, |i: int| 0u8)
}

proof fn lemma_concat_mono(ps: Seq<Seq<u8>>, i: int, j: int)
    requires
        0 <= i <= j <= ps.len(),
    ensures
        spec_concat(ps.take(i)).len() <= spec_concat(ps.take(j)).len(),
    decreases j - i,
{
    if i < j {
        lemma_concat_mono(ps, i, j - 1);
        assert(ps.take(j).drop_last() =~= ps.take(j - 1));
    }
}

/// Writes the pieces one after the other into a zero-filled buffer of
/// `cap` bytes; succeeds exactly when their joined text fits.
fn write_pieces(pieces: &Vec<Vec<u8>>, cap: usize) -> (r: Result<Vec<u8>, FmtError>)
    ensures
        ({
            let text = spec_concat(pieces@.map_values(|v: Vec<u8>| v@));
            &&& r is Ok <==> text.len() <= cap
            &&& r matches Ok(buf) ==> buf@ == spec_filled(text, cap as nat)
        }),
{
    let ghost ps = pieces@.map_values(|v: Vec<u8>| v@);
    let mut w = ByteArrayWriter::new(cap);
    let mut i: usize = 0;
    while i < pieces.len()
        invariant
            i <= pieces.len(),
            ps == pieces@.map_values(|v: Vec<u8>| v@),
            w.wf(),
            w.buffer.len() == cap,
            w.position == spec_concat(ps.take(i as int)).len(),
            w.buffer@ =~= spec_filled(spec_concat(ps.take(i as int)), cap as nat),
        decreases pieces.len() - i,
    {
        assert(ps.take(i + 1).drop_last() =~= ps.take(i as int));
        assert(ps[i as int] == pieces@[i as int]@);
        match w.write_str(&pieces[i]) {
            Ok(()) => {},
            Err(e) => {
                proof {
                    lemma_concat_mono(ps, i + 1, ps.len() as int);
                    assert(ps.take(ps.len() as int) =~= ps);
                }
                return Err(e);
            },
        }
        i = i + 1;
    }
    assert(ps.take(ps.len() as int) =~= ps);
    Ok(w.buffer)
}

/// "/stream-"
pub open spec fn spec_stream_word() -> Seq<u8> {
    seq![47u8, 115u8, 116u8, 114u8, 101u8, 97u8, 109u8, 45u8]
}

/// The text of a stream file path: prefix, "/stream-", the channel number,
/// ".", suffix, each taken whole.
pub open spec fn spec_stream_path_text(prefix: Seq<u8>, chn_num: i32, suffix: Seq<u8>) -> Seq<u8> {
    prefix + spec_stream_word() + spec_decimal(chn_num as int) + seq![46u8] + suffix
}

/// Formats a stream file path into a zero-filled buffer of `cap` bytes;
/// the pieces are copied whole, terminators included. Fails when the text
/// does not fit.
pub fn stream_path(prefix: &Vec<u8>, chn_num: i32, suffix: &Vec<u8>, cap: usize) -> (r: Result<Vec<u8>, FmtError>)
    ensures
        ({
            let text = spec_stream_path_text(prefix@, chn_num, suffix@);
            &&& r is Ok <==> text.len() <= cap
            &&& r matches Ok(buf) ==> buf@ == spec_filled(text, cap as nat)
        }),
{
    let word: Vec<u8> = vec![47u8, 115u8, 116u8, 114u8, 101u8, 97u8, 109u8, 45u8];
    let dot: Vec<u8> = vec![46u8];
    let num = decimal(chn_num);
    let pre = prefix.clone();
    let suf = suffix.clone();
    let ghost views = seq![pre@, word@, num@, dot@, suf@];
    let mut pieces: Vec<Vec<u8>> = Vec::new();
    pieces.push(pre);
    pieces.push(word);
    pieces.push(num);
    pieces.push(dot);
    pieces.push(suf);
    proof {
        let ps = pieces@.map_values(|v: Vec<u8>| v@);
        assert(ps =~= views);
        reveal_with_fuel(spec_concat, 6);
        assert(word@ =~= spec_stream_word());
        assert(dot@ =~= seq![46u8]);
        assert(spec_concat(ps) =~= spec_stream_path_text(prefix@, chn_num, suffix@));
    }
    write_pieces(&pieces, cap)
}

/// The bytes of a NUL-terminated string: everything before the first 0,
/// or all of it when there is none.
pub open spec fn spec_c_str(buf: Seq<u8>) -> Seq<u8> {
    if exists|i: int| 0 <= i < buf.len() && buf[i] == 0 {
        buf.take(choose|i: int| 0 <= i < buf.len() && buf[i] == 0 && forall|k: int| 0 <= k < i ==> buf[k] != 0)
    } else {
        buf
    }
}

/// The length of a NUL-terminated string: the index of the first 0 byte,
/// or the buffer length when there is none.
pub fn c_str_len(buf: &Vec<u8>) -> (n: usize)
    ensures
        n <= buf.len(),
        forall|k: int| 0 <= k < n ==> buf@[k] != 0,
        n < buf.len() ==> buf@[n as int] == 0,
        buf@.take(n as int) == spec_c_str(buf@),
{
    let mut i: usize = 0;
    while i < buf.len()
        invariant
            i <= buf.len(),
            forall|k: int| 0 <= k < i ==> buf@[k] != 0,
        decreases buf.len() - i,
    {
        if buf[i] == 0 {
            proof {
                let c = choose|j: int| 0 <= j < buf@.len() && buf@[j] == 0 && forall|k: int| 0 <= k < j ==> buf@[k] != 0;
                assert(0 <= i < buf@.len() && buf@[i as int] == 0 && forall|k: int| 0 <= k < i ==> buf@[k] != 0);
                assert(c == i);
            }
            return i;
        }
        i = i + 1;
    }
    assert(buf@.take(i as int) =~= buf@);
    i
}

/// The bytes of a NUL-terminated string.
pub fn c_str(buf: &Vec<u8>) -> (s: Vec<u8>)
    ensures
        s@ == spec_c_str(buf@),
{
    let n = c_str_len(buf);
    let mut s: Vec<u8> = Vec::new();
    let mut i: usize = 0;
    while i < n
        invariant
            i <= n,
            n <= buf.len(),
            s@ =~= buf@.take(i as int),
        decreases n - i,
    {
        s.push(buf[i]);
        i = i + 1;
    }
    s
}

/// A stream file path as C formatting builds it: the prefix and suffix
/// as NUL-terminated strings, then a NUL, in a zero-filled 64-byte buffer.
pub open spec fn spec_thread_path(prefix: Seq<u8>, chn_num: i32, suffix: Seq<u8>) -> Seq<u8> {
    spec_filled(
        spec_stream_path_text(spec_c_str(prefix), chn_num, spec_c_str(suffix)).push(0u8),
        THREAD_PATH_CAP as nat,
    )
}

/// Formats the stream file path of a capture thread. The text and its
/// terminator must fit the buffer.
pub fn thread_stream_path(prefix: &Vec<u8>, chn_num: i32, suffix: &Vec<u8>) -> (p: Vec<u8>)
    requires
        spec_stream_path_text(spec_c_str(prefix@), chn_num, spec_c_str(suffix@)).len() < THREAD_PATH_CAP,
    ensures
        p@ == spec_thread_path(prefix@, chn_num, suffix@),
{
    let cp = c_str(prefix);
    let mut cs = c_str(suffix);
    cs.push(0u8);
    match stream_path(&cp, chn_num, &cs, THREAD_PATH_CAP) {
        Ok(buf) => {
            assert(spec_stream_path_text(cp@, chn_num, cs@) =~= spec_stream_path_text(
                spec_c_str(prefix@),
                chn_num,
                spec_c_str(suffix@),
            ).push(0u8));
            buf
        },
        Err(_) => {
            assert(spec_stream_path_text(cp@, chn_num, cs@) =~= spec_stream_path_text(
                spec_c_str(prefix@),
                chn_num,
                spec_c_str(suffix@),
            ).push(0u8));
            assert(false);
            Vec::new()
        },
    }
}

/// The text of a snapshot file path: prefix, "_", index.
pub open spec fn spec_snap_text(prefix: Seq<u8>, idx: i32) -> Seq<u8> {
    prefix + seq![95u8] + spec_decimal(idx as int)
}

/// Formats the file path of snapshot `idx` into a zero-filled 128-byte
/// buffer. Fails when the text does not fit.
pub fn snap_path(prefix: &Vec<u8>, idx: i32) -> (r: Result<Vec<u8>, FmtError>)
    ensures
        ({
            let text = spec_snap_text(prefix@, idx);
            &&& r is Ok <==> text.len() <= SNAP_PATH_CAP
            &&& r matches Ok(buf) ==> buf@ == spec_filled(text, SNAP_PATH_CAP as nat)
        }),
{
    let us: Vec<u8> = vec![95u8];
    let num = decimal(idx);
    let pre = prefix.clone();
    let ghost views = seq![pre@, us@, num@];
    let mut pieces: Vec<Vec<u8>> = Vec::new();
    pieces.push(pre);
    pieces.push(us);
    pieces.push(num);
    proof {
        let ps = pieces@.map_values(|v: Vec<u8>| v@);
        assert(ps =~= views);
        reveal_with_fuel(spec_concat, 4);
        assert(us@ =~= seq![95u8]);
        assert(spec_concat(ps) =~= spec_snap_text(prefix@, idx));
    }
    write_pieces(&pieces, SNAP_PATH_CAP)
}

/// Saves the packs of one encoded frame to a file, in order, stopping at
/// the first write that does not take the whole pack.
pub struct PackWriter {
    pub next: u32,
    pub count: u32,
}

impl PackWriter {
    /// Nothing written yet of `count` packs.
    pub fn new(count: u32) -> (w: Self)
        ensures
            w.next == 0,
            w.count == count,
    {
        PackWriter { next: 0, count }
    }

    /// The pack to write next, if any is left.
    pub fn next_pack(&self) -> (p: Option<u32>)
        ensures
            self.next < self.count ==> p == Some(self.next),
            self.next >= self.count ==> p is None,
    {
        if self.next < self.count {
            Some(self.next)
        } else {
            None
        }
    }

    /// Takes the result `ret` of writing the current pack of `len` bytes:
    /// a full write moves on to the next pack; anything else is an error
    /// (-1) and nothing moves.
    pub fn on_written(&mut self, ret: isize, len: u32) -> (r: Result<(), i32>)
        requires
            old(self).next < old(self).count,
        ensures
            final(self).count == old(self).count,
            ret == len as isize ==> r is Ok && final(self).next == old(self).next + 1,
            ret != len as isize ==> r == Err::<(), i32>(-1i32) && final(self).next == old(self).next,
    {
        if ret != len as isize {
            Err(-1)
        } else {
            self.next = self.next + 1;
            Ok(())
        }
    }
}


/// Where saving a snapshot file stands: open the file, write its packs in
/// order, close it.
#[derive(Clone, Copy, Debug, PartialEq, Eq, Structural)]
pub enum SnapStep {
    /// Open (create or truncate) the file.
    Open,
    /// Write pack `k`.
    Write(u32),
    /// Close the file after a short write; saving then fails with -1.
    CloseAfterFailure,
    /// Close the file after the last pack.
    Close,
    /// Every pack was written and the file closed.
    Saved,
    /// Saving failed with this error.
    Failed(i32),
}

/// Saves the `count` packs of one encoded frame to a snapshot file.
pub struct SnapshotWriter {
    pub count: u32,
    pub step: SnapStep,
}

/// The step after `st` returned `ret` (`len`: the length of the pack just
/// written). A failed open fails with -1 with nothing written or closed; a
/// write that does not take the whole pack closes the file and fails with
/// -1; after the last pack the file is closed; the close's result is not
/// looked at.
pub open spec fn spec_snap_next(st: SnapStep, count: u32, ret: isize, len: u32) -> SnapStep {
    match st {
        SnapStep::Open => if ret < 0 {
            SnapStep::Failed(-1i32)
        } else if count > 0 {
            SnapStep::Write(0)
        } else {
            SnapStep::Close
        },
        SnapStep::Write(k) => if ret != len as isize {
            SnapStep::CloseAfterFailure
        } else if k + 1 < count {
            SnapStep::Write((k + 1) as u32)
        } else {
            SnapStep::Close
        },
        SnapStep::CloseAfterFailure => SnapStep::Failed(-1i32),
        SnapStep::Close => SnapStep::Saved,
        SnapStep::Saved => SnapStep::Saved,
        SnapStep::Failed(c) => SnapStep::Failed(c),
    }
}

/// Whether saving is over.
pub open spec fn spec_snap_over(st: SnapStep) -> bool {
    st is Saved || st is Failed
}

/// The length of the pack a step writes (0 for other steps).
pub open spec fn spec_snap_len(st: SnapStep, lens: Seq<u32>) -> u32 {
    match st {
        SnapStep::Write(k) => lens[k as int],
        _ => 0,
    }
}

/// The steps taken from `st` when each returns the next of `rets` (pack
/// `k` is `lens[k]` bytes long), up to the end of saving or of the results.
pub open spec fn spec_snap_trace(count: u32, st: SnapStep, rets: Seq<isize>, lens: Seq<u32>) -> Seq<SnapStep>
    decreases rets.len(),
{
    if spec_snap_over(st) || rets.len() == 0 {
        Seq::empty()
    } else {
        seq![st] + spec_snap_trace(
            count,
            spec_snap_next(st, count, rets[0], spec_snap_len(st, lens)),
            rets.drop_first(),
            lens,
        )
    }
}

/// The step reached from `st` in the same run.
pub open spec fn spec_snap_end(count: u32, st: SnapStep, rets: Seq<isize>, lens: Seq<u32>) -> SnapStep
    decreases rets.len(),
{
    if spec_snap_over(st) || rets.len() == 0 {
        st
    } else {
        spec_snap_end(
            count,
            spec_snap_next(st, count, rets[0], spec_snap_len(st, lens)),
            rets.drop_first(),
            lens,
        )
    }
}

/// The first pack from `j` on whose write (the result after the open's,
/// `rets[1 + k]` for pack `k`) does not take the whole pack; `count` when
/// there is none.
pub open spec fn spec_first_short(count: u32, rets: Seq<isize>, lens: Seq<u32>, j: int) -> int
    decreases count - j,
{
    if j < 0 || j >= count {
        count as int
    } else if rets[1 + j] != lens[j] as isize {
        j
    } else {
        spec_first_short(count, rets, lens, j + 1)
    }
}

/// The writes made from pack `j` on, given the first short write `m`.
pub open spec fn spec_snap_writes(count: u32, m: int, j: int) -> Seq<SnapStep> {
    let w = if m < count { m + 1 } else { count as int };
    Seq::new((w - j) as nat, |i: int| SnapStep::Write((j + i) as u32))
}

/// How a file opened for the packs is closed, given the first short write `m`.
pub open spec fn spec_snap_close(count: u32, m: int) -> SnapStep {
    if m < count { SnapStep::CloseAfterFailure } else { SnapStep::Close }
}

/// How saving ends, given the first short write `m`.
pub open spec fn spec_snap_outcome(count: u32, m: int) -> SnapStep {
    if m < count { SnapStep::Failed(-1i32) } else { SnapStep::Saved }
}

impl SnapshotWriter {
    /// A pack being written is one of the frame's.
    pub open spec fn wf(&self) -> bool {
        self.step matches SnapStep::Write(k) ==> k < self.count
    }

    /// Saving `count` packs, at the open.
    pub fn new(count: u32) -> (w: Self)
        ensures
            w.wf(),
            w.count == count,
            w.step == SnapStep::Open,
    {
        SnapshotWriter { count, step: SnapStep::Open }
    }

    /// Takes the result `ret` of the current step (for a write, `len` is
    /// the length of the pack written) and moves to the next step.
    pub fn on_result(&mut self, ret: isize, len: u32)
        requires
            old(self).wf(),
        ensures
            final(self).wf(),
            final(self).count == old(self).count,
            final(self).step == spec_snap_next(old(self).step, old(self).count, ret, len),
    {
        self.step = match self.step {
            SnapStep::Open => if ret < 0 {
                SnapStep::Failed(-1i32)
            } else if self.count > 0 {
                SnapStep::Write(0)
            } else {
                SnapStep::Close
            },
            SnapStep::Write(k) => if ret != len as isize {
                SnapStep::CloseAfterFailure
            } else if k + 1 < self.count {
                SnapStep::Write(k + 1)
            } else {
                SnapStep::Close
            },
            SnapStep::CloseAfterFailure => SnapStep::Failed(-1i32),
            SnapStep::Close => SnapStep::Saved,
            SnapStep::Saved => SnapStep::Saved,
            SnapStep::Failed(c) => SnapStep::Failed(c),
        };
    }
}

proof fn lemma_snap_writes(count: u32, rets: Seq<isize>, lens: Seq<u32>, j: int)
    requires
        0 <= j < count,
        rets.len() >= count + 2,
        lens.len() >= count,
    ensures
        ({
            let m = spec_first_short(count, rets, lens, j);
            let r = rets.skip(1 + j);
            &&& j <= m <= count
            &&& spec_snap_trace(count, SnapStep::Write(j as u32), r, lens) == spec_snap_writes(count, m, j)
                + seq![spec_snap_close(count, m)]
            &&& spec_snap_end(count, SnapStep::Write(j as u32), r, lens) == spec_snap_outcome(count, m)
        }),
    decreases count - j,
{
    let m = spec_first_short(count, rets, lens, j);
    let r = rets.skip(1 + j);
    let st = SnapStep::Write(j as u32);
    assert(r.len() >= 2);
    assert(r[0] == rets[1 + j]);
    let r1 = r.drop_first();
    let r2 = r1.drop_first();
    assert(spec_snap_len(st, lens) == lens[j]);
    let next = spec_snap_next(st, count, r[0], lens[j]);
    assert(spec_snap_trace(count, st, r, lens) == seq![st] + spec_snap_trace(count, next, r1, lens));
    assert(spec_snap_end(count, st, r, lens) == spec_snap_end(count, next, r1, lens));
    if rets[1 + j] != lens[j] as isize {
        assert(m == j);
        assert(next == SnapStep::CloseAfterFailure);
        assert(spec_snap_trace(count, SnapStep::Failed(-1i32), r2, lens) =~= Seq::<SnapStep>::empty());
        assert(spec_snap_trace(count, next, r1, lens) == seq![next] + spec_snap_trace(count, SnapStep::Failed(-1i32), r2, lens));
        assert(spec_snap_end(count, next, r1, lens) == spec_snap_end(count, SnapStep::Failed(-1i32), r2, lens));
        assert(spec_snap_writes(count, m, j) =~= seq![st]);
        assert(spec_snap_trace(count, st, r, lens) =~= spec_snap_writes(count, m, j) + seq![spec_snap_close(count, m)]);
    } else if j + 1 < count {
        lemma_snap_writes(count, rets, lens, j + 1);
        assert(r1 =~= rets.skip(1 + (j + 1)));
        assert(next == SnapStep::Write((j + 1) as u32));
        assert(m == spec_first_short(count, rets, lens, j + 1));
        assert(spec_snap_writes(count, m, j) =~= seq![st] + spec_snap_writes(count, m, j + 1));
        assert(spec_snap_trace(count, st, r, lens) =~= spec_snap_writes(count, m, j) + seq![spec_snap_close(count, m)]);
    } else {
        assert(spec_first_short(count, rets, lens, j + 1) == count);
        assert(m == count);
        assert(next == SnapStep::Close);
        assert(spec_snap_trace(count, SnapStep::Saved, r2, lens) =~= Seq::<SnapStep>::empty());
        assert(spec_snap_trace(count, next, r1, lens) == seq![next] + spec_snap_trace(count, SnapStep::Saved, r2, lens));
        assert(spec_snap_end(count, next, r1, lens) == spec_snap_end(count, SnapStep::Saved, r2, lens));
        assert(spec_snap_writes(count, m, j) =~= seq![st]);
        assert(spec_snap_trace(count, st, r, lens) =~= spec_snap_writes(count, m, j) + seq![spec_snap_close(count, m)]);
    }
}

/// Saving a snapshot opens its file once and closes it exactly once when
/// the open succeeded, never otherwise. A failed open fails with -1 with
/// no write and no close. Otherwise the packs are written in order up to
/// and including the first write that does not take the whole pack, then
/// the file is closed; saving succeeds exactly when every pack was
/// written whole, and fails with -1 otherwise. (`rets` holds the open's
/// result, then each write's, then the close's; pack `k` is `lens[k]`
/// bytes long.)
pub proof fn lemma_snapshot_closed_once(count: u32, rets: Seq<isize>, lens: Seq<u32>)
    requires
        rets.len() >= count + 2,
        lens.len() >= count,
    ensures
        rets[0] < 0 ==> spec_snap_trace(count, SnapStep::Open, rets, lens) == seq![SnapStep::Open]
            && spec_snap_end(count, SnapStep::Open, rets, lens) == SnapStep::Failed(-1i32),
        rets[0] >= 0 ==> {
            let m = spec_first_short(count, rets, lens, 0);
            &&& spec_snap_trace(count, SnapStep::Open, rets, lens) == seq![SnapStep::Open]
                + spec_snap_writes(count, m, 0) + seq![spec_snap_close(count, m)]
            &&& spec_snap_end(count, SnapStep::Open, rets, lens) == spec_snap_outcome(count, m)
        },
{
    let st = SnapStep::Open;
    let r1 = rets.drop_first();
    let r2 = r1.drop_first();
    let next = spec_snap_next(st, count, rets[0], 0);
    assert(spec_snap_len(st, lens) == 0);
    assert(spec_snap_trace(count, st, rets, lens) == seq![st] + spec_snap_trace(count, next, r1, lens));
    assert(spec_snap_end(count, st, rets, lens) == spec_snap_end(count, next, r1, lens));
    let m = spec_first_short(count, rets, lens, 0);
    if rets[0] < 0 {
        assert(next == SnapStep::Failed(-1i32));
        assert(spec_snap_trace(count, next, r1, lens) =~= Seq::<SnapStep>::empty());
        assert(spec_snap_trace(count, st, rets, lens) =~= seq![st]);
    } else if count > 0 {
        lemma_snap_writes(count, rets, lens, 0);
        assert(r1 =~= rets.skip(1int));
        assert(next == SnapStep::Write(0));
        assert(spec_snap_trace(count, st, rets, lens) =~= seq![st] + spec_snap_writes(count, m, 0)
            + seq![spec_snap_close(count, m)]);
    } else {
        assert(m == 0);
        assert(next == SnapStep::Close);
        assert(spec_snap_trace(count, SnapStep::Saved, r2, lens) =~= Seq::<SnapStep>::empty());
        assert(spec_snap_trace(count, next, r1, lens) == seq![next] + spec_snap_trace(count, SnapStep::Saved, r2, lens));
        assert(spec_snap_end(count, next, r1, lens) == spec_snap_end(count, SnapStep::Saved, r2, lens));
        assert(spec_snap_writes(count, m, 0) =~= Seq::<SnapStep>::empty());
        assert(spec_snap_trace(count, st, rets, lens) =~= seq![st] + spec_snap_writes(count, m, 0)
            + seq![spec_snap_close(count, m)]);
    }
}

} // verus!
