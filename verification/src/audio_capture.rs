//! Recording the sound of a process.
//!
//! The device delivers bytes; the rest of the program wants samples, and the recognition wants chunks
//! of them. Samples are opaque here: two bit patterns per frame come in, and what the caller mixes of
//! them goes on.

use vstd::prelude::*;
use std::collections::VecDeque;

verus! {

// ── Errors ─────────────────────────────────────────────

/// What can go wrong with a recording.
#[derive(Debug, Clone)]
pub enum AudioCaptureError {
    ComInitFailed,
    ActivationFailed(String),
    InitFailed(String),
    StartFailed(String),
    CaptureError(String),
    WavWriteFailed(String),
}

impl AudioCaptureError {
    /// What the message says.
    pub open spec fn says(self) -> Seq<char> {
        match self {
            AudioCaptureError::ComInitFailed => "COM 初始化失败"@,
            AudioCaptureError::ActivationFailed(e) => "进程 Loopback 激活失败: "@ + e@,
            AudioCaptureError::InitFailed(e) => "初始化音频客户端失败: "@ + e@,
            AudioCaptureError::StartFailed(e) => "启动音频流失败: "@ + e@,
            AudioCaptureError::CaptureError(e) => "捕获错误: "@ + e@,
            AudioCaptureError::WavWriteFailed(e) => "WAV 文件写入失败: "@ + e@,
        }
    }

    /// The message for the user.
    pub fn message(&self) -> (r: String)
        ensures
            r@ == self.says(),
    {
        let (label, e) = match self {
            AudioCaptureError::ComInitFailed => {
                return "COM 初始化失败".to_string();
            },
            AudioCaptureError::ActivationFailed(e) => ("进程 Loopback 激活失败: ", e),
            AudioCaptureError::InitFailed(e) => ("初始化音频客户端失败: ", e),
            AudioCaptureError::StartFailed(e) => ("启动音频流失败: ", e),
            AudioCaptureError::CaptureError(e) => ("捕获错误: ", e),
            AudioCaptureError::WavWriteFailed(e) => ("WAV 文件写入失败: ", e),
        };
        let mut r = label.to_string();
        r.append(e.as_str());
        r
    }
}

/// What is said of the outcome of a recording: nothing, or the error.
pub open spec fn error_of(outcome: Result<(), AudioCaptureError>) -> Option<Seq<char>> {
    match outcome {
        Ok(_) => None,
        Err(e) => Some(e.says()),
    }
}

// ── The state of a recording ───────────────────────────

/// The state of a recording.
#[derive(Debug, Clone)]
pub enum CaptureState {
    Idle,
    Capturing,
    /// It was asked to end.
    Stopping,
    /// It has ended with an error.
    Error(String),
}

/// What a [`CaptureState`] holds.
pub enum Stage {
    Idle,
    Capturing,
    Stopping,
    Error(Seq<char>),
}

impl Stage {
    /// After it was asked to end.
    pub open spec fn stopped(self) -> Stage {
        if self is Capturing {
            Stage::Stopping
        } else {
            self
        }
    }

    /// After it has ended, with an error or without. An error from before stays.
    pub open spec fn ended(self, error: Option<Seq<char>>) -> Stage {
        match error {
            Some(e) => Stage::Error(e),
            None => if self is Error {
                self
            } else {
                Stage::Idle
            },
        }
    }
}

impl View for CaptureState {
    type V = Stage;

    open spec fn view(&self) -> Stage {
        match *self {
            CaptureState::Idle => Stage::Idle,
            CaptureState::Capturing => Stage::Capturing,
            CaptureState::Stopping => Stage::Stopping,
            CaptureState::Error(e) => Stage::Error(e@),
        }
    }
}

impl PartialEq for CaptureState {
    fn eq(&self, other: &Self) -> (r: bool) {
        match (self, other) {
            (CaptureState::Idle, CaptureState::Idle) => true,
            (CaptureState::Capturing, CaptureState::Capturing) => true,
            (CaptureState::Stopping, CaptureState::Stopping) => true,
            (CaptureState::Error(a), CaptureState::Error(b)) => *a == *b,
            _ => false,
        }
    }
}

impl vstd::std_specs::cmp::PartialEqSpecImpl for CaptureState {
    open spec fn obeys_eq_spec() -> bool {
        true
    }

    open spec fn eq_spec(&self, other: &Self) -> bool {
        self@ == other@
    }
}

impl CaptureState {
    /// Starts a recording, and says whether there is one to start: one that runs goes on.
    pub fn start(&mut self) -> (r: bool)
        ensures
            r <==> !(old(self)@ is Capturing),
            final(self)@ == Stage::Capturing,
    {
        match self {
            CaptureState::Capturing => false,
            _ => {
                *self = CaptureState::Capturing;
                true
            },
        }
    }

    /// Asks a recording that runs to end.
    pub fn stop(&mut self)
        ensures
            final(self)@ == old(self)@.stopped(),
    {
        if let CaptureState::Capturing = self {
            *self = CaptureState::Stopping;
        }
    }

    /// Notes the end of a recording. An error that was noted before stays.
    pub fn end(&mut self, outcome: Result<(), AudioCaptureError>)
        ensures
            final(self)@ == old(self)@.ended(error_of(outcome)),
    {
        match outcome {
            Ok(_) => {
                match self {
                    CaptureState::Error(_) => {},
                    _ => {
                        *self = CaptureState::Idle;
                    },
                }
            },
            Err(e) => {
                *self = CaptureState::Error(e.message());
            },
        }
    }

    /// Whether a recording was asked to end.
    pub fn is_stopping(&self) -> (r: bool)
        ensures
            r <==> self@ is Stopping,
    {
        matches!(self, CaptureState::Stopping)
    }

    /// Whether a recording has ended.
    pub fn has_ended(&self) -> (r: bool)
        ensures
            r <==> self@ is Idle || self@ is Error,
    {
        matches!(self, CaptureState::Idle | CaptureState::Error(_))
    }
}

// ── Bytes and frames ───────────────────────────────────

/// How many samples the device delivers per second.
pub const CAPTURE_SAMPLE_RATE: u32 = 48000;

/// How many bytes make a frame: two samples of four bytes each.
pub const FRAME_BYTES: usize = 8;

/// What to do about the size of the next packet of the device.
pub enum PacketStep {
    /// Read the packet.
    Read,
    /// Go on without reading.
    Skip,
    /// End with an error.
    Leave(AudioCaptureError),
}

/// What to do about the size of the next packet: there may be none, and asking may fail.
pub fn packet_step(size: Result<Option<u32>, String>) -> (r: PacketStep)
    ensures
        match size {
            Ok(Some(n)) => r == (if n > 0 {
                PacketStep::Read
            } else {
                PacketStep::Skip
            }),
            Ok(None) => r == PacketStep::Skip,
            Err(e) => r == PacketStep::Leave(AudioCaptureError::CaptureError(e)),
        },
{
    match size {
        Ok(Some(n)) => if n > 0 {
            PacketStep::Read
        } else {
            PacketStep::Skip
        },
        Ok(None) => PacketStep::Skip,
        Err(e) => PacketStep::Leave(AudioCaptureError::CaptureError(e)),
    }
}

/// What comes of reading a packet: where it fails, the recording ends with an error.
pub fn read_step(outcome: Result<(), String>) -> (r: Result<(), AudioCaptureError>)
    ensures
        match outcome {
            Ok(_) => r is Ok,
            Err(e) => r == Err::<(), AudioCaptureError>(AudioCaptureError::CaptureError(e)),
        },
{
    match outcome {
        Ok(_) => Ok(()),
        Err(e) => Err(AudioCaptureError::CaptureError(e)),
    }
}

/// The number that four bytes are read as, the low ones first.
pub open spec fn word_at(bytes: Seq<u8>, i: int) -> int {
    bytes[i] + 256 * bytes[i + 1] + 65536 * bytes[i + 2] + 16777216 * bytes[i + 3]
}

/// The frame at an index: the bit patterns of its left and right sample.
pub open spec fn frame_at(bytes: Seq<u8>, k: int) -> (int, int) {
    (word_at(bytes, FRAME_BYTES * k), word_at(bytes, FRAME_BYTES * k + 4))
}

fn pop_word(queue: &mut VecDeque<u8>) -> (r: u32)
    requires
        old(queue)@.len() >= 4,
    ensures
        r == word_at(old(queue)@, 0),
        final(queue)@ == old(queue)@.skip(4),
{
    let ghost all = queue@;
    let a = queue.pop_front().unwrap();
    let b = queue.pop_front().unwrap();
    let c = queue.pop_front().unwrap();
    let d = queue.pop_front().unwrap();
    assert(queue@ =~= all.skip(4));
    a as u32 + 256 * b as u32 + 65536 * c as u32 + 16777216 * d as u32
}

/// Takes the whole frames out of the bytes that have come in. What is left is less than a frame.
pub fn take_frames(queue: &mut VecDeque<u8>) -> (r: Vec<(u32, u32)>)
    ensures
        r@.len() == old(queue)@.len() / FRAME_BYTES as nat,
        forall|k: int|
            0 <= k < r@.len() ==> frame_at(old(queue)@, k) == ((#[trigger] r@[k]).0 as int, r@[k].1 as int),
        final(queue)@ == old(queue)@.skip(FRAME_BYTES * r@.len()),
{
    let ghost all = queue@;
    let mut r: Vec<(u32, u32)> = Vec::new();
    assert(all.skip(0) == all);
    while queue.len() >= FRAME_BYTES
        invariant
            FRAME_BYTES * r@.len() <= all.len(),
            queue@ == all.skip(FRAME_BYTES * r@.len()),
            forall|k: int|
                0 <= k < r@.len() ==> frame_at(all, k) == ((#[trigger] r@[k]).0 as int, r@[k].1 as int),
        decreases queue@.len(),
    {
        let ghost n = r@.len() as int;
        let left = pop_word(queue);
        let right = pop_word(queue);
        assert(left == word_at(all, FRAME_BYTES * n));
        assert(right == word_at(all, FRAME_BYTES * n + 4));
        r.push((left, right));
        assert(queue@ =~= all.skip(FRAME_BYTES * (n + 1)));
    }
    r
}

// ── Chunks for the recognition ─────────────────────────

/// How many samples make a chunk: 300 milliseconds.
pub const CHUNK_SAMPLES: usize = 14400;

/// Of silent chunks in a row, every so many is handed on.
pub const SILENT_FEED_EVERY: u32 = 5;

/// Collects samples until there are enough for a chunk, and decides which chunks are handed on. Its
/// view is the samples that wait.
pub struct ChunkFeeder<T> {
    buffer: Vec<T>,
    silent_streak: u32,
}

impl<T> View for ChunkFeeder<T> {
    type V = Seq<T>;

    closed spec fn view(&self) -> Seq<T> {
        self.buffer@
    }
}

/// One more, but no more than the greatest `u32`.
pub open spec fn bumped(n: int) -> int {
    if n < u32::MAX {
        n + 1
    } else {
        n
    }
}

impl<T> ChunkFeeder<T> {
    /// How many silent chunks there were in a row.
    pub closed spec fn streak(self) -> int {
        self.silent_streak as int
    }

    /// A feeder without samples.
    pub fn new() -> (r: Self)
        ensures
            r@ == Seq::<T>::empty(),
            r.streak() == 0,
    {
        ChunkFeeder { buffer: Vec::new(), silent_streak: 0 }
    }

    /// Adds a sample.
    pub fn push(&mut self, sample: T)
        ensures
            final(self)@ == old(self)@.push(sample),
            final(self).streak() == old(self).streak(),
    {
        self.buffer.push(sample);
    }

    /// Takes out all the samples that wait, once there are enough for a chunk.
    pub fn take_chunk(&mut self) -> (r: Option<Vec<T>>)
        ensures
            match r {
                Some(c) => old(self)@.len() >= CHUNK_SAMPLES && c@ == old(self)@ && final(self)@
                    == Seq::<T>::empty(),
                None => old(self)@.len() < CHUNK_SAMPLES && final(self)@ == old(self)@,
            },
            final(self).streak() == old(self).streak(),
    {
        if self.buffer.len() >= CHUNK_SAMPLES {
            let mut chunk: Vec<T> = Vec::new();
            std::mem::swap(&mut chunk, &mut self.buffer);
            Some(chunk)
        } else {
            None
        }
    }

    /// Takes out the samples that are left at the end, if any.
    pub fn take_tail(&mut self) -> (r: Option<Vec<T>>)
        ensures
            match r {
                Some(c) => old(self)@.len() > 0 && c@ == old(self)@,
                None => old(self)@.len() == 0,
            },
            final(self)@ == Seq::<T>::empty(),
            final(self).streak() == old(self).streak(),
    {
        if self.buffer.is_empty() {
            None
        } else {
            let mut tail: Vec<T> = Vec::new();
            std::mem::swap(&mut tail, &mut self.buffer);
            Some(tail)
        }
    }

    /// Whether a chunk is handed on. One with speech always is; of silent ones in a row only every
    /// fifth, so that the recognition keeps its context.
    pub fn should_feed(&mut self, silent: bool) -> (r: bool)
        ensures
            final(self)@ == old(self)@,
            final(self).streak() == (if silent {
                bumped(old(self).streak())
            } else {
                0
            }),
            r <==> !silent || bumped(old(self).streak()) % SILENT_FEED_EVERY as int == 0,
    {
        if silent {
            self.silent_streak = self.silent_streak.saturating_add(1);
            self.silent_streak % SILENT_FEED_EVERY == 0
        } else {
            self.silent_streak = 0;
            true
        }
    }
}

// ── Handing chunks on ──────────────────────────────────

/// The sending side of a channel of `crossbeam_channel`.
#[verifier::external_type_specification]
#[verifier::external_body]
#[verifier::reject_recursive_types(T)]
pub struct ExSender<T>(crossbeam_channel::Sender<T>);

/// What came of handing a chunk on.
#[derive(Debug, PartialEq, Eq, Structural)]
pub enum Delivery {
    Sent,
    /// There was no room for it.
    Full,
    /// Nobody is there to receive it.
    Disconnected,
}

/// `crossbeam_channel::Sender::try_send` puts a message into a channel without waiting. It fails
/// where the channel is full and where its receiver is gone, which depends on what other threads do,
/// so nothing is said of which comes.
#[verifier::external_body]
fn offer<T>(tx: &crossbeam_channel::Sender<Vec<T>>, chunk: Vec<T>) -> (r: Delivery) {
    match tx.try_send(chunk) {
        Ok(()) => Delivery::Sent,
        Err(crossbeam_channel::TrySendError::Full(_)) => Delivery::Full,
        Err(crossbeam_channel::TrySendError::Disconnected(_)) => Delivery::Disconnected,
    }
}

/// Whether handing the chunk to the channel may come to `d`, as the channel has it.
pub closed spec fn offered<T>(
    tx: crossbeam_channel::Sender<Vec<T>>,
    chunk: Vec<T>,
    d: Delivery,
) -> bool {
    call_ensures(offer::<T>, (&tx, chunk), d)
}

/// Counts a chunk that was lost because there was no room for it, and says whether it arrived. That
/// nobody is there to receive it is how a recording ends, and no loss.
pub fn settle(delivery: &Delivery, dropped: &mut u64) -> (r: bool)
    ensures
        r <==> *delivery == Delivery::Sent,
        *final(dropped) == counted(*old(dropped), *delivery),
{
    match delivery {
        Delivery::Sent => true,
        Delivery::Full => {
            *dropped = (*dropped).wrapping_add(1);
            false
        },
        Delivery::Disconnected => false,
    }
}

/// Hands a chunk on without waiting, counts it where it is lost, and says whether it arrived. The
/// channel decides which; see [`settle`].
pub fn deliver_chunk<T>(
    tx: &crossbeam_channel::Sender<Vec<T>>,
    chunk: Vec<T>,
    dropped: &mut u64,
) -> (r: bool)
    ensures
        exists|d: Delivery| #[trigger]
            offered(*tx, chunk, d) && *final(dropped) == counted(*old(dropped), d) && (r <==> d
                == Delivery::Sent),
{
    let delivery = offer(tx, chunk);
    assert(offered(*tx, chunk, delivery));
    settle(&delivery, dropped)
}

// ── A recording ────────────────────────────────────────

/// What an [`AudioCapturer`] holds: the process that it records, with or without the processes that
/// it started; where it is; all the samples; those that wait for the next chunk; how many silent
/// chunks there were in a row; and how many chunks were lost.
#[verifier::ext_equal]
pub struct Recording<T> {
    pub pid: u32,
    pub tree: bool,
    pub stage: Stage,
    pub samples: Seq<T>,
    pub waiting: Seq<T>,
    pub streak: int,
    pub dropped: u64,
}

/// What happens to a recording: a sample comes in, a chunk may be taken out, the rest is taken out,
/// or a chunk was handed on.
pub enum CaptureInput<T> {
    Sample(T),
    Chunk,
    Tail,
    Offered(Delivery),
}

/// The number of lost chunks after one was handed on.
pub open spec fn counted(dropped: u64, delivery: Delivery) -> u64 {
    if delivery == Delivery::Full {
        dropped.wrapping_add(1)
    } else {
        dropped
    }
}

impl<T> Recording<T> {
    /// The recording after something happened to it, and the samples that were taken out.
    pub open spec fn after(self, input: CaptureInput<T>) -> (Recording<T>, Seq<T>) {
        match input {
            CaptureInput::Sample(v) => (
                Recording {
                    samples: self.samples.push(v),
                    waiting: self.waiting.push(v),
                    ..self
                },
                Seq::empty(),
            ),
            CaptureInput::Chunk => if self.waiting.len() >= CHUNK_SAMPLES {
                (Recording { waiting: Seq::empty(), ..self }, self.waiting)
            } else {
                (self, Seq::empty())
            },
            CaptureInput::Tail => (Recording { waiting: Seq::empty(), ..self }, self.waiting),
            CaptureInput::Offered(d) => (
                Recording { dropped: counted(self.dropped, d), ..self },
                Seq::empty(),
            ),
        }
    }

    /// The recording after all the inputs, and all the samples that were taken out.
    pub open spec fn after_all(self, inputs: Seq<CaptureInput<T>>) -> (Recording<T>, Seq<T>)
        decreases inputs.len(),
    {
        if inputs.len() == 0 {
            (self, Seq::empty())
        } else {
            let (r, taken) = self.after_all(inputs.drop_last());
            let (next, out) = r.after(inputs.last());
            (next, taken + out)
        }
    }
}

/// What is left to be done when a recording ends, in this order, and what comes of the recording.
pub struct CaptureEnd<T> {
    /// The samples that are still to be handed on, if any.
    pub tail: Option<Vec<T>>,
    /// Whether the stream of the device is to be stopped.
    pub stop_stream: bool,
    pub outcome: Result<(), AudioCaptureError>,
}

/// Records the sound of a process.
pub struct AudioCapturer<T> {
    target_pid: u32,
    include_tree: bool,
    state: CaptureState,
    accumulated: Vec<T>,
    feeder: ChunkFeeder<T>,
    dropped_count: u64,
}

impl<T> View for AudioCapturer<T> {
    type V = Recording<T>;

    closed spec fn view(&self) -> Recording<T> {
        Recording {
            pid: self.target_pid,
            tree: self.include_tree,
            stage: self.state@,
            samples: self.accumulated@,
            waiting: self.feeder@,
            streak: self.feeder.streak(),
            dropped: self.dropped_count,
        }
    }
}

impl<T> AudioCapturer<T> {
    /// A recording of a process that has not begun. With `include_tree`, the processes that it
    /// started are recorded too.
    pub fn new_with_asr(target_pid: u32, include_tree: bool) -> (r: Self)
        ensures
            r@ == (Recording {
                pid: target_pid,
                tree: include_tree,
                stage: Stage::Idle,
                samples: Seq::<T>::empty(),
                waiting: Seq::<T>::empty(),
                streak: 0,
                dropped: 0,
            }),
    {
        let r = AudioCapturer {
            target_pid,
            include_tree,
            state: CaptureState::Idle,
            accumulated: Vec::new(),
            feeder: ChunkFeeder::new(),
            dropped_count: 0,
        };
        assert(r@ =~= Recording {
            pid: target_pid,
            tree: include_tree,
            stage: Stage::Idle,
            samples: Seq::<T>::empty(),
            waiting: Seq::<T>::empty(),
            streak: 0,
            dropped: 0,
        });
        r
    }

    /// The process that is recorded, and whether those that it started are too.
    pub fn target(&self) -> (r: (u32, bool))
        ensures
            r == (self@.pid, self@.tree),
    {
        (self.target_pid, self.include_tree)
    }

    /// Where the recording is.
    pub fn get_state(&self) -> (r: CaptureState)
        ensures
            r@ == self@.stage,
    {
        match &self.state {
            CaptureState::Idle => CaptureState::Idle,
            CaptureState::Capturing => CaptureState::Capturing,
            CaptureState::Stopping => CaptureState::Stopping,
            CaptureState::Error(e) => CaptureState::Error(e.clone()),
        }
    }

    /// How many samples there are.
    pub fn get_sample_count(&self) -> (r: usize)
        ensures
            r == self@.samples.len(),
    {
        self.accumulated.len()
    }

    /// How many samples make a second.
    pub fn get_sample_rate(&self) -> (r: u32)
        ensures
            r == CAPTURE_SAMPLE_RATE,
    {
        CAPTURE_SAMPLE_RATE
    }

    /// How many chunks were lost.
    pub fn get_dropped_count(&self) -> (r: u64)
        ensures
            r == self@.dropped,
    {
        self.dropped_count
    }

    /// All the samples.
    pub fn samples(&self) -> (r: &Vec<T>)
        ensures
            r@ == self@.samples,
    {
        &self.accumulated
    }

    /// Starts the recording, and says whether there is one to start: one that runs goes on.
    pub fn start_capturing(&mut self) -> (r: bool)
        ensures
            r <==> !(old(self)@.stage is Capturing),
            final(self)@ == (Recording { stage: Stage::Capturing, ..old(self)@ }),
    {
        let ghost was = self@;
        let r = self.state.start();
        assert(self@ =~= Recording { stage: Stage::Capturing, ..was });
        r
    }

    /// Asks a recording that runs to end.
    pub fn stop_capturing(&mut self)
        ensures
            final(self)@ == (Recording { stage: old(self)@.stage.stopped(), ..old(self)@ }),
    {
        let ghost was = self@;
        self.state.stop();
        assert(self@ =~= Recording { stage: was.stage.stopped(), ..was });
    }

    /// Notes the end of the recording. An error that was noted before stays.
    pub fn end_capturing(&mut self, outcome: Result<(), AudioCaptureError>)
        ensures
            final(self)@ == (Recording {
                stage: old(self)@.stage.ended(error_of(outcome)),
                ..old(self)@
            }),
    {
        let ghost was = self@;
        let ghost error = error_of(outcome);
        self.state.end(outcome);
        assert(self@ =~= Recording { stage: was.stage.ended(error), ..was });
    }

    /// Takes out all the samples that wait, once there are enough for a chunk.
    pub fn take_chunk(&mut self) -> (r: Option<Vec<T>>)
        ensures
            final(self)@ == old(self)@.after(CaptureInput::Chunk).0,
            r is Some <==> old(self)@.waiting.len() >= CHUNK_SAMPLES,
            r is Some ==> r->Some_0@ == old(self)@.after(CaptureInput::Chunk).1,
    {
        let ghost was = self@;
        let r = self.feeder.take_chunk();
        assert(self@ =~= was.after(CaptureInput::Chunk).0);
        r
    }

    /// Takes out the samples that are left at the end, if any.
    pub fn take_tail(&mut self) -> (r: Option<Vec<T>>)
        ensures
            final(self)@ == old(self)@.after(CaptureInput::Tail).0,
            r is Some <==> old(self)@.waiting.len() > 0,
            r is Some ==> r->Some_0@ == old(self)@.after(CaptureInput::Tail).1,
    {
        let ghost was = self@;
        let r = self.feeder.take_tail();
        assert(self@ =~= was.after(CaptureInput::Tail).0);
        r
    }

    /// Ends the loop of a recording, because it was asked to end or because of a failure. Either way
    /// the samples that are left are handed on and the stream is stopped.
    pub fn end_step(&mut self, failure: Option<AudioCaptureError>) -> (r: CaptureEnd<T>)
        ensures
            final(self)@ == old(self)@.after(CaptureInput::Tail).0,
            r.tail is Some <==> old(self)@.waiting.len() > 0,
            r.tail is Some ==> r.tail->Some_0@ == old(self)@.after(CaptureInput::Tail).1,
            r.stop_stream,
            match failure {
                None => r.outcome is Ok,
                Some(e) => r.outcome == Err::<(), AudioCaptureError>(e),
            },
    {
        let tail = self.take_tail();
        let outcome = match failure {
            None => Ok(()),
            Some(e) => Err(e),
        };
        CaptureEnd { tail, stop_stream: true, outcome }
    }

    /// Whether a chunk is handed on; see [`ChunkFeeder::should_feed`].
    pub fn should_feed(&mut self, silent: bool) -> (r: bool)
        ensures
            final(self)@ == (Recording {
                streak: if silent {
                    bumped(old(self)@.streak)
                } else {
                    0
                },
                ..old(self)@
            }),
            r <==> !silent || bumped(old(self)@.streak) % SILENT_FEED_EVERY as int == 0,
    {
        let ghost was = self@;
        let r = self.feeder.should_feed(silent);
        assert(self@ =~= Recording {
            streak: if silent {
                bumped(was.streak)
            } else {
                0
            },
            ..was
        });
        r
    }

    /// Counts a chunk that was lost, and says whether it arrived.
    pub fn settle(&mut self, delivery: &Delivery) -> (r: bool)
        ensures
            final(self)@ == old(self)@.after(CaptureInput::Offered(*delivery)).0,
            r <==> *delivery == Delivery::Sent,
    {
        let ghost was = self@;
        let r = settle(delivery, &mut self.dropped_count);
        assert(self@ =~= was.after(CaptureInput::Offered(*delivery)).0);
        r
    }

    /// Hands a chunk on without waiting, counts it where it is lost, and says whether it arrived. The
    /// channel decides which; see [`AudioCapturer::settle`].
    pub fn deliver(&mut self, tx: &crossbeam_channel::Sender<Vec<T>>, chunk: Vec<T>) -> (r: bool)
        ensures
            exists|d: Delivery| #[trigger]
                offered(*tx, chunk, d) && final(self)@ == old(self)@.after(
                    CaptureInput::Offered(d),
                ).0 && (r <==> d == Delivery::Sent),
    {
        let delivery = offer(tx, chunk);
        assert(offered(*tx, chunk, delivery));
        self.settle(&delivery)
    }
}

impl<T: Copy> AudioCapturer<T> {
    /// Takes in a sample.
    pub fn sample(&mut self, v: T)
        ensures
            final(self)@ == old(self)@.after(CaptureInput::Sample(v)).0,
    {
        let ghost was = self@;
        self.accumulated.push(v);
        self.feeder.push(v);
        assert(self@ =~= was.after(CaptureInput::Sample(v)).0);
    }
}

// ── The recording as a file ────────────────────────────

/// The error where there is nothing to write to a file.
pub fn check_samples(count: usize) -> (r: Result<(), AudioCaptureError>)
    ensures
        r is Ok <==> count > 0,
        r is Err ==> r->Err_0 is WavWriteFailed && r->Err_0.says() == "WAV 文件写入失败: "@
            + "没有音频数据"@,
{
    if count == 0 {
        Err(AudioCaptureError::WavWriteFailed("没有音频数据".to_string()))
    } else {
        Ok(())
    }
}

// ── Laws ───────────────────────────────────────────────

/// A recording that has no samples yet.
pub open spec fn is_empty<T>(r: Recording<T>) -> bool {
    r.samples.len() == 0 && r.waiting.len() == 0
}

/// The samples among the inputs.
pub open spec fn samples_of<T>(inputs: Seq<CaptureInput<T>>) -> Seq<T>
    decreases inputs.len(),
{
    if inputs.len() == 0 {
        Seq::empty()
    } else {
        let before = samples_of(inputs.drop_last());
        match inputs.last() {
            CaptureInput::Sample(v) => before.push(v),
            _ => before,
        }
    }
}

/// How many of the chunks that were handed on were lost.
pub open spec fn losses_of<T>(inputs: Seq<CaptureInput<T>>) -> nat
    decreases inputs.len(),
{
    if inputs.len() == 0 {
        0
    } else {
        let before = losses_of(inputs.drop_last());
        match inputs.last() {
            CaptureInput::Offered(Delivery::Full) => before + 1,
            _ => before,
        }
    }
}

/// The recording holds every sample that came in, each once and in order, whatever became of the
/// chunks.
pub proof fn the_recording_is_whole<T>(r: Recording<T>, inputs: Seq<CaptureInput<T>>)
    requires
        is_empty(r),
    ensures
        r.after_all(inputs).0.samples == samples_of(inputs),
    decreases inputs.len(),
{
    if inputs.len() > 0 {
        the_recording_is_whole(r, inputs.drop_last());
    }
    assert(r.after_all(inputs).0.samples =~= samples_of(inputs));
}

/// The chunks and what still waits are all the samples that came in, each once and in order.
pub proof fn chunks_hold_every_sample<T>(r: Recording<T>, inputs: Seq<CaptureInput<T>>)
    requires
        is_empty(r),
    ensures
        r.after_all(inputs).1 + r.after_all(inputs).0.waiting == samples_of(inputs),
    decreases inputs.len(),
{
    if inputs.len() > 0 {
        chunks_hold_every_sample(r, inputs.drop_last());
        let (before, taken) = r.after_all(inputs.drop_last());
        let (next, out) = before.after(inputs.last());
        assert(taken + out + next.waiting =~= samples_of(inputs));
    } else {
        assert(r.after_all(inputs).1 + r.after_all(inputs).0.waiting =~= samples_of(inputs));
    }
}

/// After the end nothing waits, so that the chunks are all the samples.
pub proof fn nothing_waits_after_the_end<T>(r: Recording<T>, inputs: Seq<CaptureInput<T>>)
    requires
        is_empty(r),
        inputs.len() > 0,
        inputs.last() is Tail,
    ensures
        r.after_all(inputs).1 == samples_of(inputs),
{
    chunks_hold_every_sample(r, inputs);
    assert(r.after_all(inputs).1 + Seq::<T>::empty() =~= r.after_all(inputs).1);
}

/// Every chunk that was lost is counted, and nothing else is.
pub proof fn losses_are_counted<T>(r: Recording<T>, inputs: Seq<CaptureInput<T>>)
    requires
        r.dropped + losses_of(inputs) <= u64::MAX,
    ensures
        r.after_all(inputs).0.dropped == r.dropped + losses_of(inputs),
    decreases inputs.len(),
{
    if inputs.len() > 0 {
        losses_are_counted(r, inputs.drop_last());
    }
}

/// The streak after `n` silent chunks in a row.
pub open spec fn streak_after(n: nat) -> int
    decreases n,
{
    if n == 0 {
        0
    } else {
        bumped(streak_after((n - 1) as nat))
    }
}

/// Of silent chunks in a row exactly every fifth is handed on.
pub proof fn every_fifth_silent_chunk_is_fed(n: nat)
    requires
        0 < n <= u32::MAX,
    ensures
        streak_after(n) == n,
        bumped(streak_after((n - 1) as nat)) % SILENT_FEED_EVERY as int == 0 <==> n % 5 == 0,
    decreases n,
{
    if n > 1 {
        every_fifth_silent_chunk_is_fed((n - 1) as nat);
    } else {
        assert(streak_after(0) == 0);
    }
}

/// Asking twice for the end is the same as asking once, and never starts a recording.
pub proof fn stopping_twice_is_stopping_once(s: Stage)
    ensures
        s.stopped().stopped() == s.stopped(),
        !(s.stopped() is Capturing),
{
}

/// A recording that was asked to end can be started again once it has ended, whatever came of it.
pub proof fn recordings_can_follow_each_other(s: Stage, error: Option<Seq<char>>)
    ensures
        !(s.stopped().ended(error) is Capturing),
        error is None && !(s is Error) ==> s.stopped().ended(error) is Idle,
{
}

/// A recording that is asked to start runs, and only one that runs already is none to start; asking
/// one to end has it end where it runs, and changes nothing where it does not.
pub proof fn recordings_start_and_stop(s: &mut CaptureState, r: bool, t: &mut CaptureState)
    requires
        call_ensures(CaptureState::start, (s,), r),
        call_ensures(CaptureState::stop, (t,), ()),
    ensures
        final(s)@ is Capturing,
        r <==> !(old(s)@ is Capturing),
        old(t)@ is Capturing ==> final(t)@ is Stopping,
        !(old(t)@ is Capturing) ==> final(t)@ == old(t)@,
{
}

/// A recording that went wrong has ended with an error that says what, one that went well has ended
/// without, unless there was an error before.
pub proof fn recordings_end(
    s: &mut CaptureState,
    outcome: Result<(), AudioCaptureError>,
    ended: &CaptureState,
    r: bool,
)
    requires
        call_ensures(CaptureState::end, (s, outcome), ()),
        ended@ == final(s)@,
        call_ensures(CaptureState::has_ended, (ended,), r),
    ensures
        r,
        outcome matches Err(e) ==> final(s)@ == Stage::Error(e.says()),
        outcome is Ok && !(old(s)@ is Error) ==> final(s)@ is Idle,
        outcome is Ok && old(s)@ is Error ==> final(s)@ == old(s)@,
{
}

/// The message of an error that comes with one of the system ends with that.
pub proof fn errors_say_what_the_system_said(e: String)
    ensures
        e@.is_suffix_of(AudioCaptureError::ActivationFailed(e).says()),
        e@.is_suffix_of(AudioCaptureError::InitFailed(e).says()),
        e@.is_suffix_of(AudioCaptureError::StartFailed(e).says()),
        e@.is_suffix_of(AudioCaptureError::CaptureError(e).says()),
        e@.is_suffix_of(AudioCaptureError::WavWriteFailed(e).says()),
{
    lemma_behind_label("进程 Loopback 激活失败: "@, e@);
    lemma_behind_label("初始化音频客户端失败: "@, e@);
    lemma_behind_label("启动音频流失败: "@, e@);
    lemma_behind_label("捕获错误: "@, e@);
    lemma_behind_label("WAV 文件写入失败: "@, e@);
}

proof fn lemma_behind_label(label: Seq<char>, e: Seq<char>)
    ensures
        e.is_suffix_of(label + e),
{
    assert((label + e).subrange(label.len() as int, (label + e).len() as int) =~= e);
}

/// A packet is read exactly where there is one; where the device fails, to tell or to read, the
/// recording ends with the error.
pub proof fn packets_and_failures(
    size: Result<Option<u32>, String>,
    step: PacketStep,
    outcome: Result<(), String>,
    read: Result<(), AudioCaptureError>,
)
    requires
        call_ensures(packet_step, (size,), step),
        call_ensures(read_step, (outcome,), read),
    ensures
        step is Read <==> (size matches Ok(Some(n)) && n > 0),
        step is Leave <==> size is Err,
        size matches Err(e) ==> step == PacketStep::Leave(AudioCaptureError::CaptureError(e)),
        read is Ok <==> outcome is Ok,
        outcome matches Err(e) ==> read == Err::<(), _>(AudioCaptureError::CaptureError(e)),
{
}

/// The byte at a place of a number: its digit to the base of 256.
pub open spec fn byte_of(n: int, place: nat) -> int
    decreases place,
{
    if place == 0 {
        n % 256
    } else {
        byte_of(n / 256, (place - 1) as nat)
    }
}

/// Of the bytes that have come in, every eight in a row make a frame, in order: the first four are the
/// left sample and the others the right one, each with its low byte first. Less than a frame is left.
pub proof fn frames_are_eight_bytes(
    queue: &mut VecDeque<u8>,
    r: Vec<(u32, u32)>,
    k: int,
    place: nat,
)
    requires
        call_ensures(take_frames, (queue,), r),
        0 <= k < r@.len(),
        place < 4,
    ensures
        r@.len() == old(queue)@.len() / 8,
        byte_of(r@[k].0 as int, place) == old(queue)@[8 * k + place],
        byte_of(r@[k].1 as int, place) == old(queue)@[8 * k + 4 + place],
        final(queue)@ == old(queue)@.skip(8 * r@.len() as int),
{
    let q = old(queue)@;
    reveal_with_fuel(byte_of, 5);
    let w = frame_at(q, k);
    assert(r@[k].0 as int == w.0 && r@[k].1 as int == w.1);
    lemma_word_bytes(q, 8 * k, place);
    lemma_word_bytes(q, 8 * k + 4, place);
}

proof fn lemma_word_bytes(q: Seq<u8>, i: int, place: nat)
    requires
        place < 4,
    ensures
        byte_of(word_at(q, i), place) == q[i + place],
{
    reveal_with_fuel(byte_of, 5);
    let (a, b, c, d) = (q[i] as int, q[i + 1] as int, q[i + 2] as int, q[i + 3] as int);
    let n = word_at(q, i);
    assert(n == a + 256 * (b + 256 * (c + 256 * d)));
    assert(n % 256 == a && n / 256 == b + 256 * (c + 256 * d));
    assert(n / 256 % 256 == b && n / 256 / 256 == c + 256 * d);
    assert(n / 256 / 256 % 256 == c && n / 256 / 256 / 256 == d);
}

/// A chunk is taken out exactly where three tenths of a second of sound wait, which are all that
/// waits; until then the samples go on waiting.
pub proof fn chunks_are_three_tenths_of_a_second<T>(f: &mut ChunkFeeder<T>, r: Option<Vec<T>>)
    requires
        call_ensures(ChunkFeeder::<T>::take_chunk, (f,), r),
    ensures
        r is Some <==> old(f)@.len() >= 14400,
        r matches Some(c) ==> c@ == old(f)@ && final(f)@.len() == 0,
        r is None ==> final(f)@ == old(f)@,
        CAPTURE_SAMPLE_RATE == 48000,
{
}

/// At the end all the samples that wait are taken out, however few.
pub proof fn the_tail_is_taken_out<T>(f: &mut ChunkFeeder<T>, r: Option<Vec<T>>)
    requires
        call_ensures(ChunkFeeder::<T>::take_tail, (f,), r),
    ensures
        r is None <==> old(f)@.len() == 0,
        r matches Some(c) ==> c@ == old(f)@,
        final(f)@.len() == 0,
{
}

/// Speech is always handed on and ends a row of silent chunks; of silent chunks in a row, the fifth,
/// the tenth and so on are.
pub proof fn speech_is_always_handed_on<T>(f: &mut ChunkFeeder<T>, silent: bool, r: bool)
    requires
        0 <= old(f).streak() < u32::MAX,
        call_ensures(ChunkFeeder::<T>::should_feed, (f, silent), r),
    ensures
        !silent ==> r && final(f).streak() == 0,
        silent ==> final(f).streak() == old(f).streak() + 1 && (r <==> final(f).streak() % 5 == 0),
        final(f)@ == old(f)@,
{
}

/// A chunk counts as lost exactly where there was no room for it, and as arrived exactly where it was
/// taken.
pub proof fn only_full_channels_lose_chunks(delivery: &Delivery, dropped: &mut u64, r: bool)
    requires
        *old(dropped) < u64::MAX,
        call_ensures(settle, (delivery, dropped), r),
    ensures
        r <==> *delivery == Delivery::Sent,
        *delivery == Delivery::Full ==> *final(dropped) == *old(dropped) + 1,
        *delivery != Delivery::Full ==> *final(dropped) == *old(dropped),
{
}

/// A sample goes behind those that were recorded and behind those that wait, and changes nothing else.
pub proof fn samples_are_recorded<T: Copy>(c: &mut AudioCapturer<T>, v: T)
    requires
        call_ensures(AudioCapturer::<T>::sample, (c, v), ()),
    ensures
        final(c)@.samples == old(c)@.samples.push(v),
        final(c)@.waiting == old(c)@.waiting.push(v),
        final(c)@.stage == old(c)@.stage,
        final(c)@.dropped == old(c)@.dropped,
{
}

/// However a recording ends, what waits is handed on, the stream is stopped, and the failure is the
/// outcome; the samples that were recorded stay.
pub proof fn every_end_is_orderly<T>(
    c: &mut AudioCapturer<T>,
    failure: Option<AudioCaptureError>,
    r: CaptureEnd<T>,
)
    requires
        call_ensures(AudioCapturer::<T>::end_step, (c, failure), r),
    ensures
        r.tail is None <==> old(c)@.waiting.len() == 0,
        r.tail matches Some(t) ==> t@ == old(c)@.waiting,
        r.stop_stream,
        r.outcome is Ok <==> failure is None,
        failure matches Some(e) ==> r.outcome == Err::<(), _>(e),
        final(c)@.samples == old(c)@.samples,
        final(c)@.waiting.len() == 0,
{
}

/// A recording without a sample cannot be written to a file, and any other can.
pub proof fn there_must_be_sound(count: usize, r: Result<(), AudioCaptureError>)
    requires
        call_ensures(check_samples, (count,), r),
    ensures
        r is Ok <==> count != 0,
{
}

/// A recording begins with what it was made for, without samples, and before its start.
pub proof fn recordings_begin_empty<T>(
    pid: u32,
    tree: bool,
    c: AudioCapturer<T>,
    target: (u32, bool),
    count: usize,
    rate: u32,
    lost: u64,
    state: CaptureState,
)
    requires
        call_ensures(AudioCapturer::<T>::new_with_asr, (pid, tree), c),
        call_ensures(AudioCapturer::<T>::target, (&c,), target),
        call_ensures(AudioCapturer::<T>::get_sample_count, (&c,), count),
        call_ensures(AudioCapturer::<T>::get_sample_rate, (&c,), rate),
        call_ensures(AudioCapturer::<T>::get_dropped_count, (&c,), lost),
        call_ensures(AudioCapturer::<T>::get_state, (&c,), state),
    ensures
        target == (pid, tree),
        count == 0,
        rate == 48000,
        lost == 0,
        state is Idle,
        c@.waiting.len() == 0,
{
}

/// Taking a chunk out, deciding on it and handing it on touch neither the samples that were recorded
/// nor the state; a chunk is all that waits, once it is three tenths of a second.
pub proof fn chunks_leave_the_recording_as_it_is<T>(
    c: &mut AudioCapturer<T>,
    chunk: Option<Vec<T>>,
    d: &mut AudioCapturer<T>,
    silent: bool,
    feeds: bool,
    e: &mut AudioCapturer<T>,
    delivery: &Delivery,
    arrived: bool,
)
    requires
        call_ensures(AudioCapturer::<T>::take_chunk, (c,), chunk),
        call_ensures(AudioCapturer::<T>::should_feed, (d, silent), feeds),
        call_ensures(AudioCapturer::<T>::settle, (e, delivery), arrived),
        0 <= old(d)@.streak < u32::MAX,
        old(e)@.dropped < u64::MAX,
    ensures
        chunk is Some <==> old(c)@.waiting.len() >= 14400,
        chunk matches Some(v) ==> v@ == old(c)@.waiting && final(c)@.waiting.len() == 0,
        chunk is None ==> final(c)@ == old(c)@,
        final(c)@.samples == old(c)@.samples && final(c)@.stage == old(c)@.stage
            && final(c)@.dropped == old(c)@.dropped,
        !silent ==> feeds && final(d)@.streak == 0,
        silent ==> final(d)@.streak == old(d)@.streak + 1 && (feeds <==> final(d)@.streak % 5 == 0),
        final(d)@.samples == old(d)@.samples && final(d)@.waiting == old(d)@.waiting
            && final(d)@.stage == old(d)@.stage && final(d)@.dropped == old(d)@.dropped,
        arrived <==> *delivery == Delivery::Sent,
        final(e)@.dropped == old(e)@.dropped + (if *delivery == Delivery::Full {
            1int
        } else {
            0int
        }),
        final(e)@.samples == old(e)@.samples && final(e)@.waiting == old(e)@.waiting
            && final(e)@.stage == old(e)@.stage,
{
}

/// A chunk that is handed on goes to the channel as it is, and what the channel makes of it is what is
/// counted and said.
pub proof fn chunks_go_to_the_channel<T>(
    c: &mut AudioCapturer<T>,
    tx: &crossbeam_channel::Sender<Vec<T>>,
    chunk: Vec<T>,
    r: bool,
)
    requires
        old(c)@.dropped < u64::MAX,
        call_ensures(AudioCapturer::<T>::deliver, (c, tx, chunk), r),
    ensures
        exists|d: Delivery| #[trigger]
            offered(*tx, chunk, d) && (r <==> d == Delivery::Sent) && final(c)@.dropped == old(
                c)@.dropped + (if d == Delivery::Full {
                1int
            } else {
                0int
            }),
        final(c)@.samples == old(c)@.samples && final(c)@.waiting == old(c)@.waiting
            && final(c)@.stage == old(c)@.stage,
{
    let d = choose|d: Delivery| #[trigger]
        offered(*tx, chunk, d) && final(c)@ == old(c)@.after(CaptureInput::Offered(d)).0 && (r
            <==> d == Delivery::Sent);
    assert(offered(*tx, chunk, d));
}

/// Starting, stopping and ending a recording keep its samples.
pub proof fn the_state_is_not_the_sound<T>(
    a: &mut AudioCapturer<T>,
    started: bool,
    b: &mut AudioCapturer<T>,
    c: &mut AudioCapturer<T>,
    outcome: Result<(), AudioCaptureError>,
)
    requires
        call_ensures(AudioCapturer::<T>::start_capturing, (a,), started),
        call_ensures(AudioCapturer::<T>::stop_capturing, (b,), ()),
        call_ensures(AudioCapturer::<T>::end_capturing, (c, outcome), ()),
    ensures
        final(a)@.stage is Capturing,
        started <==> !(old(a)@.stage is Capturing),
        final(a)@.samples == old(a)@.samples && final(a)@.waiting == old(a)@.waiting,
        final(b)@.stage is Stopping <==> old(b)@.stage is Capturing || old(b)@.stage is Stopping,
        !(old(b)@.stage is Capturing) ==> final(b)@ == old(b)@,
        final(b)@.samples == old(b)@.samples && final(b)@.waiting == old(b)@.waiting,
        outcome matches Err(e) ==> final(c)@.stage == Stage::Error(e.says()),
        outcome is Ok && !(old(c)@.stage is Error) ==> final(c)@.stage is Idle,
        final(c)@.samples == old(c)@.samples && final(c)@.waiting == old(c)@.waiting,
{
}

/// Two states are the same where they are of one kind, with the same error.
pub proof fn which_states_are_the_same(a: &CaptureState, b: &CaptureState, r: bool)
    requires
        call_ensures(<CaptureState as PartialEq>::eq, (a, b), r),
    ensures
        r <==> match (*a, *b) {
            (CaptureState::Idle, CaptureState::Idle) => true,
            (CaptureState::Capturing, CaptureState::Capturing) => true,
            (CaptureState::Stopping, CaptureState::Stopping) => true,
            (CaptureState::Error(x), CaptureState::Error(y)) => x@ == y@,
            _ => false,
        },
{
}

/// What an error says begins with its kind.
pub proof fn errors_name_their_kind(e: &AudioCaptureError, r: String)
    requires
        call_ensures(AudioCaptureError::message, (e,), r),
    ensures
        *e is ComInitFailed ==> r@ == "COM 初始化失败"@,
        *e matches AudioCaptureError::ActivationFailed(d) ==> r@ == "进程 Loopback 激活失败: "@ + d@,
        *e matches AudioCaptureError::InitFailed(d) ==> r@ == "初始化音频客户端失败: "@ + d@,
        *e matches AudioCaptureError::StartFailed(d) ==> r@ == "启动音频流失败: "@ + d@,
        *e matches AudioCaptureError::CaptureError(d) ==> r@ == "捕获错误: "@ + d@,
        *e matches AudioCaptureError::WavWriteFailed(d) ==> r@ == "WAV 文件写入失败: "@ + d@,
{
}

/// A recording goes on until it was asked to end.
pub proof fn the_loop_goes_on_until_it_is_stopped(s: &CaptureState, r: bool)
    requires
        call_ensures(CaptureState::is_stopping, (s,), r),
    ensures
        r <==> *s is Stopping,
{
}

/// A chunk that is handed on by itself goes to the channel as it is, and counts as lost exactly where
/// there was no room for it.
pub proof fn chunks_are_offered_as_they_are<T>(
    tx: &crossbeam_channel::Sender<Vec<T>>,
    chunk: Vec<T>,
    dropped: &mut u64,
    r: bool,
)
    requires
        *old(dropped) < u64::MAX,
        call_ensures(deliver_chunk::<T>, (tx, chunk, dropped), r),
    ensures
        exists|d: Delivery| #[trigger]
            offered(*tx, chunk, d) && (r <==> d == Delivery::Sent) && *final(dropped) == *old(
                dropped) + (if d == Delivery::Full {
                1int
            } else {
                0int
            }),
{
    let d = choose|d: Delivery| #[trigger]
        offered(*tx, chunk, d) && *final(dropped) == counted(*old(dropped), d) && (r <==> d
            == Delivery::Sent);
    assert(offered(*tx, chunk, d));
}

/// The samples that are handed out are those that were recorded, and as many as are counted.
pub proof fn the_samples_are_handed_out<T>(c: &AudioCapturer<T>, r: &Vec<T>, count: usize)
    requires
        call_ensures(AudioCapturer::<T>::samples, (c,), r),
        call_ensures(AudioCapturer::<T>::get_sample_count, (c,), count),
    ensures
        r@ == c@.samples,
        r@.len() == count,
{
}

/// A feeder begins without samples, and a sample waits behind the others.
pub proof fn samples_wait_in_order<T>(new: ChunkFeeder<T>, f: &mut ChunkFeeder<T>, v: T)
    requires
        call_ensures(ChunkFeeder::<T>::new, (), new),
        call_ensures(ChunkFeeder::<T>::push, (f, v), ()),
    ensures
        new@.len() == 0 && new.streak() == 0,
        final(f)@ == old(f)@.push(v),
        final(f).streak() == old(f).streak(),
{
}

} // verus!
