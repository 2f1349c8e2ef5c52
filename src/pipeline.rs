use vstd::prelude::*;

use crate::catalog::Resolution;
use crate::geometry::{target_for, target_geometry};

verus! {

/// Why a transcode of one resolution was abandoned.
#[derive(Clone, Copy, Debug, PartialEq, Eq, Structural)]
pub enum TranscodeError {
    /// The source cannot be opened or has no usable video stream.
    OpenError,
    /// The codec, encoder parameters or scaling formats were rejected.
    EncoderInitError,
    /// A header, packet or trailer could not be written.
    MuxError,
    /// Scaling or encoding a frame, or ending the stream, failed.
    EncodeError,
}

/// How a transcode that did not fail ended.
#[derive(Clone, Copy, Debug, PartialEq, Eq, Structural)]
pub enum Outcome {
    /// A complete output was written.
    Written,
    /// The target would upscale the source; no output was produced.
    Skipped,
}

/// Where a transcode stands.
#[derive(Clone, Copy, Debug, PartialEq, Eq)]
pub enum Phase {
    Opening,
    ConfiguringEncoder,
    WritingHeader,
    BuildingScaler,
    Reading,
    Decoding,
    /// A frame with this presentation timestamp is being scaled and encoded.
    Encoding(i64),
    WritingLive,
    SendingEof,
    Draining,
    WritingFlushed,
    WritingTrailer,
    Finished(Result<Outcome, TranscodeError>),
}

/// The outcome of the step that the caller last performed.
#[derive(Clone, Copy, Debug, PartialEq, Eq)]
pub enum Event {
    /// The source was opened; its best video stream has this geometry and index.
    Opened { width: u32, height: u32, stream_index: usize },
    /// A packet of the given stream was read from the source.
    Packet { stream_index: usize },
    /// The source has no more packets.
    EndOfInput,
    /// The frame was fed to the encoder, which may or may not have a packet ready.
    Encoded { packet_ready: bool },
    /// After end of stream, the encoder handed out one more packet.
    PacketReceived,
    /// After end of stream, the encoder has no packet left.
    Drained,
    /// The requested step completed.
    Succeeded,
    /// The requested step failed.
    Failed,
}

/// The next step for the caller to perform.
#[derive(Clone, Copy, Debug, PartialEq, Eq)]
pub enum Action {
    /// Open the source and locate its best video stream.
    Open,
    /// Create the output and configure the encoder for this geometry with the fixed profile.
    ConfigureEncoder(Resolution),
    /// Write the output header.
    WriteHeader,
    /// Build the one scaling context for this target geometry.
    BuildScaler(Resolution),
    /// Read the next packet of the source.
    ReadPacket,
    /// Decode the packet just read.
    Decode,
    /// Rescale the decoded frame, stamp it with `pts`, and feed it to the encoder.
    ScaleAndEncode { pts: i64 },
    /// Write the encoder's packet, interleaved, to the output stream.
    WritePacket,
    /// Signal end of stream to the encoder.
    SendEof,
    /// Ask the encoder for one more buffered packet.
    ReceivePacket,
    /// Write the output trailer.
    WriteTrailer,
    /// The transcode is over.
    Finish(Result<Outcome, TranscodeError>),
}

/// Numerator of the output time base.
pub const TIME_BASE_NUM: i32 = 1;
/// Denominator of the output time base: 30 frames per second.
pub const TIME_BASE_DEN: i32 = 30;
/// Constant rate factor handed to the encoder.
pub const QUALITY_FACTOR: &'static str = "23";
/// Speed preset handed to the encoder.
pub const SPEED_PRESET: &'static str = "medium";

/// The sequencing of one transcode of a source to one target geometry.
pub struct Transcoder {
    pub target: Resolution,
    pub phase: Phase,
    /// Index of the selected video stream of the source.
    pub stream_index: usize,
    /// The sequence number the next decoded frame receives.
    pub next_pts: i64,
    /// Sequence numbers handed out so far, in order.
    pub pts_log: Ghost<Seq<i64>>,
    /// Packets the encoder produced while frames were fed.
    pub live_packets: Ghost<nat>,
    /// Packets the encoder produced after end of stream.
    pub flushed_packets: Ghost<nat>,
    /// Packets written to the output.
    pub written_packets: Ghost<nat>,
    /// Whether anything was asked of the output yet.
    pub output_started: Ghost<bool>,
    /// Whether the encoder reported that its buffer is empty after end of stream.
    pub drained: Ghost<bool>,
}

/// The step the caller performs in each phase.
pub open spec fn action_of(phase: Phase, target: Resolution) -> Action {
    match phase {
        Phase::Opening => Action::Open,
        Phase::ConfiguringEncoder => Action::ConfigureEncoder(target),
        Phase::WritingHeader => Action::WriteHeader,
        Phase::BuildingScaler => Action::BuildScaler(target),
        Phase::Reading => Action::ReadPacket,
        Phase::Decoding => Action::Decode,
        Phase::Encoding(pts) => Action::ScaleAndEncode { pts },
        Phase::WritingLive => Action::WritePacket,
        Phase::SendingEof => Action::SendEof,
        Phase::Draining => Action::ReceivePacket,
        Phase::WritingFlushed => Action::WritePacket,
        Phase::WritingTrailer => Action::WriteTrailer,
        Phase::Finished(r) => Action::Finish(r),
    }
}

/// The phase that follows `phase` on `event`; an event that does not answer
/// the pending step changes nothing.
pub open spec fn next_phase(
    phase: Phase,
    target: Resolution,
    stream_index: usize,
    next_pts: i64,
    event: Event,
) -> Phase {
    match (phase, event) {
        (Phase::Opening, Event::Opened { width, height, stream_index: _ }) => {
            if target.width <= width && target.height <= height {
                Phase::ConfiguringEncoder
            } else {
                Phase::Finished(Ok(Outcome::Skipped))
            }
        },
        (Phase::Opening, Event::Failed) => Phase::Finished(Err(TranscodeError::OpenError)),
        (Phase::ConfiguringEncoder, Event::Succeeded) => Phase::WritingHeader,
        (Phase::ConfiguringEncoder, Event::Failed) => Phase::Finished(
            Err(TranscodeError::EncoderInitError),
        ),
        (Phase::WritingHeader, Event::Succeeded) => Phase::BuildingScaler,
        (Phase::WritingHeader, Event::Failed) => Phase::Finished(Err(TranscodeError::MuxError)),
        (Phase::BuildingScaler, Event::Succeeded) => Phase::Reading,
        (Phase::BuildingScaler, Event::Failed) => Phase::Finished(
            Err(TranscodeError::EncoderInitError),
        ),
        (Phase::Reading, Event::Packet { stream_index: i }) => {
            if i == stream_index {
                Phase::Decoding
            } else {
                Phase::Reading
            }
        },
        (Phase::Reading, Event::EndOfInput) => Phase::SendingEof,
        (Phase::Decoding, Event::Succeeded) => {
            if next_pts < i64::MAX {
                Phase::Encoding(next_pts)
            } else {
                Phase::Finished(Err(TranscodeError::EncodeError))
            }
        },
        (Phase::Decoding, Event::Failed) => Phase::Reading,
        (Phase::Encoding(_), Event::Encoded { packet_ready }) => {
            if packet_ready {
                Phase::WritingLive
            } else {
                Phase::Reading
            }
        },
        (Phase::Encoding(_), Event::Failed) => Phase::Finished(Err(TranscodeError::EncodeError)),
        (Phase::WritingLive, Event::Succeeded) => Phase::Reading,
        (Phase::WritingLive, Event::Failed) => Phase::Finished(Err(TranscodeError::MuxError)),
        (Phase::SendingEof, Event::Succeeded) => Phase::Draining,
        (Phase::SendingEof, Event::Failed) => Phase::Finished(Err(TranscodeError::EncodeError)),
        (Phase::Draining, Event::PacketReceived) => Phase::WritingFlushed,
        (Phase::Draining, Event::Drained) => Phase::WritingTrailer,
        (Phase::WritingFlushed, Event::Succeeded) => Phase::Draining,
        (Phase::WritingFlushed, Event::Failed) => Phase::Finished(Err(TranscodeError::MuxError)),
        (Phase::WritingTrailer, Event::Succeeded) => Phase::Finished(Ok(Outcome::Written)),
        (Phase::WritingTrailer, Event::Failed) => Phase::Finished(Err(TranscodeError::MuxError)),
        _ => phase,
    }
}

/// One count for a true condition.
pub open spec fn one_if(b: bool) -> nat {
    if b {
        1
    } else {
        0
    }
}

/// The stream index recorded when the source is opened.
pub open spec fn next_stream_index(phase: Phase, stream_index: usize, event: Event) -> usize {
    match (phase, event) {
        (Phase::Opening, Event::Opened { width: _, height: _, stream_index: i }) => i,
        _ => stream_index,
    }
}

/// The phase that follows `phase` on `event`.
fn transition(
    phase: Phase,
    target: Resolution,
    stream_index: usize,
    next_pts: i64,
    event: Event,
) -> (r: Phase)
    ensures
        r == next_phase(phase, target, stream_index, next_pts, event),
{
    match (phase, event) {
        (Phase::Opening, Event::Opened { width, height, stream_index: _ }) => {
            if target.fits_within(width, height) {
                Phase::ConfiguringEncoder
            } else {
                Phase::Finished(Ok(Outcome::Skipped))
            }
        },
        (Phase::Opening, Event::Failed) => Phase::Finished(Err(TranscodeError::OpenError)),
        (Phase::ConfiguringEncoder, Event::Succeeded) => Phase::WritingHeader,
        (Phase::ConfiguringEncoder, Event::Failed) => Phase::Finished(
            Err(TranscodeError::EncoderInitError),
        ),
        (Phase::WritingHeader, Event::Succeeded) => Phase::BuildingScaler,
        (Phase::WritingHeader, Event::Failed) => Phase::Finished(Err(TranscodeError::MuxError)),
        (Phase::BuildingScaler, Event::Succeeded) => Phase::Reading,
        (Phase::BuildingScaler, Event::Failed) => Phase::Finished(
            Err(TranscodeError::EncoderInitError),
        ),
        (Phase::Reading, Event::Packet { stream_index: i }) => {
            if i == stream_index {
                Phase::Decoding
            } else {
                Phase::Reading
            }
        },
        (Phase::Reading, Event::EndOfInput) => Phase::SendingEof,
        (Phase::Decoding, Event::Succeeded) => {
            if next_pts < i64::MAX {
                Phase::Encoding(next_pts)
            } else {
                Phase::Finished(Err(TranscodeError::EncodeError))
            }
        },
        (Phase::Decoding, Event::Failed) => Phase::Reading,
        (Phase::Encoding(_), Event::Encoded { packet_ready }) => {
            if packet_ready {
                Phase::WritingLive
            } else {
                Phase::Reading
            }
        },
        (Phase::Encoding(_), Event::Failed) => Phase::Finished(Err(TranscodeError::EncodeError)),
        (Phase::WritingLive, Event::Succeeded) => Phase::Reading,
        (Phase::WritingLive, Event::Failed) => Phase::Finished(Err(TranscodeError::MuxError)),
        (Phase::SendingEof, Event::Succeeded) => Phase::Draining,
        (Phase::SendingEof, Event::Failed) => Phase::Finished(Err(TranscodeError::EncodeError)),
        (Phase::Draining, Event::PacketReceived) => Phase::WritingFlushed,
        (Phase::Draining, Event::Drained) => Phase::WritingTrailer,
        (Phase::WritingFlushed, Event::Succeeded) => Phase::Draining,
        (Phase::WritingFlushed, Event::Failed) => Phase::Finished(Err(TranscodeError::MuxError)),
        (Phase::WritingTrailer, Event::Succeeded) => Phase::Finished(Ok(Outcome::Written)),
        (Phase::WritingTrailer, Event::Failed) => Phase::Finished(Err(TranscodeError::MuxError)),
        _ => phase,
    }
}

impl Transcoder {
    /// A transcode of the geometry that `label` stands for, unknown labels
    /// falling back to 854x480.
    pub fn for_label(label: &str) -> (r: Transcoder)
        ensures
            r.wf(),
            r.target == target_for(label@),
            r.phase == Phase::Opening,
    {
        Transcoder::new(target_geometry(label))
    }

    /// Whether the bookkeeping of the run so far is consistent.
    pub open spec fn wf(&self) -> bool {
        &&& 0 <= self.next_pts
        &&& self.pts_log@.len() == self.next_pts
        &&& forall|i: int| 0 <= i < self.pts_log@.len() ==> self.pts_log@[i] == i
        &&& (self.phase matches Phase::Encoding(p) ==> p == self.next_pts - 1)
        &&& !(self.phase matches Phase::Finished(Err(_))) ==> self.written_packets@ + one_if(
            self.phase is WritingLive || self.phase is WritingFlushed,
        ) == self.live_packets@ + self.flushed_packets@
        &&& (self.phase is Opening ==> !self.output_started@ && self.next_pts == 0)
        &&& (!self.output_started@ ==> (self.phase is Opening || self.phase is Finished)
            && self.next_pts == 0 && self.written_packets@ == 0 && self.live_packets@ == 0
            && self.flushed_packets@ == 0)
        &&& (self.phase == Phase::Finished(Ok(Outcome::Skipped)) ==> !self.output_started@)
        &&& ((self.phase is WritingTrailer || self.phase == Phase::Finished(
            Ok(Outcome::Written),
        )) ==> self.drained@)
    }

    /// A transcode to `target` that has not started.
    pub fn new(target: Resolution) -> (r: Transcoder)
        ensures
            r.wf(),
            r.target == target,
            r.phase == Phase::Opening,
            r.next_pts == 0,
            r.pts_log@ == Seq::<i64>::empty(),
            r.written_packets@ == 0,
            r.live_packets@ == 0,
            r.flushed_packets@ == 0,
    {
        Transcoder {
            target,
            phase: Phase::Opening,
            stream_index: 0,
            next_pts: 0,
            pts_log: Ghost(Seq::empty()),
            live_packets: Ghost(0),
            flushed_packets: Ghost(0),
            written_packets: Ghost(0),
            output_started: Ghost(false),
            drained: Ghost(false),
        }
    }

    /// The step the caller is to perform now.
    pub fn action(&self) -> (r: Action)
        ensures
            r == action_of(self.phase, self.target),
    {
        match self.phase {
            Phase::Opening => Action::Open,
            Phase::ConfiguringEncoder => Action::ConfigureEncoder(self.target),
            Phase::WritingHeader => Action::WriteHeader,
            Phase::BuildingScaler => Action::BuildScaler(self.target),
            Phase::Reading => Action::ReadPacket,
            Phase::Decoding => Action::Decode,
            Phase::Encoding(pts) => Action::ScaleAndEncode { pts },
            Phase::WritingLive => Action::WritePacket,
            Phase::SendingEof => Action::SendEof,
            Phase::Draining => Action::ReceivePacket,
            Phase::WritingFlushed => Action::WritePacket,
            Phase::WritingTrailer => Action::WriteTrailer,
            Phase::Finished(r) => Action::Finish(r),
        }
    }

    /// Whether the transcode is over.
    pub fn is_finished(&self) -> (r: bool)
        ensures
            r == (self.phase is Finished),
    {
        match self.phase {
            Phase::Finished(_) => true,
            _ => false,
        }
    }

    /// Takes the outcome of the last step and returns the next one.
    pub fn step(&mut self, event: Event) -> (r: Action)
        requires
            old(self).wf(),
        ensures
            final(self).wf(),
            final(self).target == old(self).target,
            final(self).phase == next_phase(
                old(self).phase,
                old(self).target,
                old(self).stream_index,
                old(self).next_pts,
                event,
            ),
            final(self).stream_index == next_stream_index(
                old(self).phase,
                old(self).stream_index,
                event,
            ),
            final(self).next_pts == old(self).next_pts + one_if(
                old(self).phase is Decoding && final(self).phase is Encoding,
            ),
            final(self).pts_log@ == (if old(self).phase is Decoding && final(self).phase is Encoding {
                old(self).pts_log@.push(old(self).next_pts)
            } else {
                old(self).pts_log@
            }),
            final(self).live_packets@ == old(self).live_packets@ + one_if(
                old(self).phase is Encoding && final(self).phase is WritingLive,
            ),
            final(self).flushed_packets@ == old(self).flushed_packets@ + one_if(
                old(self).phase is Draining && final(self).phase is WritingFlushed,
            ),
            final(self).written_packets@ == old(self).written_packets@ + one_if(
                (old(self).phase is WritingLive || old(self).phase is WritingFlushed)
                    && event is Succeeded,
            ),
            final(self).output_started@ == (old(self).output_started@
                || final(self).phase is ConfiguringEncoder),
            final(self).drained@ == (old(self).drained@ || (old(self).phase is Draining
                && event is Drained)),
            r == action_of(final(self).phase, final(self).target),
    {
        let old_phase = self.phase;
        let next = transition(self.phase, self.target, self.stream_index, self.next_pts, event);
        if let Phase::Opening = old_phase {
            if let Event::Opened { width: _, height: _, stream_index } = event {
                self.stream_index = stream_index;
            }
        }
        if let Phase::Decoding = old_phase {
            if let Phase::Encoding(_) = next {
                proof {
                    self.pts_log@ = self.pts_log@.push(self.next_pts);
                }
                self.next_pts = self.next_pts + 1;
            }
        }
        proof {
            if old_phase is Encoding && next is WritingLive {
                self.live_packets@ = self.live_packets@ + 1;
            }
            if old_phase is Draining && next is WritingFlushed {
                self.flushed_packets@ = self.flushed_packets@ + 1;
            }
            if (old_phase is WritingLive || old_phase is WritingFlushed) && event is Succeeded {
                self.written_packets@ = self.written_packets@ + 1;
            }
            if next is ConfiguringEncoder {
                self.output_started@ = true;
            }
            if old_phase is Draining && event is Drained {
                self.drained@ = true;
            }
        }
        self.phase = next;
        self.action()
    }
}

/// The sequence numbers handed to the encoder start at 0 and go up by one per
/// frame, so they strictly increase and never repeat; their count is the number
/// of frames numbered so far.
pub proof fn lemma_frame_numbers_increase(t: Transcoder)
    requires
        t.wf(),
    ensures
        t.pts_log@.len() == t.next_pts,
        forall|i: int| 0 <= i < t.pts_log@.len() ==> t.pts_log@[i] == i,
        forall|i: int, j: int|
            0 <= i < j < t.pts_log@.len() ==> t.pts_log@[i] < t.pts_log@[j],
{
}

/// A packet consumes a sequence number exactly when it belongs to the selected
/// stream's decode step and decoding it succeeded: a failed decode consumes none.
pub proof fn lemma_only_decoded_frames_numbered(
    phase: Phase,
    target: Resolution,
    stream_index: usize,
    next_pts: i64,
    event: Event,
)
    requires
        0 <= next_pts < i64::MAX,
    ensures
        (phase is Decoding && next_phase(phase, target, stream_index, next_pts, event) is Encoding)
            <==> (phase is Decoding && event is Succeeded),
        (phase is Decoding && event is Succeeded) ==> next_phase(
            phase,
            target,
            stream_index,
            next_pts,
            event,
        ) == Phase::Encoding(next_pts),
{
}

/// A skipped transcode never touched the output: nothing was configured and no
/// packet was written.
pub proof fn lemma_skip_produces_nothing(t: Transcoder)
    requires
        t.wf(),
        t.phase == Phase::Finished(Ok(Outcome::Skipped)),
    ensures
        !t.output_started@,
        t.written_packets@ == 0,
        t.next_pts == 0,
{
}

/// The trailer is written only once the encoder has been drained, and by then
/// every packet it produced, live or flushed, has been written.
pub proof fn lemma_trailer_after_flush(t: Transcoder)
    requires
        t.wf(),
        t.phase is WritingTrailer || t.phase == Phase::Finished(Ok(Outcome::Written)),
    ensures
        t.drained@,
        t.written_packets@ == t.live_packets@ + t.flushed_packets@,
{
}

/// A source too small for the target is skipped as soon as it is opened.
pub proof fn lemma_small_source_skips(t: Transcoder, width: u32, height: u32, stream_index: usize)
    requires
        t.phase is Opening,
        t.target.width > width || t.target.height > height,
    ensures
        next_phase(
            t.phase,
            t.target,
            t.stream_index,
            t.next_pts,
            Event::Opened { width, height, stream_index },
        ) == Phase::Finished(Ok(Outcome::Skipped)),
{
}

/// Two transcodes to the same target ask for the same encoder configuration,
/// whatever their sources.
pub proof fn lemma_configuration_depends_on_target(a: Transcoder, b: Transcoder)
    requires
        a.target == b.target,
    ensures
        action_of(Phase::ConfiguringEncoder, a.target) == action_of(
            Phase::ConfiguringEncoder,
            b.target,
        ),
        action_of(Phase::BuildingScaler, a.target) == action_of(Phase::BuildingScaler, b.target),
{
}

/// The sequence numbers handed out while `events` are fed, one at a time, to a
/// transcode in the given phase, stream index and next number.
pub open spec fn numbers_in_run(
    phase: Phase,
    target: Resolution,
    stream_index: usize,
    next_pts: i64,
    events: Seq<Event>,
) -> Seq<i64>
    decreases events.len(),
{
    if events.len() == 0 {
        Seq::empty()
    } else {
        let e = events[0];
        let np = next_phase(phase, target, stream_index, next_pts, e);
        let ni = next_stream_index(phase, stream_index, e);
        if phase is Decoding && np is Encoding {
            seq![next_pts] + numbers_in_run(np, target, ni, (next_pts + 1) as i64, events.drop_first())
        } else {
            numbers_in_run(np, target, ni, next_pts, events.drop_first())
        }
    }
}

/// How many packets of the selected stream decoded successfully during the run.
pub open spec fn decoded_in_run(
    phase: Phase,
    target: Resolution,
    stream_index: usize,
    next_pts: i64,
    events: Seq<Event>,
) -> nat
    decreases events.len(),
{
    if events.len() == 0 {
        0
    } else {
        let e = events[0];
        let np = next_phase(phase, target, stream_index, next_pts, e);
        let ni = next_stream_index(phase, stream_index, e);
        let npts = if phase is Decoding && np is Encoding {
            (next_pts + 1) as i64
        } else {
            next_pts
        };
        one_if(phase is Decoding && e is Succeeded) + decoded_in_run(
            np,
            target,
            ni,
            npts,
            events.drop_first(),
        )
    }
}

/// Over any run of events, the numbers handed out continue from the next
/// number one by one, and there are exactly as many as packets that decoded.
pub proof fn lemma_run_numbers_follow_decodes(
    phase: Phase,
    target: Resolution,
    stream_index: usize,
    next_pts: i64,
    events: Seq<Event>,
)
    requires
        0 <= next_pts,
        next_pts + events.len() < i64::MAX,
    ensures
        numbers_in_run(phase, target, stream_index, next_pts, events).len() == decoded_in_run(
            phase,
            target,
            stream_index,
            next_pts,
            events,
        ),
        forall|i: int|
            0 <= i < numbers_in_run(phase, target, stream_index, next_pts, events).len()
                ==> numbers_in_run(phase, target, stream_index, next_pts, events)[i] == next_pts
                + i,
    decreases events.len(),
{
    if events.len() > 0 {
        let e = events[0];
        let np = next_phase(phase, target, stream_index, next_pts, e);
        let ni = next_stream_index(phase, stream_index, e);
        lemma_only_decoded_frames_numbered(phase, target, stream_index, next_pts, e);
        if phase is Decoding && np is Encoding {
            lemma_run_numbers_follow_decodes(
                np,
                target,
                ni,
                (next_pts + 1) as i64,
                events.drop_first(),
            );
        } else {
            lemma_run_numbers_follow_decodes(np, target, ni, next_pts, events.drop_first());
        }
    }
}

/// From the start of a transcode, the numbers handed out are 0, 1, 2, ... with
/// no repeats, one per packet that decoded; failed decodes take none.
pub proof fn lemma_frame_numbers_from_start(target: Resolution, events: Seq<Event>)
    requires
        events.len() < i64::MAX,
    ensures
        numbers_in_run(Phase::Opening, target, 0, 0, events).len() == decoded_in_run(
            Phase::Opening,
            target,
            0,
            0,
            events,
        ),
        forall|i: int|
            0 <= i < numbers_in_run(Phase::Opening, target, 0, 0, events).len() ==> numbers_in_run(
                Phase::Opening,
                target,
                0,
                0,
                events,
            )[i] == i,
        forall|i: int, j: int|
            0 <= i < j < numbers_in_run(Phase::Opening, target, 0, 0, events).len()
                ==> numbers_in_run(Phase::Opening, target, 0, 0, events)[i] < numbers_in_run(
                Phase::Opening,
                target,
                0,
                0,
                events,
            )[j],
{
    lemma_run_numbers_follow_decodes(Phase::Opening, target, 0, 0, events);
}

} // verus!
