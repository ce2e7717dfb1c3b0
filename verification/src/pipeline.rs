//! The audio pipeline's bookkeeping: its configuration, when a new frame
//! breaks the stream, where resampled audio goes and how chunks come out.
//! The sample arithmetic itself (resampling, energy) is done by the caller,
//! which hands the results in.

use vstd::prelude::*;
use vstd::string::*;

use crate::buffer::{
    duration_micros, duration_spec, BoundedSampleBuffer, BufferedAudioChunk, BufferPushReport,
};
use crate::graph::{capture_error_view, CaptureError};
use crate::speech::str_eq;
use crate::text::{decimal, decimal_string};
use crate::voice::{EnergyVoiceDetector, ProcessedAudioChunk, VoiceActivity};

verus! {

#[derive(Clone, Copy, Debug, PartialEq, Eq, Structural)]
pub enum ResamplerError {
    InvalidSampleRate,
}

impl ResamplerError {
    pub fn to_string(&self) -> (text: String)
        ensures
            text@ == "input and output sample rates must be non-zero"@,
    {
        String::from_str("input and output sample rates must be non-zero")
    }
}

/// Checks the rates a resampler is made with: both must be non-zero.
pub fn check_sample_rates(input_rate: u32, output_rate: u32) -> (result: Result<(), ResamplerError>)
    ensures
        result is Err <==> (input_rate == 0 || output_rate == 0),
{
    if input_rate == 0 || output_rate == 0 {
        Err(ResamplerError::InvalidSampleRate)
    } else {
        Ok(())
    }
}

#[derive(Clone, Copy, Debug, PartialEq, Eq, Structural)]
pub enum AudioPipelineError {
    InvalidConfiguration,
    InvalidInputSampleRate,
    Resampler(ResamplerError),
}

impl AudioPipelineError {
    pub fn to_string(&self) -> (text: String)
        ensures
            text@ == match self {
                AudioPipelineError::InvalidConfiguration =>
                    "sample rate and sizes must be non-zero, and the buffer must hold one full chunk"@,
                AudioPipelineError::InvalidInputSampleRate =>
                    "audio frame sample rate must be non-zero"@,
                AudioPipelineError::Resampler(_) => "input and output sample rates must be non-zero"@,
            },
    {
        match self {
            AudioPipelineError::InvalidConfiguration => String::from_str(
                "sample rate and sizes must be non-zero, and the buffer must hold one full chunk",
            ),
            AudioPipelineError::InvalidInputSampleRate => String::from_str(
                "audio frame sample rate must be non-zero",
            ),
            AudioPipelineError::Resampler(error) => error.to_string(),
        }
    }
}

#[derive(Clone, Copy, Debug, Default, PartialEq, Eq, Structural)]
pub struct PipelinePushReport {
    pub dropped_samples: usize,
    pub total_dropped_samples: u64,
    pub stream_reset: bool,
}

/// `a - b`, held at zero.
pub open spec fn saturating_sub_spec(a: u64, b: u64) -> u64 {
    if a >= b { (a - b) as u64 } else { 0 }
}

/// The pipeline state that the sample arithmetic does not touch: the
/// bounded buffer of resampled audio, the voice detector, and what the
/// last accepted frame was.
pub struct AudioPipelineState<S> {
    target_sample_rate: u32,
    chunk_samples: usize,
    buffer: BoundedSampleBuffer<S>,
    detector: EnergyVoiceDetector,
    source_id: Option<String>,
    last_sequence: Option<u64>,
    input_rate: Option<u32>,
}

impl<S: Copy> AudioPipelineState<S> {
    pub closed spec fn target_rate(&self) -> u32 {
        self.target_sample_rate
    }

    pub closed spec fn chunk_size(&self) -> nat {
        self.chunk_samples as nat
    }

    pub closed spec fn buffered(&self) -> BoundedSampleBuffer<S> {
        self.buffer
    }

    pub closed spec fn voice(&self) -> EnergyVoiceDetector {
        self.detector
    }

    /// The source of the last accepted frame since the stream began.
    pub closed spec fn last_source(&self) -> Option<Seq<char>> {
        match self.source_id {
            Some(id) => Some(id@),
            None => None,
        }
    }

    pub closed spec fn last_sequence(&self) -> Option<u64> {
        self.last_sequence
    }

    /// The input rate of the stream's resampler, once the stream began.
    pub closed spec fn stream_rate(&self) -> Option<u32> {
        self.input_rate
    }

    pub closed spec fn wf(&self) -> bool {
        &&& self.buffer.wf()
        &&& self.buffer.rate() == self.target_sample_rate
        &&& self.target_sample_rate > 0
        &&& self.chunk_samples > 0
        &&& self.chunk_samples <= self.buffer.limit()
    }

    /// Whether a frame breaks the stream that the state follows: it says so
    /// itself, or it comes from another source, skips a sequence number, or
    /// changes the input rate.
    pub open spec fn breaks_stream(
        &self,
        source_id: Seq<char>,
        sequence: u64,
        sample_rate: u32,
        discontinuity: bool,
    ) -> bool {
        ||| discontinuity
        ||| (self.last_source() matches Some(current) && current != source_id)
        ||| (self.last_sequence() matches Some(last) && sequence != (if last == u64::MAX {
            0
        } else {
            (last + 1) as u64
        }))
        ||| (self.stream_rate() matches Some(rate) && rate != sample_rate)
    }

    /// A pipeline state for `chunk_samples`-sample chunks at
    /// `target_sample_rate`, buffering at most `buffer_samples`; or the
    /// refusal of that configuration.
    pub fn new(
        target_sample_rate: u32,
        chunk_samples: usize,
        buffer_samples: usize,
        attack_chunks: u16,
        release_chunks: u16,
    ) -> (result: Result<Self, AudioPipelineError>)
        ensures
            (target_sample_rate == 0 || chunk_samples == 0 || buffer_samples == 0 || buffer_samples
                < chunk_samples) ==> result == Err::<Self, AudioPipelineError>(
                AudioPipelineError::InvalidConfiguration,
            ),
            !(target_sample_rate == 0 || chunk_samples == 0 || buffer_samples == 0 || buffer_samples
                < chunk_samples) ==> (result matches Ok(state) && {
                &&& state.wf()
                &&& state.target_rate() == target_sample_rate
                &&& state.chunk_size() == chunk_samples
                &&& state.buffered().contents().len() == 0
                &&& state.buffered().limit() == buffer_samples
                &&& state.buffered().dropped() == 0
                &&& state.voice().attack() == if attack_chunks == 0 { 1 } else { attack_chunks }
                &&& state.voice().release() == if release_chunks == 0 { 1 } else { release_chunks }
                &&& !state.voice().speaking()
                &&& state.voice().loud_run() == 0
                &&& state.voice().quiet_run() == 0
                &&& state.last_source() is None
                &&& state.last_sequence() is None
                &&& state.stream_rate() is None
            }),
    {
        if target_sample_rate == 0 || chunk_samples == 0 || buffer_samples == 0 || buffer_samples
            < chunk_samples {
            return Err(AudioPipelineError::InvalidConfiguration);
        }
        Ok(
            AudioPipelineState {
                target_sample_rate,
                chunk_samples,
                buffer: BoundedSampleBuffer::new(target_sample_rate, buffer_samples),
                detector: EnergyVoiceDetector::new(attack_chunks, release_chunks),
                source_id: None,
                last_sequence: None,
                input_rate: None,
            },
        )
    }

    /// Forgets the stream: buffered audio, voice state and the last frame.
    pub fn reset_stream(&mut self)
        requires
            old(self).wf(),
        ensures
            final(self).wf(),
            final(self).target_rate() == old(self).target_rate(),
            final(self).chunk_size() == old(self).chunk_size(),
            final(self).buffered().contents().len() == 0,
            final(self).buffered().start() is None,
            final(self).buffered().limit() == old(self).buffered().limit(),
            final(self).buffered().dropped() == old(self).buffered().dropped(),
            !final(self).voice().speaking(),
            final(self).voice().loud_run() == 0,
            final(self).voice().quiet_run() == 0,
            final(self).voice().attack() == old(self).voice().attack(),
            final(self).voice().release() == old(self).voice().release(),
            final(self).last_source() is None,
            final(self).last_sequence() is None,
            final(self).stream_rate() is None,
    {
        self.buffer.clear();
        self.detector.reset();
        self.source_id = None;
        self.last_sequence = None;
        self.input_rate = None;
    }

    /// Takes in the header of a new frame before its samples are resampled:
    /// refuses a frame without a sample rate, and resets the stream when the
    /// frame breaks it. Returns whether it did.
    pub fn begin_frame(
        &mut self,
        source_id: &str,
        sequence: u64,
        sample_rate: u32,
        discontinuity: bool,
    ) -> (result: Result<bool, AudioPipelineError>)
        requires
            old(self).wf(),
        ensures
            final(self).wf(),
            final(self).target_rate() == old(self).target_rate(),
            final(self).chunk_size() == old(self).chunk_size(),
            final(self).buffered().limit() == old(self).buffered().limit(),
            final(self).buffered().dropped() == old(self).buffered().dropped(),
            sample_rate == 0 ==> result == Err::<bool, AudioPipelineError>(
                AudioPipelineError::InvalidInputSampleRate,
            ) && *final(self) == *old(self),
            sample_rate > 0 ==> result == Ok::<bool, AudioPipelineError>(
                old(self).breaks_stream(source_id@, sequence, sample_rate, discontinuity),
            ),
            result == Ok::<bool, AudioPipelineError>(false) ==> *final(self) == *old(self),
            result == Ok::<bool, AudioPipelineError>(true) ==> {
                &&& final(self).buffered().contents().len() == 0
                &&& final(self).buffered().start() is None
                &&& !final(self).voice().speaking()
                &&& final(self).voice().loud_run() == 0
                &&& final(self).voice().quiet_run() == 0
                &&& final(self).voice().attack() == old(self).voice().attack()
                &&& final(self).voice().release() == old(self).voice().release()
                &&& final(self).last_source() is None
                &&& final(self).last_sequence() is None
                &&& final(self).stream_rate() is None
            },
    {
        if sample_rate == 0 {
            return Err(AudioPipelineError::InvalidInputSampleRate);
        }
        let source_changed = match &self.source_id {
            Some(current) => !str_eq(current.as_str(), source_id),
            None => false,
        };
        let sequence_broken = match self.last_sequence {
            Some(last) => sequence != last.wrapping_add(1),
            None => false,
        };
        let rate_changed = match self.input_rate {
            Some(rate) => rate != sample_rate,
            None => false,
        };
        let stream_reset = discontinuity || source_changed || sequence_broken || rate_changed;
        if stream_reset {
            self.reset_stream();
        }
        Ok(stream_reset)
    }

    /// Buffers the resampled samples of a frame of `input_samples` samples
    /// at `sample_rate` captured until `captured_at_micros`, and remembers
    /// the frame as the stream's last.
    pub fn finish_frame(
        &mut self,
        source_id: String,
        sequence: u64,
        sample_rate: u32,
        captured_at_micros: u64,
        input_samples: usize,
        resampled: &[S],
        stream_reset: bool,
    ) -> (report: PipelinePushReport)
        requires
            old(self).wf(),
            sample_rate > 0,
        ensures
            final(self).wf(),
            final(self).target_rate() == old(self).target_rate(),
            final(self).chunk_size() == old(self).chunk_size(),
            final(self).voice() == old(self).voice(),
            final(self).last_source() == Some(source_id@),
            final(self).last_sequence() == Some(sequence),
            final(self).stream_rate() == Some(sample_rate),
            report.stream_reset == stream_reset,
            ({
                let start = saturating_sub_spec(
                    captured_at_micros,
                    duration_spec(input_samples as nat, sample_rate),
                );
                BoundedSampleBuffer::push_relation(
                    old(self).buffered(),
                    final(self).buffered(),
                    start,
                    resampled@,
                    BufferPushReport {
                        dropped_samples: report.dropped_samples,
                        total_dropped_samples: report.total_dropped_samples,
                    },
                )
            }),
    {
        let input_duration = duration_micros(input_samples, sample_rate);
        let start_micros = captured_at_micros.saturating_sub(input_duration);
        let pushed = self.buffer.push(start_micros, resampled);
        self.source_id = Some(source_id);
        self.last_sequence = Some(sequence);
        self.input_rate = Some(sample_rate);
        PipelinePushReport {
            dropped_samples: pushed.dropped_samples,
            total_dropped_samples: pushed.total_dropped_samples,
            stream_reset,
        }
    }

    /// Takes the next full chunk of buffered audio, when one is buffered.
    pub fn take_chunk(&mut self) -> (chunk: Option<BufferedAudioChunk<S>>)
        requires
            old(self).wf(),
        ensures
            final(self).wf(),
            final(self).target_rate() == old(self).target_rate(),
            final(self).chunk_size() == old(self).chunk_size(),
            final(self).voice() == old(self).voice(),
            final(self).last_source() == old(self).last_source(),
            final(self).last_sequence() == old(self).last_sequence(),
            final(self).stream_rate() == old(self).stream_rate(),
            BoundedSampleBuffer::pop_relation(
                old(self).buffered(),
                final(self).buffered(),
                old(self).chunk_size(),
                chunk,
            ),
    {
        self.buffer.pop_exact(self.chunk_samples)
    }

    /// Turns a chunk taken from the buffer into a processed chunk, given
    /// its energy `rms` and whether that energy reached the threshold.
    pub fn observe_chunk(&mut self, chunk: BufferedAudioChunk<S>, loud: bool, rms: S) -> (processed: ProcessedAudioChunk<S>)
        requires
            old(self).wf(),
        ensures
            final(self).wf(),
            final(self).target_rate() == old(self).target_rate(),
            final(self).chunk_size() == old(self).chunk_size(),
            final(self).buffered() == old(self).buffered(),
            final(self).last_source() == old(self).last_source(),
            final(self).last_sequence() == old(self).last_sequence(),
            final(self).stream_rate() == old(self).stream_rate(),
            EnergyVoiceDetector::observe_relation(
                old(self).voice(),
                final(self).voice(),
                loud,
                processed.voice_activity,
            ),
            processed.start_micros == chunk.start_micros,
            processed.end_micros == chunk.end_micros,
            processed.sample_rate == old(self).target_rate(),
            processed.samples == chunk.samples,
            processed.rms == rms,
    {
        let voice_activity = self.detector.observe_level(loud);
        ProcessedAudioChunk {
            start_micros: chunk.start_micros,
            end_micros: chunk.end_micros,
            sample_rate: self.target_sample_rate,
            samples: chunk.samples,
            voice_activity,
            rms,
        }
    }

    pub fn buffered_samples(&self) -> (count: usize)
        requires
            self.wf(),
        ensures
            count == self.buffered().contents().len(),
    {
        self.buffer.available_samples()
    }
}

/// How many whole interleaved frames `byte_count` bytes of native PCM hold,
/// or the refusal of a buffer that ends inside a frame.
pub fn whole_frame_count(byte_count: usize, bytes_per_frame: usize) -> (result: Result<usize, CaptureError>)
    requires
        bytes_per_frame > 0,
    ensures
        byte_count % bytes_per_frame == 0 ==> result == Ok::<usize, CaptureError>(
            byte_count / bytes_per_frame,
        ),
        byte_count % bytes_per_frame != 0 ==> (result matches Err(error) && capture_error_view(error)
            == (2u8, decimal(byte_count as nat) + " bytes is not a whole number of "@ + decimal(
                bytes_per_frame as nat,
            ) + "-byte frames"@)),
{
    if byte_count % bytes_per_frame != 0 {
        let mut message = decimal_string(byte_count as u64);
        message.append(" bytes is not a whole number of ");
        message.append(decimal_string(bytes_per_frame as u64).as_str());
        message.append("-byte frames");
        return Err(CaptureError::InvalidFormat(message));
    }
    Ok(byte_count / bytes_per_frame)
}

/// The value of a little-endian signed 24-bit sample.
pub open spec fn i24_value(low: u8, middle: u8, high: u8) -> int {
    let raw = low as int + 256 * middle as int + 65536 * high as int;
    if high >= 128 {
        raw - 16777216
    } else {
        raw
    }
}

/// Reads a little-endian signed 24-bit sample, extending its sign.
pub fn signed_i24(low: u8, middle: u8, high: u8) -> (value: i32)
    ensures
        value == i24_value(low, middle, high),
{
    let raw: i32 = (low as i32) | ((middle as i32) << 8) | ((high as i32) << 16);
    assert(raw == low as int + 256 * middle as int + 65536 * high as int) by (bit_vector)
        requires
            raw == (low as i32) | ((middle as i32) << 8) | ((high as i32) << 16),
    ;
    if raw & 0x0080_0000 != 0 {
        let value = raw | !0x00ff_ffff;
        assert(raw & 0x0080_0000 != 0 ==> high >= 128 && value == raw - 16777216) by (bit_vector)
            requires
                raw == (low as i32) | ((middle as i32) << 8) | ((high as i32) << 16),
                value == raw | !0x00ff_ffffi32,
        ;
        value
    } else {
        assert(raw & 0x0080_0000 == 0 ==> high < 128) by (bit_vector)
            requires
                raw == (low as i32) | ((middle as i32) << 8) | ((high as i32) << 16),
        ;
        raw
    }
}

} // verus!
