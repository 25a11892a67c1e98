//! Making a fingerprint from PCM samples.
//!
//! The samples are signed 16-bit, interleaved by channel, and come in blocks
//! of whole frames. The spectral analysis and the classifier that turn them
//! into codes are those of `rusty_chromaprint`; this module drives them.

use crate::preset::{configuration_id, Preset};
use vstd::prelude::*;

verus! {

#[verifier::external_type_specification]
#[verifier::external_body]
pub struct ExFingerprinter(rusty_chromaprint::Fingerprinter);

/// The sample rate must be above this, in Hz.
pub const MIN_SAMPLE_RATE: u32 = 1000;

/// The sample rate that the analysis works at, in Hz. Audio at another rate
/// is resampled to it.
pub const TARGET_SAMPLE_RATE: u32 = 11025;

/// The most channels that a frame can have: the sum of one frame's samples
/// must fit in 32 bits.
pub const MAX_CHANNELS: u32 = 65536;

/// The number of samples, at the target rate, that one analysis frame spans.
pub const FRAME_SIZE: u32 = 4096;

/// The number of samples, at the target rate, from the start of one analysis
/// frame to the start of the next.
pub const FRAME_STEP: u32 = 1365;

/// The number of analysis frames that are in before the first code comes:
/// four that the filter over five frames waits for, and fifteen that the
/// classifiers, which look at sixteen, wait for.
pub const FRAMES_HELD_BACK: u32 = 19;

/// The resampler takes in this many frames at a time, and what is left at
/// the end.
pub const RESAMPLER_BLOCK: u32 = 32768;

/// Why no fingerprint could be made.
#[derive(Debug, Clone, Copy, PartialEq, Eq, Structural)]
pub enum GeneratorError {
    /// The channel count is zero.
    NoChannels,
    /// The channel count is above `MAX_CHANNELS`.
    TooManyChannels,
    /// The sample rate is `MIN_SAMPLE_RATE` or less.
    SampleRateTooLow,
    /// No resampler could be set up for the sample rate. The algorithm has
    /// this refusal, but no sample rate above `MIN_SAMPLE_RATE` brings it
    /// about.
    CannotResample,
    /// The block with this index is not a whole number of frames.
    MisalignedBlock { index: usize },
}

impl GeneratorError {
    /// The words in which a failure to make a fingerprint is reported.
    pub open spec fn message_text(self) -> Seq<char> {
        match self {
            GeneratorError::MisalignedBlock { .. } => "Sample block is not a whole number of frames"@,
            _ => "Failed to start fingerprinter"@,
        }
    }

    /// Reports the failure in words.
    pub fn message(&self) -> (text: &'static str)
        ensures
            text@ == self.message_text(),
    {
        match self {
            GeneratorError::MisalignedBlock { .. } => "Sample block is not a whole number of frames",
            _ => "Failed to start fingerprinter",
        }
    }
}

/// The channel count that a fingerprinter was started with; zero for one
/// that was not started.
pub uninterp spec fn printer_channels(printer: rusty_chromaprint::Fingerprinter) -> nat;

/// The sample rate that a fingerprinter was started with.
pub uninterp spec fn printer_rate(printer: rusty_chromaprint::Fingerprinter) -> u32;

/// The identifier of the configuration that a fingerprinter was made with.
pub uninterp spec fn printer_preset(printer: rusty_chromaprint::Fingerprinter) -> u8;

/// The number of frames that a fingerprinter has taken in since its start.
pub uninterp spec fn printer_frames(printer: rusty_chromaprint::Fingerprinter) -> nat;

/// Whether a fingerprinter has been finished, so that all that it took in
/// has reached its analysis.
pub uninterp spec fn printer_flushed(printer: rusty_chromaprint::Fingerprinter) -> bool;

/// The number of samples at the target rate that the resampler hands on for
/// a number of frames, above zero, at a sample rate other than the target
/// rate.
pub uninterp spec fn resampled_frames(sample_rate: u32, frames: nat) -> nat;

/// A fingerprint in the making: started for a sample rate and a channel
/// count, fed with blocks of samples, and finished once.
pub struct Generator {
    printer: rusty_chromaprint::Fingerprinter,
    sample_rate: u32,
    channels: u32,
    fed: bool,
    samples: Ghost<Seq<i16>>,
}

/// The samples of all blocks, in order.
pub open spec fn all_samples(blocks: Seq<Vec<i16>>) -> Seq<i16>
    decreases blocks.len(),
{
    if blocks.len() == 0 {
        Seq::empty()
    } else {
        all_samples(blocks.drop_last()) + blocks.last()@
    }
}

/// Whether a block is a whole number of frames of `channels` samples.
pub open spec fn aligned(block: Seq<i16>, channels: u32) -> bool {
    channels > 0 && block.len() % (channels as nat) == 0
}

/// The number of codes that come of a number of samples at the target rate:
/// none until the first analysis frame and those held back are in, then one,
/// and one more with every further step.
pub open spec fn code_count(samples: nat) -> nat {
    if samples < FRAME_SIZE + FRAMES_HELD_BACK * FRAME_STEP {
        0
    } else {
        ((samples - FRAME_SIZE) / (FRAME_STEP as int) - (FRAMES_HELD_BACK - 1)) as nat
    }
}

/// The number of samples at the target rate that the analysis gets of a
/// number of frames at a sample rate: the frames themselves at the target
/// rate, else what the resampler hands on.
pub open spec fn analysed(sample_rate: u32, frames: nat) -> nat {
    if frames == 0 || sample_rate == TARGET_SAMPLE_RATE {
        frames
    } else {
        resampled_frames(sample_rate, frames)
    }
}

/// A number that `analysed` does not exceed: at another rate than the target
/// rate, the frames in proportion of the two rates, and eleven more for
/// every time that the resampler takes frames in.
pub open spec fn analysed_at_most(sample_rate: u32, frames: nat) -> nat {
    if frames == 0 || sample_rate == TARGET_SAMPLE_RATE {
        frames
    } else {
        ((frames * TARGET_SAMPLE_RATE) / (sample_rate as int) + 11 * (frames / (
        RESAMPLER_BLOCK as nat) + 1)) as nat
    }
}

/// Why the algorithm's fingerprinter does not start for a sample rate and a
/// channel count, if it does not.
pub open spec fn reset_failure(sample_rate: u32, channels: u32) -> Option<GeneratorError> {
    if channels == 0 {
        Some(GeneratorError::NoChannels)
    } else if sample_rate <= MIN_SAMPLE_RATE {
        Some(GeneratorError::SampleRateTooLow)
    } else {
        None
    }
}

/// Why `Generator::start` fails for a sample rate and a channel count, if it
/// does: more than `MAX_CHANNELS` channels are refused, and the
/// fingerprinter refuses the rest.
pub open spec fn start_failure(sample_rate: u32, channels: u32) -> Option<GeneratorError> {
    if channels > MAX_CHANNELS {
        Some(GeneratorError::TooManyChannels)
    } else {
        reset_failure(sample_rate, channels)
    }
}

/// More samples give no fewer codes.
pub proof fn code_count_grows(fewer: nat, more: nat)
    requires
        fewer <= more,
    ensures
        code_count(fewer) <= code_count(more),
{
    if fewer >= FRAME_SIZE + FRAMES_HELD_BACK * FRAME_STEP {
        vstd::arithmetic::div_mod::lemma_div_is_ordered(
            fewer - FRAME_SIZE,
            more - FRAME_SIZE,
            FRAME_STEP as int,
        );
    }
}

/// Audio shorter than one analysis frame has no codes, at whatever sample
/// rate: where the frames, fewer than 2^26 of them, take less time than
/// `FRAME_SIZE` samples take at the target rate, `analysed_at_most` is below
/// what the first code needs.
pub proof fn short_audio_has_no_codes(sample_rate: u32, frames: nat)
    requires
        sample_rate > 0,
        frames < 0x400_0000,
        frames * TARGET_SAMPLE_RATE < FRAME_SIZE * sample_rate,
    ensures
        code_count(analysed_at_most(sample_rate, frames)) == 0,
{
    if frames != 0 && sample_rate != TARGET_SAMPLE_RATE {
        let scaled = frames * TARGET_SAMPLE_RATE;
        assert(scaled / (sample_rate as int) < FRAME_SIZE) by {
            vstd::arithmetic::div_mod::lemma_div_is_ordered(
                scaled,
                FRAME_SIZE * sample_rate - 1,
                sample_rate as int,
            );
            vstd::arithmetic::div_mod::lemma_fundamental_div_mod_converse(
                FRAME_SIZE * sample_rate - 1,
                sample_rate as int,
                FRAME_SIZE - 1,
                sample_rate - 1,
            );
        }
    }
}

impl Generator {
    /// What holds of every generator that `start` made, whatever it has
    /// consumed since: between one channel and `MAX_CHANNELS`, a sample rate
    /// above `MIN_SAMPLE_RATE`, whole frames consumed, and a fingerprinter
    /// of the first preset that was started for that rate and those channels,
    /// has taken in those frames and is not finished.
    pub closed spec fn wf(self) -> bool {
        &&& 0 < self.channels <= MAX_CHANNELS
        &&& self.sample_rate > MIN_SAMPLE_RATE
        &&& printer_preset(self.printer) == 0
        &&& printer_channels(self.printer) == self.channels
        &&& printer_rate(self.printer) == self.sample_rate
        &&& printer_frames(self.printer) == self.samples@.len() / (self.channels as nat)
        &&& !printer_flushed(self.printer)
        &&& self.fed <==> self.samples@.len() > 0
        &&& self.samples@.len() % (self.channels as nat) == 0
    }

    /// The sample rate that the generator was started with, in Hz.
    pub closed spec fn sample_rate(self) -> u32 {
        self.sample_rate
    }

    /// The channel count that the generator was started with.
    pub closed spec fn channels(self) -> u32 {
        self.channels
    }

    /// All samples consumed so far, in order.
    pub closed spec fn consumed(self) -> Seq<i16> {
        self.samples@
    }

    /// The frames consumed so far.
    pub open spec fn frames(self) -> nat {
        self.consumed().len() / (self.channels() as nat)
    }

    /// The bounds that a well-formed generator keeps.
    pub proof fn bounds(self)
        requires
            self.wf(),
        ensures
            0 < self.channels() <= MAX_CHANNELS,
            self.sample_rate() > MIN_SAMPLE_RATE,
            aligned(self.consumed(), self.channels()),
    {
    }

    /// Starts a fingerprint for audio of `channels` channels at
    /// `sample_rate` Hz. It fails for no channels, for more than
    /// `MAX_CHANNELS`, and for a rate of `MIN_SAMPLE_RATE` or less, and for
    /// nothing else.
    pub fn start(preset: &Preset, sample_rate: u32, channels: u32) -> (r: Result<
        Generator,
        GeneratorError,
    >)
        ensures
            match r {
                Ok(generator) => {
                    &&& start_failure(sample_rate, channels) is None
                    &&& generator.wf()
                    &&& generator.sample_rate() == sample_rate
                    &&& generator.channels() == channels
                    &&& generator.consumed() == Seq::<i16>::empty()
                },
                Err(e) => start_failure(sample_rate, channels) == Some(e),
            },
    {
        if channels > MAX_CHANNELS {
            return Err(GeneratorError::TooManyChannels);
        }
        proof {
            use_type_invariant(preset);
        }
        let mut printer = printer_new(preset.parameters());
        match printer_start(&mut printer, sample_rate, channels) {
            Ok(()) => Ok(
                Generator {
                    printer,
                    sample_rate,
                    channels,
                    fed: false,
                    samples: Ghost(Seq::empty()),
                },
            ),
            Err(e) => Err(e),
        }
    }

    /// Takes in the next block of samples and hands it to the algorithm. The
    /// block holds whole frames: its length is a multiple of the channel
    /// count. It may be empty.
    pub fn consume(&mut self, samples: &[i16])
        requires
            old(self).wf(),
            aligned(samples@, old(self).channels()),
        ensures
            final(self).wf(),
            final(self).sample_rate() == old(self).sample_rate(),
            final(self).channels() == old(self).channels(),
            final(self).consumed() == old(self).consumed() + samples@,
    {
        if samples.len() > 0 {
            let ghost before = self.samples@;
            printer_consume(&mut self.printer, samples);
            self.fed = true;
            self.samples = Ghost(before + samples@);
            proof {
                let m = self.channels as int;
                let x = before.len() as int;
                let y = samples@.len() as int;
                assert((before + samples@).len() == x + y);
                frames_add_up(x, y, m);
            }
        } else {
            assert(self.samples@ + samples@ =~= self.samples@);
        }
    }

    /// Ends the fingerprint and hands out its codes, one per analysis frame
    /// once the frames held back are in: as many as `code_count` gives for
    /// the samples that the analysis got of the frames consumed. Which codes
    /// they are is the algorithm's matter.
    pub fn finish(self) -> (codes: Vec<u32>)
        requires
            self.wf(),
        ensures
            codes@.len() == code_count(analysed(self.sample_rate(), self.frames())),
            codes@.len() <= code_count(analysed_at_most(self.sample_rate(), self.frames())),
    {
        if !self.fed {
            return Vec::new();
        }
        let mut printer = self.printer;
        printer_finish(&mut printer);
        printer_fingerprint(&printer)
    }
}

/// Frames add up: of two runs of whole frames, one after the other, there
/// are as many frames as of the two apart.
proof fn frames_add_up(x: int, y: int, m: int)
    requires
        0 <= x,
        0 <= y,
        0 < m,
        x % m == 0,
        y % m == 0,
    ensures
        (x + y) % m == 0,
        (x + y) / m == x / m + y / m,
{
    vstd::arithmetic::div_mod::lemma_fundamental_div_mod(x, m);
    vstd::arithmetic::div_mod::lemma_fundamental_div_mod(y, m);
    assert(x + y == (x / m + y / m) * m + 0) by (nonlinear_arith)
        requires
            x == m * (x / m) + x % m,
            y == m * (y / m) + y % m,
            x % m == 0,
            y % m == 0,
    ;
    vstd::arithmetic::div_mod::lemma_fundamental_div_mod_converse(x + y, m, x / m + y / m, 0);
}

/// Makes the fingerprint of audio held in memory as blocks of samples. It
/// fails where `Generator::start` fails, and on the first block that does
/// not hold whole frames; else there are as many codes as `code_count` gives
/// for the samples that the analysis got of all frames.
pub fn fingerprint_pcm(preset: &Preset, sample_rate: u32, channels: u32, blocks: &[Vec<i16>]) -> (r:
    Result<Vec<u32>, GeneratorError>)
    ensures
        match r {
            Ok(codes) => {
                let frames = all_samples(blocks@).len() / (channels as nat);
                &&& start_failure(sample_rate, channels) is None
                &&& forall|i: int| 0 <= i < blocks@.len() ==> aligned(#[trigger] blocks@[i]@, channels)
                &&& codes@.len() == code_count(analysed(sample_rate, frames))
                &&& codes@.len() <= code_count(analysed_at_most(sample_rate, frames))
            },
            Err(GeneratorError::MisalignedBlock { index }) => {
                &&& start_failure(sample_rate, channels) is None
                &&& index < blocks@.len()
                &&& !aligned(blocks@[index as int]@, channels)
                &&& forall|i: int| 0 <= i < index ==> aligned(#[trigger] blocks@[i]@, channels)
            },
            Err(e) => start_failure(sample_rate, channels) == Some(e),
        },
{
    let mut generator = match Generator::start(preset, sample_rate, channels) {
        Ok(generator) => generator,
        Err(e) => {
            return Err(e);
        },
    };
    let mut i: usize = 0;
    while i < blocks.len()
        invariant
            i <= blocks@.len(),
            0 < channels <= MAX_CHANNELS,
            start_failure(sample_rate, channels) is None,
            generator.wf(),
            generator.channels() == channels,
            generator.sample_rate() == sample_rate,
            generator.consumed() == all_samples(blocks@.take(i as int)),
            forall|j: int| 0 <= j < i ==> aligned(#[trigger] blocks@[j]@, channels),
        decreases blocks@.len() - i,
    {
        let block = &blocks[i];
        if block.len() % (channels as usize) != 0 {
            return Err(GeneratorError::MisalignedBlock { index: i });
        }
        generator.consume(block.as_slice());
        proof {
            assert(blocks@.take(i + 1).drop_last() =~= blocks@.take(i as int));
        }
        i += 1;
    }
    proof {
        assert(blocks@.take(i as int) =~= blocks@);
    }
    Ok(generator.finish())
}

/// Calls `rusty_chromaprint::Fingerprinter::new`.
///
/// That function panics on a configuration without classifiers, as two of
/// the later presets are; `requires` admits the first preset only. Taken on
/// trust: the fingerprinter is made with the configuration given, and is not
/// started.
#[verifier::external_body]
fn printer_new(parameters: &rusty_chromaprint::Configuration) -> (printer:
    rusty_chromaprint::Fingerprinter)
    requires
        configuration_id(*parameters) == 0,
    ensures
        printer_preset(printer) == configuration_id(*parameters),
        printer_channels(printer) == 0,
{
    rusty_chromaprint::Fingerprinter::new(parameters)
}

/// Calls `rusty_chromaprint::Fingerprinter::start`, on a fingerprinter that
/// was not started before, and names its error.
///
/// Taken on trust: zero channels are refused first, then a sample rate of
/// `MIN_SAMPLE_RATE` or less, and nothing else. The resampler, which is set
/// up for every rate but the target rate, refuses a ratio that is not above
/// zero and a relative ratio below one; it is given the target rate over the
/// sample rate, and one. After success the fingerprinter holds the sample
/// rate and the channel count and has taken in nothing.
#[verifier::external_body]
fn printer_start(printer: &mut rusty_chromaprint::Fingerprinter, sample_rate: u32, channels: u32)
    -> (r: Result<(), GeneratorError>)
    requires
        printer_channels(*old(printer)) == 0,
    ensures
        printer_preset(*final(printer)) == printer_preset(*old(printer)),
        match r {
            Ok(()) => {
                &&& reset_failure(sample_rate, channels) is None
                &&& printer_channels(*final(printer)) == channels
                &&& printer_rate(*final(printer)) == sample_rate
                &&& printer_frames(*final(printer)) == 0
                &&& !printer_flushed(*final(printer))
            },
            Err(e) => reset_failure(sample_rate, channels) == Some(e),
        },
{
    match printer.start(sample_rate, channels) {
        Ok(()) => Ok(()),
        Err(rusty_chromaprint::ResetError::NoChannels) => Err(GeneratorError::NoChannels),
        Err(rusty_chromaprint::ResetError::SampleRateTooLow) => Err(
            GeneratorError::SampleRateTooLow,
        ),
        Err(rusty_chromaprint::ResetError::CannotResample(_)) => Err(
            GeneratorError::CannotResample,
        ),
    }
}

/// Calls `rusty_chromaprint::Fingerprinter::consume`, on a fingerprinter
/// that is started and not finished.
///
/// That function panics on a block that is not a whole number of frames, on
/// a fingerprinter that was not started, and, where arithmetic overflow
/// traps, on a frame whose samples do not sum in 32 bits; `requires` rules
/// these out. Taken on trust: the fingerprinter takes in the frames of the
/// block, and its preset, rate and channel count stay.
#[verifier::external_body]
fn printer_consume(printer: &mut rusty_chromaprint::Fingerprinter, samples: &[i16])
    requires
        0 < printer_channels(*old(printer)) <= MAX_CHANNELS,
        samples@.len() % printer_channels(*old(printer)) == 0,
        !printer_flushed(*old(printer)),
    ensures
        printer_preset(*final(printer)) == printer_preset(*old(printer)),
        printer_channels(*final(printer)) == printer_channels(*old(printer)),
        printer_rate(*final(printer)) == printer_rate(*old(printer)),
        printer_frames(*final(printer)) == printer_frames(*old(printer)) + samples@.len()
            / printer_channels(*old(printer)),
        !printer_flushed(*final(printer)),
{
    printer.consume(samples)
}

/// Calls `rusty_chromaprint::Fingerprinter::finish`, on a fingerprinter that
/// is started and not finished. It flushes what the fingerprinter has
/// buffered.
///
/// Taken on trust: the fingerprinter is finished, and what it was started
/// with and has taken in stays.
#[verifier::external_body]
fn printer_finish(printer: &mut rusty_chromaprint::Fingerprinter)
    requires
        0 < printer_channels(*old(printer)),
        !printer_flushed(*old(printer)),
    ensures
        printer_preset(*final(printer)) == printer_preset(*old(printer)),
        printer_channels(*final(printer)) == printer_channels(*old(printer)),
        printer_rate(*final(printer)) == printer_rate(*old(printer)),
        printer_frames(*final(printer)) == printer_frames(*old(printer)),
        printer_flushed(*final(printer)),
{
    printer.finish()
}

/// Calls `rusty_chromaprint::Fingerprinter::fingerprint` and copies the codes
/// out.
///
/// Taken on trust, of a finished fingerprinter of the first preset: there
/// are as many codes as `code_count` gives for the samples that reached the
/// analysis. Those are the frames taken in, as they are at the target rate
/// and through the resampler at another. How many samples the resampler
/// hands on depends on the sample rate and the number of frames alone. Each
/// time it takes frames in, `RESAMPLER_BLOCK` of them or what is left at the
/// end, it writes into room for those frames in proportion of the two rates
/// and ten more, worked out in floating point; eleven more is what
/// `analysed_at_most` allows for. Nothing is claimed of the codes
/// themselves: they come out of floating-point work that may be done
/// differently from one machine to the next.
#[verifier::external_body]
fn printer_fingerprint(printer: &rusty_chromaprint::Fingerprinter) -> (codes: Vec<u32>)
    ensures
        printer_preset(*printer) == 0 && printer_flushed(*printer) ==> codes@.len() == code_count(
            if printer_frames(*printer) == 0 || printer_rate(*printer) == TARGET_SAMPLE_RATE {
                printer_frames(*printer)
            } else {
                resampled_frames(printer_rate(*printer), printer_frames(*printer))
            },
        ),
        printer_preset(*printer) == 0 && printer_flushed(*printer) ==> codes@.len() <= code_count(
            analysed_at_most(printer_rate(*printer), printer_frames(*printer)),
        ),
{
    printer.fingerprint().to_vec()
}

} // verus!
