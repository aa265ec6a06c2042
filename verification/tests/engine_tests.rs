use afplay::error::Error;
use afplay::source::file::FilePlaybackOptions;
use afplay::source::mapped::ChannelMappedSource;
use afplay::source::resampled::{IdentityResampler, ResampledSource};
use afplay::source::synth::SynthPlaybackOptions;
use afplay::source::{AudioSource, AudioSourceTime, Sample, Volume};
use afplay::utils::fader::{FaderState, VolumeFader};
use afplay::utils::{unique_usize_id, UniqueIdSource};

/// Sample type used by the tests: a plain single-precision float.
#[derive(Debug, Clone, Copy, PartialEq)]
struct Smp(f32);

impl Sample for Smp {
    fn mixed_with(self, other: Self) -> Self {
        Smp(self.0 + other.0)
    }
    fn amplified(self, volume: Volume) -> Self {
        Smp(self.0 * f32::from_bits(volume.bits))
    }
    fn faded(self, num: u64, den: u64) -> Self {
        Smp(self.0 * (num as f32 / den as f32))
    }
}

fn vol(v: f32) -> Volume {
    Volume { bits: v.to_bits() }
}

/// A deterministic source for tests: plays a fixed sample vector once.
struct VecSource {
    data: Vec<Smp>,
    pos: usize,
    channels: usize,
    rate: u32,
    done: bool,
}

impl VecSource {
    fn new(data: Vec<Smp>, channels: usize, rate: u32) -> VecSource {
        VecSource { data, pos: 0, channels, rate, done: false }
    }
}

impl AudioSource<Smp> for VecSource {
    fn write(&mut self, output: &mut Vec<Smp>, _time: &AudioSourceTime) -> usize {
        if self.done {
            return 0;
        }
        let n = (self.data.len() - self.pos).min(output.len());
        for k in 0..n {
            output[k] = self.data[self.pos + k];
        }
        self.pos += n;
        if self.pos >= self.data.len() {
            self.done = true;
        }
        n
    }
    fn channel_count(&self) -> usize {
        self.channels
    }
    fn sample_rate(&self) -> u32 {
        self.rate
    }
    fn is_exhausted(&self) -> bool {
        self.done
    }
}

fn time_zero() -> AudioSourceTime {
    AudioSourceTime { pos_in_frames: 0 }
}

fn buf(n: usize) -> Vec<Smp> {
    vec![Smp(0.0); n]
}

#[test]
fn fader_starts_idle_and_passes_samples_through() {
    let mut fader = VolumeFader::new(1, 1000);
    assert_eq!(fader.state(), FaderState::Stopped);
    let mut out = vec![Smp(0.5); 10];
    fader.process(&mut out, 10);
    assert_eq!(fader.state(), FaderState::Stopped);
    for s in &out {
        assert_eq!(s.0, 0.5);
    }
}

#[test]
fn fade_out_ramps_linearly_to_silence() {
    // 50 ms at 1000 frames/sec = 50 ramp frames
    let mut fader = VolumeFader::new(1, 1000);
    fader.start_fade_out(50);
    assert_eq!(fader.state(), FaderState::IsFadingOut);
    let mut out = vec![Smp(1.0); 100];
    fader.process(&mut out, 100);
    // the ramp decays linearly and reaches exact silence at its end
    for k in 0..50usize {
        let expected = (50 - (k + 1)) as f32 / 50.0;
        assert!((out[k].0 - expected).abs() < 1e-6, "ramp sample {k}");
    }
    for k in 50..100usize {
        assert_eq!(out[k].0, 0.0, "post-ramp sample {k}");
    }
    assert_eq!(fader.state(), FaderState::Finished);
    assert!(fader.target_is_silence());
}

#[test]
fn fade_in_ramps_up_and_finishes() {
    let mut fader = VolumeFader::new(2, 1000);
    fader.start_fade_in(10);
    // 10 ramp frames at 2 channels = 20 samples
    let mut out = vec![Smp(1.0); 40];
    fader.process(&mut out, 40);
    assert_eq!(fader.state(), FaderState::Finished);
    assert!(!fader.target_is_silence());
    // both samples of frame k get factor (k+1)/10
    for k in 0..10usize {
        let expected = (k + 1) as f32 / 10.0;
        assert!((out[2 * k].0 - expected).abs() < 1e-6);
        assert!((out[2 * k + 1].0 - expected).abs() < 1e-6);
    }
    // after the ramp a finished fade-in passes samples through
    for k in 20..40usize {
        assert_eq!(out[k].0, 1.0);
    }
    // and further processing leaves the buffer alone
    let mut again = vec![Smp(0.25); 8];
    fader.process(&mut again, 8);
    for s in &again {
        assert_eq!(s.0, 0.25);
    }
}

#[test]
fn fader_gain_never_exceeds_unity() {
    let mut fader = VolumeFader::new(1, 1000);
    fader.start_fade_in(7);
    let mut out = vec![Smp(2.0); 30];
    fader.process(&mut out, 30);
    for s in &out {
        assert!(s.0.abs() <= 2.0 + 1e-6);
    }
}

#[test]
fn channel_mapper_duplicates_mono_to_stereo() {
    let data = vec![Smp(1.0), Smp(2.0), Smp(3.0)];
    let source = VecSource::new(data, 1, 44100);
    let mut mapped = ChannelMappedSource::new(source, 2, Smp(0.0));
    assert_eq!(mapped.channel_count(), 2);
    assert_eq!(mapped.sample_rate(), 44100);
    let mut out = buf(6);
    let written = mapped.write(&mut out, &time_zero());
    assert_eq!(written, 6);
    let got: Vec<f32> = out.iter().map(|s| s.0).collect();
    assert_eq!(got, vec![1.0, 1.0, 2.0, 2.0, 3.0, 3.0]);
}

#[test]
fn channel_mapper_fills_extra_channels_with_silence() {
    let data = vec![Smp(1.0), Smp(2.0)];
    let source = VecSource::new(data, 1, 48000);
    let mut mapped = ChannelMappedSource::new(source, 4, Smp(0.0));
    let mut out = vec![Smp(9.0); 8];
    let written = mapped.write(&mut out, &time_zero());
    assert_eq!(written, 8);
    let got: Vec<f32> = out.iter().map(|s| s.0).collect();
    assert_eq!(got, vec![1.0, 1.0, 0.0, 0.0, 2.0, 2.0, 0.0, 0.0]);
}

#[test]
fn channel_mapper_takes_first_channel_for_mono() {
    let data = vec![Smp(1.0), Smp(-1.0), Smp(2.0), Smp(-2.0)];
    let source = VecSource::new(data, 2, 48000);
    let mut mapped = ChannelMappedSource::new(source, 1, Smp(0.0));
    let mut out = buf(2);
    let written = mapped.write(&mut out, &time_zero());
    assert_eq!(written, 2);
    assert_eq!(out[0].0, 1.0);
    assert_eq!(out[1].0, 2.0);
}

#[test]
fn channel_mapper_keeps_equal_layouts_identical() {
    let data = vec![Smp(1.0), Smp(2.0), Smp(3.0), Smp(4.0)];
    let source = VecSource::new(data.clone(), 2, 48000);
    let mut mapped = ChannelMappedSource::new(source, 2, Smp(0.0));
    let mut out = buf(4);
    let written = mapped.write(&mut out, &time_zero());
    assert_eq!(written, 4);
    assert_eq!(out, data);
}

#[test]
fn channel_mapper_propagates_exhaustion() {
    let source = VecSource::new(vec![Smp(1.0)], 1, 48000);
    let mut mapped = ChannelMappedSource::new(source, 2, Smp(0.0));
    let mut out = buf(8);
    let _ = mapped.write(&mut out, &time_zero());
    assert!(mapped.is_exhausted());
    // once exhausted, writes return 0 and the source stays exhausted
    let w = mapped.write(&mut out, &time_zero());
    assert_eq!(w, 0);
    assert!(mapped.is_exhausted());
}

#[test]
fn identity_resampler_passes_samples_through() {
    let data: Vec<Smp> = (0..1000).map(|k| Smp(k as f32)).collect();
    let source = VecSource::new(data.clone(), 2, 44100);
    let kernel = IdentityResampler::new(64);
    let mut resampled = ResampledSource::new(source, kernel, 48000, 64, 64, Smp(0.0));
    assert_eq!(resampled.sample_rate(), 48000);
    assert_eq!(resampled.channel_count(), 2);
    let mut out = buf(1000);
    let written = resampled.write(&mut out, &time_zero());
    assert_eq!(written, 1000);
    assert_eq!(out, data);
    // the wrapped source ran dry: the next write returns nothing and the
    // adapter reports exhaustion, which is sticky
    let w = resampled.write(&mut out, &time_zero());
    assert_eq!(w, 0);
    assert!(resampled.is_exhausted());
    let w2 = resampled.write(&mut out, &time_zero());
    assert_eq!(w2, 0);
    assert!(resampled.is_exhausted());
}

/// A test kernel that downsamples two input samples to one, so the
/// resampling ratio is visible at the interface.
struct HalfRateKernel;

impl afplay::source::resampled::AudioResampler<Smp> for HalfRateKernel {
    fn process(
        &mut self,
        input: &Vec<Smp>,
        in_start: usize,
        in_end: usize,
        output: &mut Vec<Smp>,
    ) -> (usize, usize) {
        let pairs = ((in_end - in_start) / 2).min(output.len());
        for k in 0..pairs {
            output[k] = input[in_start + 2 * k];
        }
        (2 * pairs, pairs)
    }
    fn reset(&mut self) {}
}

#[test]
fn resampler_ratio_scales_emitted_sample_count() {
    // a 2:1 kernel emits half as many samples as the source produces
    let data: Vec<Smp> = (0..200).map(|k| Smp(k as f32)).collect();
    let source = VecSource::new(data, 1, 44100);
    let mut resampled = ResampledSource::new(source, HalfRateKernel, 22050, 100, 100, Smp(0.0));
    let mut out = buf(200);
    let written = resampled.write(&mut out, &time_zero());
    assert_eq!(written, 100);
    for k in 0..100usize {
        assert_eq!(out[k].0, (2 * k) as f32);
    }
}

#[test]
fn file_options_builders_compose() {
    let options = FilePlaybackOptions::new()
        .streamed()
        .with_volume(vol(0.5))
        .repeat(2)
        .start_at_time(24000)
        .fade_in(10)
        .fade_out_on_stop(50);
    assert!(options.stream);
    assert_eq!(options.volume.bits, 0.5f32.to_bits());
    assert_eq!(options.repeat, 2);
    assert_eq!(options.start_time_frames, 24000);
    assert_eq!(options.fade_in_ms, 10);
    assert_eq!(options.fade_out_on_stop_ms, 50);
    let preloaded = options.preloaded();
    assert!(!preloaded.stream);
    assert_eq!(FilePlaybackOptions::new().repeat_forever().repeat, usize::MAX);
}

#[test]
fn volume_validation_rejects_nan_and_negative() {
    assert!(FilePlaybackOptions::new().with_volume(vol(1.0)).validate().is_ok());
    assert!(FilePlaybackOptions::new().with_volume(vol(0.0)).validate().is_ok());
    assert!(FilePlaybackOptions::new().with_volume(vol(-0.0)).validate().is_ok());
    assert!(FilePlaybackOptions::new().with_volume(vol(2.0)).validate().is_ok());
    assert!(FilePlaybackOptions::new().with_volume(vol(f32::INFINITY)).validate().is_ok());
    assert_eq!(
        FilePlaybackOptions::new().with_volume(vol(-1.0)).validate(),
        Err(Error::ParameterError)
    );
    assert_eq!(
        FilePlaybackOptions::new().with_volume(vol(f32::NAN)).validate(),
        Err(Error::ParameterError)
    );
    assert_eq!(
        FilePlaybackOptions::new().with_volume(vol(f32::NEG_INFINITY)).validate(),
        Err(Error::ParameterError)
    );
    let synth = SynthPlaybackOptions::new().volume(vol(-0.5));
    assert_eq!(synth.validate(), Err(Error::ParameterError));
    assert!(SynthPlaybackOptions::new().validate().is_ok());
}

#[test]
fn option_defaults_match_builders() {
    assert_eq!(FilePlaybackOptions::default(), FilePlaybackOptions::new());
    assert_eq!(SynthPlaybackOptions::default(), SynthPlaybackOptions::new());
    let defaults = FilePlaybackOptions::default();
    assert!(!defaults.stream);
    assert_eq!(defaults.volume.bits, 1.0f32.to_bits());
    assert_eq!(defaults.repeat, 0);
    assert_eq!(defaults.start_time_frames, 0);
}

#[test]
fn unique_ids_count_upwards_from_one() {
    let mut ids = UniqueIdSource::new();
    let a = unique_usize_id(&mut ids);
    let b = unique_usize_id(&mut ids);
    let c = unique_usize_id(&mut ids);
    assert_eq!(a, 1);
    assert_eq!(b, 2);
    assert_eq!(c, 3);
}

#[test]
fn error_descriptions_are_not_empty() {
    let errors = [
        Error::DecodeError,
        Error::ParameterError,
        Error::NotFound,
        Error::NotSupported,
        Error::SendError,
        Error::ResamplerError,
    ];
    for error in errors {
        assert!(!error.description().is_empty());
    }
}

#[test]
fn source_time_advances_by_frames() {
    let t = AudioSourceTime { pos_in_frames: 100 };
    assert_eq!(t.with_added_frames(28).pos_in_frames, 128);
}
