//! Kernel bank construction and the per-frame transform.
use vstd::prelude::*;

verus! {

/// Why a set of analysis parameters was refused.
#[derive(Debug, Clone, Copy, PartialEq, Eq, Structural)]
pub enum ConfigError {
    /// `bins_per_octave` is 0 or 1, so the quality factor is undefined.
    InvalidBinsPerOctave,
    /// `n_bins` is 0.
    NoBins,
    /// `sample_rate` is 0.
    InvalidSampleRate,
    /// `fft_size` is 0.
    InvalidFftSize,
}

/// The integer analysis parameters shared by every kernel of a bank.
#[derive(Debug, Clone, Copy, PartialEq, Eq, Structural)]
pub struct KernelConfig {
    pub sample_rate: u32,
    pub fft_size: u16,
    pub bins_per_octave: u16,
    pub n_bins: u16,
}

impl KernelConfig {
    /// The parameters admit a kernel bank.
    pub open spec fn valid(&self) -> bool {
        &&& self.sample_rate > 0
        &&& self.fft_size > 0
        &&& self.bins_per_octave > 1
        &&& self.n_bins > 0
    }

    /// Checks the parameters, reporting the first problem in the order
    /// bins per octave, bin count, sample rate, window size.
    pub fn new(sample_rate: u32, fft_size: u16, bins_per_octave: u16, n_bins: u16) -> (r: Result<
        KernelConfig,
        ConfigError,
    >)
        ensures
            bins_per_octave <= 1 <==> r == Err::<KernelConfig, ConfigError>(
                ConfigError::InvalidBinsPerOctave,
            ),
            (bins_per_octave > 1 && n_bins == 0) <==> r == Err::<KernelConfig, ConfigError>(
                ConfigError::NoBins,
            ),
            (bins_per_octave > 1 && n_bins > 0 && sample_rate == 0) <==> r == Err::<
                KernelConfig,
                ConfigError,
            >(ConfigError::InvalidSampleRate),
            (bins_per_octave > 1 && n_bins > 0 && sample_rate > 0 && fft_size == 0) <==> r
                == Err::<KernelConfig, ConfigError>(ConfigError::InvalidFftSize),
            r is Ok <==> (bins_per_octave > 1 && n_bins > 0 && sample_rate > 0 && fft_size > 0),
            r matches Ok(c) ==> c.valid() && c == (KernelConfig {
                sample_rate,
                fft_size,
                bins_per_octave,
                n_bins,
            }),
    {
        if bins_per_octave <= 1 {
            Err(ConfigError::InvalidBinsPerOctave)
        } else if n_bins == 0 {
            Err(ConfigError::NoBins)
        } else if sample_rate == 0 {
            Err(ConfigError::InvalidSampleRate)
        } else if fft_size == 0 {
            Err(ConfigError::InvalidFftSize)
        } else {
            Ok(KernelConfig { sample_rate, fft_size, bins_per_octave, n_bins })
        }
    }
}

/// Support length of a kernel: its ideal length, cut down to the window size
/// when it does not fit.
pub open spec fn support_len(fft_size: int, ideal_len: int) -> int {
    if ideal_len > fft_size {
        fft_size
    } else {
        ideal_len
    }
}

/// Offset of a support of length `len` centred in a window of `fft_size`
/// samples: `ceil((fft_size - len) / 2)` for an even length, one sample
/// earlier for an odd one, never before the window's first sample.
pub open spec fn support_start(fft_size: int, len: int) -> int {
    let half_gap = (fft_size - len + 1) / 2;
    if len % 2 == 1 {
        if half_gap >= 1 {
            half_gap - 1
        } else {
            0
        }
    } else {
        half_gap
    }
}

/// Signed distance of sample `i` from the centre of a support of length `len`
/// starting at `start`: the first synthesised sample, `start + 1`, sits at
/// `-(len / 2)` and each later one a step further.
pub open spec fn sample_offset(start: int, len: int, i: int) -> int {
    i - start - 1 - len / 2
}

/// Samples of a support that carry a value: the open interval
/// `(start, start + len)`, one sample in from each end.
pub open spec fn in_open_support(start: int, len: int, i: int) -> bool {
    start < i < start + len
}

/// Every kernel's support lies inside the window: it starts at or after the
/// first sample, ends at or before the last, and is never longer than the
/// window.
pub proof fn lemma_support_within_window(fft_size: int, ideal_len: int)
    requires
        0 <= fft_size,
        0 <= ideal_len,
    ensures
        ({
            let len = support_len(fft_size, ideal_len);
            let start = support_start(fft_size, len);
            &&& 0 <= start
            &&& start + len <= fft_size
            &&& len <= fft_size
        }),
{
}

/// A support is centred on the middle of the window to within one sample:
/// an odd-length one lies at most one sample before the middle, an
/// even-length one at most half a sample after it. In twice-sample units the
/// support's centre `start + len / 2` is compared with `fft_size / 2`.
pub proof fn lemma_support_centred(fft_size: int, ideal_len: int)
    requires
        0 <= fft_size,
        0 <= ideal_len,
    ensures
        ({
            let len = support_len(fft_size, ideal_len);
            let twice_centre = 2 * support_start(fft_size, len) + len;
            &&& len % 2 == 1 ==> fft_size - 2 <= twice_centre <= fft_size
            &&& len % 2 == 0 ==> fft_size <= twice_centre <= fft_size + 1
        }),
{
}

/// A bin whose ideal support is longer than the window gets the whole
/// window as its support, placed at the window's start.
pub proof fn lemma_oversized_support_clamped(fft_size: int, ideal_len: int)
    requires
        0 <= fft_size < ideal_len,
    ensures
        support_len(fft_size, ideal_len) == fft_size,
        support_start(fft_size, fft_size) == 0,
{
}

/// The placement of one kernel inside the shared window.
pub fn kernel_support(fft_size: u16, ideal_len: u16) -> (r: (u16, u16))
    ensures
        r.0 == support_len(fft_size as int, ideal_len as int),
        r.1 == support_start(fft_size as int, r.0 as int),
        r.1 + r.0 <= fft_size,
{
    let len: u16 = if ideal_len > fft_size { fft_size } else { ideal_len };
    let half_gap: u16 = (((fft_size - len) as u32 + 1) / 2) as u16;
    let start: u16 = if len % 2 == 1 {
        if half_gap >= 1 { half_gap - 1 } else { 0 }
    } else {
        half_gap
    };
    (len, start)
}

/// One bin's kernel. `signal` spans the whole shared window; only the samples
/// strictly inside `(start, start + len)` carry a value.
pub struct TimeKernel<C> {
    pub signal: Vec<C>,
    pub len: u16,
    pub start: u16,
}

impl<C> TimeKernel<C> {
    /// The kernel spans a window of `fft_size` samples and its support lies
    /// inside it.
    pub open spec fn fits(&self, fft_size: int) -> bool {
        &&& self.signal.len() == fft_size
        &&& self.start + self.len <= fft_size
    }
}

/// What a kernel bank built from `config` and `ideal_lens` holds for bin `k`:
/// its support placed by `kernel_support`, `zero` outside the open support,
/// and inside it a value that `synth` returns for the bin, the support
/// length, the sample index and the sample's offset from the centre.
pub open spec fn is_kernel_of<C, F: Fn(u16, u16, u16, i32) -> C>(
    kernel: TimeKernel<C>,
    fft_size: int,
    k: int,
    ideal_len: int,
    zero: C,
    synth: F,
) -> bool {
    &&& kernel.len == support_len(fft_size, ideal_len)
    &&& kernel.start == support_start(fft_size, kernel.len as int)
    &&& kernel.signal.len() == fft_size
    &&& forall|i: int|
        0 <= i < fft_size && !in_open_support(kernel.start as int, kernel.len as int, i)
            ==> #[trigger] kernel.signal[i] == zero
    &&& forall|i: int|
        0 <= i < fft_size && in_open_support(kernel.start as int, kernel.len as int, i)
            ==> call_ensures(
            synth,
            (
                k as u16,
                kernel.len,
                i as u16,
                sample_offset(kernel.start as int, kernel.len as int, i) as i32,
            ),
            #[trigger] kernel.signal[i],
        )
}

/// Builds one kernel per bin, in bin order. `ideal_lens[k]` is bin `k`'s
/// ideal support length; `synth` gives the value of a synthesised sample.
pub fn init_time_domain_kernel<C: Copy, F: Fn(u16, u16, u16, i32) -> C>(
    config: &KernelConfig,
    ideal_lens: &Vec<u16>,
    zero: C,
    synth: F,
) -> (r: Vec<TimeKernel<C>>)
    requires
        config.valid(),
        ideal_lens.len() == config.n_bins,
        forall|k: u16, len: u16, i: u16, s: i32| call_requires(synth, (k, len, i, s)),
    ensures
        r.len() == config.n_bins,
        forall|k: int|
            0 <= k < r.len() ==> (#[trigger] r[k]).fits(config.fft_size as int) && is_kernel_of(
                r[k],
                config.fft_size as int,
                k,
                ideal_lens[k] as int,
                zero,
                synth,
            ),
{
    let fft_size = config.fft_size;
    let n_bins = config.n_bins;
    let mut bank: Vec<TimeKernel<C>> = Vec::new();
    let mut k: u16 = 0;
    while k < n_bins
        invariant
            k <= n_bins,
            n_bins == config.n_bins,
            fft_size == config.fft_size,
            ideal_lens.len() == n_bins,
            bank.len() == k,
            forall|k: u16, len: u16, i: u16, s: i32| call_requires(synth, (k, len, i, s)),
            forall|j: int|
                0 <= j < k ==> (#[trigger] bank[j]).fits(fft_size as int) && is_kernel_of(
                    bank[j],
                    fft_size as int,
                    j,
                    ideal_lens[j] as int,
                    zero,
                    synth,
                ),
        decreases n_bins - k,
    {
        let (len, start) = kernel_support(fft_size, ideal_lens[k as usize]);
        let mut signal: Vec<C> = Vec::new();
        let mut i: u16 = 0;
        while i < fft_size
            invariant
                i <= fft_size,
                start + len <= fft_size,
                signal.len() == i,
                forall|k: u16, len: u16, i: u16, s: i32| call_requires(synth, (k, len, i, s)),
                forall|j: int|
                    0 <= j < i && !in_open_support(start as int, len as int, j)
                        ==> #[trigger] signal[j] == zero,
                forall|j: int|
                    0 <= j < i && in_open_support(start as int, len as int, j) ==> call_ensures(
                        synth,
                        (k, len, j as u16, sample_offset(start as int, len as int, j) as i32),
                        #[trigger] signal[j],
                    ),
            decreases fft_size - i,
        {
            if start < i && i < start + len {
                let offset: i32 = (i - start - 1) as i32 - (len / 2) as i32;
                let value = synth(k, len, i, offset);
                signal.push(value);
            } else {
                signal.push(zero);
            }
            i = i + 1;
        }
        let kernel = TimeKernel { signal, len, start };
        bank.push(kernel);
        k = k + 1;
    }
    bank
}

/// The samples of `frame` that bin `kernel` is correlated against: those of
/// its support `[start, start + len)`.
pub open spec fn frame_window<S, C>(frame: Seq<S>, kernel: TimeKernel<C>) -> Seq<S> {
    frame.subrange(kernel.start as int, kernel.start + kernel.len)
}

/// The part of the kernel's signal that covers its support.
pub open spec fn kernel_window<C>(kernel: TimeKernel<C>) -> Seq<C> {
    kernel.signal@.subrange(kernel.start as int, kernel.start + kernel.len)
}

/// `magnitude` is a value that `project` returns when handed the frame
/// window and the kernel window of `kernel`.
pub open spec fn projects<S, C, M, F: Fn(&[S], &[C]) -> M>(
    project: F,
    frame: Seq<S>,
    kernel: TimeKernel<C>,
    magnitude: M,
) -> bool {
    exists|a: &[S], b: &[C]|
        #![trigger call_ensures(project, (a, b), magnitude)]
        a@ == frame_window(frame, kernel) && b@ == kernel_window(kernel) && call_ensures(
            project,
            (a, b),
            magnitude,
        )
}

/// Computes one magnitude per bin, in bin order. Each bin's `project` call
/// sees only the frame samples and kernel samples of that bin's support, so
/// a frame costs the sum of the support lengths, not `n_bins` full windows.
pub fn calc_cqt<S, C, M, F: Fn(&[S], &[C]) -> M>(
    input: &[S],
    time_kernels: &[TimeKernel<C>],
    n_bins: u16,
    project: F,
) -> (r: Vec<M>)
    requires
        n_bins <= time_kernels@.len(),
        forall|k: int|
            0 <= k < n_bins ==> {
                let kernel = #[trigger] time_kernels@[k];
                &&& kernel.start + kernel.len <= kernel.signal.len()
                &&& kernel.start + kernel.len <= input@.len()
            },
        forall|a: &[S], b: &[C]| call_requires(project, (a, b)),
    ensures
        r.len() == n_bins,
        forall|k: int| 0 <= k < n_bins ==> projects(project, input@, time_kernels@[k], #[trigger] r[k]),
{
    let mut output: Vec<M> = Vec::new();
    let mut k: u16 = 0;
    while k < n_bins
        invariant
            k <= n_bins,
            n_bins <= time_kernels@.len(),
            output.len() == k,
            forall|k: int|
                0 <= k < n_bins ==> {
                    let kernel = #[trigger] time_kernels@[k];
                    &&& kernel.start + kernel.len <= kernel.signal.len()
                    &&& kernel.start + kernel.len <= input@.len()
                },
            forall|a: &[S], b: &[C]| call_requires(project, (a, b)),
            forall|j: int|
                0 <= j < k ==> projects(project, input@, time_kernels@[j], #[trigger] output[j]),
        decreases n_bins - k,
    {
        let kernel = &time_kernels[k as usize];
        let end: usize = kernel.start as usize + kernel.len as usize;
        let frame_part = vstd::slice::slice_subrange(input, kernel.start as usize, end);
        let kernel_part = vstd::slice::slice_subrange(
            kernel.signal.as_slice(),
            kernel.start as usize,
            end,
        );
        let magnitude = project(frame_part, kernel_part);
        assert(projects(project, input@, time_kernels@[k as int], magnitude));
        output.push(magnitude);
        k = k + 1;
    }
    output
}

} // verus!

verus! {

/// The transform keeps no state of its own: two spectra computed from the
/// same frame and the same kernels agree bin for bin whenever the projection
/// depends on nothing but the two windows it is handed.
pub proof fn lemma_transform_deterministic<S, C, M, F: Fn(&[S], &[C]) -> M>(
    project: F,
    frame: Seq<S>,
    kernels: Seq<TimeKernel<C>>,
    first: Seq<M>,
    second: Seq<M>,
)
    requires
        forall|a1: &[S], b1: &[C], m1: M, a2: &[S], b2: &[C], m2: M|
            a1@ == a2@ && b1@ == b2@ && call_ensures(project, (a1, b1), m1) && call_ensures(
                project,
                (a2, b2),
                m2,
            ) ==> m1 == m2,
        first.len() == second.len(),
        first.len() <= kernels.len(),
        forall|k: int|
            0 <= k < first.len() ==> projects(project, frame, kernels[k], #[trigger] first[k]),
        forall|k: int|
            0 <= k < second.len() ==> projects(project, frame, kernels[k], #[trigger] second[k]),
    ensures
        first == second,
{
    assert forall|k: int| 0 <= k < first.len() implies first[k] == second[k] by {
        assert(projects(project, frame, kernels[k], first[k]));
        assert(projects(project, frame, kernels[k], second[k]));
    }
    assert(first =~= second);
}

/// A silent frame gives a silent spectrum: every bin's projection is handed
/// only silent frame samples, so each magnitude is whatever the projection
/// gives for silence.
pub proof fn lemma_silent_frame_silent_spectrum<S, C, M, F: Fn(&[S], &[C]) -> M>(
    project: F,
    frame: Seq<S>,
    silent: S,
    silence: M,
    kernels: Seq<TimeKernel<C>>,
    spectrum: Seq<M>,
)
    requires
        forall|j: int| 0 <= j < frame.len() ==> frame[j] == silent,
        forall|a: &[S], b: &[C], m: M|
            (forall|j: int| 0 <= j < a@.len() ==> a@[j] == silent) && call_ensures(
                project,
                (a, b),
                m,
            ) ==> m == silence,
        spectrum.len() <= kernels.len(),
        forall|k: int|
            0 <= k < spectrum.len() ==> {
                let kernel = #[trigger] kernels[k];
                kernel.start + kernel.len <= frame.len()
            },
        forall|k: int|
            0 <= k < spectrum.len() ==> projects(project, frame, kernels[k], #[trigger] spectrum[k]),
    ensures
        forall|k: int| 0 <= k < spectrum.len() ==> spectrum[k] == silence,
{
    assert forall|k: int| 0 <= k < spectrum.len() implies spectrum[k] == silence by {
        let kernel = kernels[k];
        assert(projects(project, frame, kernel, spectrum[k]));
        let window = frame_window(frame, kernel);
        assert forall|j: int| 0 <= j < window.len() implies window[j] == silent by {
            assert(window[j] == frame[kernel.start + j]);
        }
    }
}

} // verus!
