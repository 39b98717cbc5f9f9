//! Recording decisions: which input device is opened, how often the input level
//! is reported, and when a run of silent frames stops the recording.

use vstd::prelude::*;

verus! {

/// The sample rate assumed for the input device before it reports its own.
pub const DEFAULT_NATIVE_SAMPLE_RATE: u32 = 44100;

/// The input level is reported for one frame out of this many.
pub const LEVEL_REPORT_INTERVAL: u32 = 4;

/// The input device to open.
pub enum DeviceChoice {
    /// The device at this index of the enumerated input devices.
    Named(usize),
    /// The system's default input device.
    Default,
}

/// The device at index `i` is named `wanted`.
pub open spec fn device_named(names: Seq<Option<String>>, i: int, wanted: Seq<char>) -> bool {
    names[i] matches Some(n) && n@ == wanted
}

/// Picks the input device: the first enumerated device whose name is `wanted`,
/// and the default device when no name is wanted, the devices could not be
/// enumerated (`device_names` is `None`), or none has that name. A device whose
/// name could not be read has `None` in its place.
pub fn choose_input_device(wanted: Option<&str>, device_names: Option<&Vec<Option<String>>>) -> (r:
    DeviceChoice)
    ensures
        match r {
            DeviceChoice::Named(i) => {
                &&& wanted is Some
                &&& device_names is Some
                &&& i < device_names.unwrap()@.len()
                &&& device_named(device_names.unwrap()@, i as int, wanted.unwrap()@)
                &&& forall|j: int|
                    0 <= j < i ==> !device_named(device_names.unwrap()@, j, wanted.unwrap()@)
            },
            DeviceChoice::Default => wanted is None || device_names is None || forall|j: int|
                0 <= j < device_names.unwrap()@.len() ==> !device_named(
                    device_names.unwrap()@,
                    j,
                    wanted.unwrap()@,
                ),
        },
{
    match wanted {
        None => DeviceChoice::Default,
        Some(w) => match device_names {
            None => DeviceChoice::Default,
            Some(names) => {
                let n: usize = names.len();
                let mut i: usize = 0;
                while i < n
                    invariant
                        wanted == Some(w),
                        device_names == Some(names),
                        n == names@.len(),
                        i <= n,
                        forall|j: int| 0 <= j < i ==> !device_named(names@, j, w@),
                    decreases n - i,
                {
                    match &names[i] {
                        Some(name) => {
                            if same_name(name, w) {
                                assert(device_named(names@, i as int, w@));
                                return DeviceChoice::Named(i);
                            }
                        },
                        None => {},
                    }
                    i = i + 1;
                }
                DeviceChoice::Default
            },
        },
    }
}

fn same_name(name: &String, wanted: &str) -> (r: bool)
    ensures
        r == (name@ == wanted@),
{
    crate::text::same_text(name.as_str(), wanted)
}

/// The frame counter after one more frame: it wraps around at `u32::MAX`.
pub open spec fn next_count(c: u32) -> u32 {
    if c == u32::MAX {
        0
    } else {
        (c + 1) as u32
    }
}

/// Whether the frame that follows count `c` has its level reported.
pub open spec fn reports_after(c: u32) -> bool {
    next_count(c) % 4 == 0
}

/// Rate-limits the input level events to one frame in four.
pub struct LevelThrottle {
    count: u32,
}

impl LevelThrottle {
    /// The number of frames seen, modulo 2^32.
    pub closed spec fn spec_count(&self) -> u32 {
        self.count
    }

    /// A throttle that has seen no frame.
    pub fn new() -> (r: Self)
        ensures
            r.spec_count() == 0,
    {
        LevelThrottle { count: 0 }
    }

    /// Counts a frame and tells whether its level is reported.
    pub fn tick(&mut self) -> (r: bool)
        ensures
            final(self).spec_count() == next_count(old(self).spec_count()),
            r == reports_after(old(self).spec_count()),
    {
        let next: u32 = self.count.wrapping_add(1);
        self.count = next;
        next % LEVEL_REPORT_INTERVAL == 0
    }
}

/// Of any four consecutive frames, exactly one has its level reported, also
/// across the wrap-around of the counter.
pub proof fn lemma_one_report_in_four(c: u32)
    ensures
        (if reports_after(c) {
            1int
        } else {
            0int
        }) + (if reports_after(next_count(c)) {
            1int
        } else {
            0int
        }) + (if reports_after(next_count(next_count(c))) {
            1int
        } else {
            0int
        }) + (if reports_after(next_count(next_count(next_count(c)))) {
            1int
        } else {
            0int
        }) == 1,
{
}

/// The length in whole milliseconds of a frame of `frame_size` samples.
pub open spec fn frame_ms(frame_size: nat, sample_rate: nat) -> nat {
    (frame_size * 1000) / sample_rate
}

/// The silence accumulated after `k` more silent frames of `step` ms each.
pub open spec fn after_silent_frames(acc: nat, step: nat, k: nat) -> nat
    decreases k,
{
    if k == 0 {
        acc
    } else {
        after_silent_frames(acc, step, (k - 1) as nat) + step
    }
}

/// Counts consecutive silent frames and tells when the silence has lasted long
/// enough to stop the recording.
pub struct SilenceCounter {
    timeout_ms: u64,
    frame_size: usize,
    sample_rate: u32,
    accumulated_silence_ms: u64,
}

impl SilenceCounter {
    /// The silence in ms after which the recording stops.
    pub closed spec fn spec_timeout_ms(&self) -> u64 {
        self.timeout_ms
    }

    /// The number of samples in one frame.
    pub closed spec fn spec_frame_size(&self) -> usize {
        self.frame_size
    }

    /// The sample rate of the input.
    pub closed spec fn spec_sample_rate(&self) -> u32 {
        self.sample_rate
    }

    /// The silence accumulated so far, in ms.
    pub closed spec fn spec_accumulated_ms(&self) -> u64 {
        self.accumulated_silence_ms
    }

    /// The length of one frame in whole ms.
    pub open spec fn spec_frame_ms(&self) -> nat {
        frame_ms(self.spec_frame_size() as nat, self.spec_sample_rate() as nat)
    }

    /// A counter that stops after `timeout_ms` of silence, for frames of
    /// `frame_size` samples at `sample_rate`.
    pub fn new(timeout_ms: u64, frame_size: usize, sample_rate: u32) -> (r: Self)
        ensures
            r.spec_timeout_ms() == timeout_ms,
            r.spec_frame_size() == frame_size,
            r.spec_sample_rate() == sample_rate,
            r.spec_accumulated_ms() == 0,
    {
        SilenceCounter { timeout_ms, frame_size, sample_rate, accumulated_silence_ms: 0 }
    }

    /// The silence accumulated so far, in ms.
    pub fn accumulated_ms(&self) -> (r: u64)
        ensures
            r == self.spec_accumulated_ms(),
    {
        self.accumulated_silence_ms
    }

    /// Whether a silent frame can be taken: the rate is not zero and neither
    /// the frame length nor the accumulated silence overflows a `u64`.
    pub fn can_take_silent_frame(&self) -> (r: bool)
        ensures
            r == (self.spec_sample_rate() > 0 && self.spec_frame_size() * 1000 <= u64::MAX
                && self.spec_accumulated_ms() + self.spec_frame_ms() <= u64::MAX),
    {
        if self.sample_rate == 0 || self.frame_size as u64 > u64::MAX / 1000 {
            return false;
        }
        let frame_ms: u64 = (self.frame_size as u64 * 1000) / self.sample_rate as u64;
        self.accumulated_silence_ms <= u64::MAX - frame_ms
    }

    /// Takes one frame. A silent frame adds its length to the accumulated
    /// silence, and the result tells whether the silence has reached the
    /// timeout; a frame with sound clears the silence and gives `false`.
    pub fn process_frame(&mut self, silent: bool) -> (r: bool)
        requires
            silent ==> old(self).spec_sample_rate() > 0,
            silent ==> old(self).spec_frame_size() * 1000 <= u64::MAX,
            silent ==> old(self).spec_accumulated_ms() + old(self).spec_frame_ms() <= u64::MAX,
        ensures
            final(self).spec_timeout_ms() == old(self).spec_timeout_ms(),
            final(self).spec_frame_size() == old(self).spec_frame_size(),
            final(self).spec_sample_rate() == old(self).spec_sample_rate(),
            silent ==> final(self).spec_accumulated_ms() == old(self).spec_accumulated_ms() + old(
                self,
            ).spec_frame_ms(),
            silent ==> r == (final(self).spec_accumulated_ms() >= final(self).spec_timeout_ms()),
            !silent ==> final(self).spec_accumulated_ms() == 0 && !r,
    {
        if silent {
            let frame_ms: u64 = (self.frame_size as u64 * 1000) / self.sample_rate as u64;
            self.accumulated_silence_ms = self.accumulated_silence_ms + frame_ms;
            self.accumulated_silence_ms >= self.timeout_ms
        } else {
            self.accumulated_silence_ms = 0;
            false
        }
    }

    /// Clears the accumulated silence.
    pub fn reset(&mut self)
        ensures
            final(self).spec_timeout_ms() == old(self).spec_timeout_ms(),
            final(self).spec_frame_size() == old(self).spec_frame_size(),
            final(self).spec_sample_rate() == old(self).spec_sample_rate(),
            final(self).spec_accumulated_ms() == 0,
    {
        self.accumulated_silence_ms = 0;
    }
}

/// A silent frame counts the frame's length at the counter's own sample rate,
/// in whole milliseconds rounded down: `frame_size` samples at `sample_rate`
/// last between `frame_ms` and `frame_ms + 1` milliseconds.
pub proof fn lemma_frame_ms_follows_rate(c: SilenceCounter)
    requires
        c.spec_sample_rate() > 0,
    ensures
        c.spec_frame_ms() * c.spec_sample_rate() <= c.spec_frame_size() * 1000,
        c.spec_frame_size() * 1000 < (c.spec_frame_ms() + 1) * c.spec_sample_rate(),
{
    lemma_frame_ms_bounds(c.spec_frame_size() as nat, c.spec_sample_rate() as nat);
}

/// `frame_ms` is the frame's length in ms, rounded down.
pub proof fn lemma_frame_ms_bounds(frame_size: nat, sample_rate: nat)
    requires
        sample_rate > 0,
    ensures
        frame_ms(frame_size, sample_rate) * sample_rate <= frame_size * 1000,
        frame_size * 1000 < (frame_ms(frame_size, sample_rate) + 1) * sample_rate,
{
    let x: int = (frame_size * 1000) as int;
    let d: int = sample_rate as int;
    vstd::arithmetic::div_mod::lemma_fundamental_div_mod(x, d);
    vstd::arithmetic::div_mod::lemma_mod_pos_bound(x, d);
    let q: int = x / d;
    let r: int = x % d;
    assert(q * d <= x < (q + 1) * d) by (nonlinear_arith)
        requires
            x == d * q + r,
            0 <= r < d,
    ;
}

/// A counter after `reset` is the counter that `new` makes with the same
/// timeout, frame size and rate: it holds the same state, so every later
/// sequence of frames gives it the same results.
pub proof fn lemma_reset_is_fresh(reset: SilenceCounter, fresh: SilenceCounter)
    requires
        reset.spec_timeout_ms() == fresh.spec_timeout_ms(),
        reset.spec_frame_size() == fresh.spec_frame_size(),
        reset.spec_sample_rate() == fresh.spec_sample_rate(),
        reset.spec_accumulated_ms() == 0,
        fresh.spec_accumulated_ms() == 0,
    ensures
        reset == fresh,
{
}

/// After a reset or a frame with sound, `k` silent frames accumulate exactly
/// `k` frame lengths, so the counter fires on the `k`-th of them exactly when
/// `k` frame lengths reach the timeout, and keeps firing while silence lasts.
pub proof fn lemma_silent_run(step: nat, timeout: nat, k: nat, later: nat)
    requires
        k <= later,
    ensures
        after_silent_frames(0, step, k) == k * step,
        (after_silent_frames(0, step, k) >= timeout) == (k * step >= timeout),
        after_silent_frames(0, step, k) >= timeout ==> after_silent_frames(0, step, later)
            >= timeout,
{
    lemma_silent_total(step, k);
    lemma_silent_total(step, later);
    assert(k * step <= later * step) by (nonlinear_arith)
        requires
            k <= later,
    ;
}

proof fn lemma_silent_total(step: nat, k: nat)
    ensures
        after_silent_frames(0, step, k) == k * step,
    decreases k,
{
    if k > 0 {
        lemma_silent_total(step, (k - 1) as nat);
        assert(((k - 1) as nat) * step + step == k * step) by (nonlinear_arith)
            requires
                k > 0,
        ;
    } else {
        assert(k * step == 0) by (nonlinear_arith)
            requires
                k == 0,
        ;
    }
}

} // verus!
