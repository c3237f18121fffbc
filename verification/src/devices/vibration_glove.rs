use vstd::prelude::*;

use rand::RngExt;

use crate::patterns::elapsed_ms;

verus! {

/// Default intensity of a randomized pulse.
pub const DEFAULT_RANDOM_MODE_VIBRATION_INTENSITY: u8 = 150;

/// Default length, in milliseconds, of a randomized pulse.
pub const DEFAULT_RANDOM_MODE_VIBRATION_DURATION: u64 = 100;

/// Default bounds, in milliseconds, of the random delay between pulses: the
/// delay is drawn from the half-open range they delimit.
pub const DEFAULT_RANDOM_MODE_DELAY_MIN: u64 = 2000;

pub const DEFAULT_RANDOM_MODE_DELAY_MAX: u64 = 4000;

/// Default intensity of a scheduled pulse.
pub const DEFAULT_DESINHIBITION_MODE_VIBRATION_INTENSITY: u8 = 60;

/// Default length, in milliseconds, of a scheduled pulse.
pub const DEFAULT_DESINHIBITION_MODE_VIBRATION_DURATION: u64 = 5000;

/// Default silence, in milliseconds, between two scheduled pulses.
pub const DEFAULT_DESINHIBITION_MODE_VIBRATION_DELAY: u64 = 5000;

/// One intensity value per finger, as written to the vibration transport.
pub type FingersVibrationIntensity = [u8; 5];

/// The five-channel vector that is silent on every finger.
pub open spec fn zero_vector() -> Seq<u8> {
    Seq::new(5, |i: int| 0u8)
}

/// The five-channel vector that pulses every finger at `intensity`.
pub open spec fn all_fingers_vector(intensity: u8) -> Seq<u8> {
    Seq::new(5, |i: int| intensity)
}

/// The five-channel vector that pulses only finger `finger` at `intensity`.
pub open spec fn one_finger_vector(finger: u8, intensity: u8) -> Seq<u8> {
    Seq::new(
        5,
        |i: int|
            if i == finger as int {
                intensity
            } else {
                0u8
            },
    )
}

/// The five-channel vector that pulses exactly the moving fingers at
/// `intensity`.
pub open spec fn mirror_vector(moved: Seq<bool>, intensity: u8) -> Seq<u8> {
    Seq::new(
        5,
        |i: int|
            if moved[i] {
                intensity
            } else {
                0u8
            },
    )
}

/// `a + b`, stopping at the largest machine value instead of wrapping.
pub open spec fn saturating_add(a: u64, b: u64) -> u64 {
    if a + b <= u64::MAX {
        (a + b) as u64
    } else {
        u64::MAX
    }
}

#[verifier::external_type_specification]
#[verifier::external_body]
pub struct ExStdRng(rand::rngs::StdRng);

/// Relies on rand::make_rng: a fresh standard generator, seeded from the
/// thread-local generator. The call does not return normally only if the
/// operating system's randomness source fails at its first use on this
/// thread.
#[verifier::external_body]
fn fresh_rng() -> rand::rngs::StdRng {
    rand::make_rng()
}

/// Relies on RngExt::random_range over a half-open range: the result is
/// uniformly distributed in `[lo, hi)`; the call panics only on an empty
/// range, which the precondition rules out.
#[verifier::external_body]
fn random_in_range(rng: &mut rand::rngs::StdRng, lo: u64, hi: u64) -> (r: u64)
    requires
        lo < hi,
    ensures
        lo <= r < hi,
{
    rng.random_range(lo..hi)
}

/// Scheduled pulses: all fingers vibrate at a fixed intensity for
/// `vibration_duration` milliseconds, then stay silent for `vibration_delay`
/// milliseconds, measured from the remembered pulse start.
pub struct DesinhibitionVibrationModeConfig {
    pub vibration_intensity: u8,
    pub vibration_duration: u64,
    pub vibration_delay: u64,
    /// When the pulse currently playing (or last played) began.
    pub last_vibration_start_time: u64,
}

/// One step of the scheduled mode: inside the pulse window every finger is
/// driven; once the pulse and the following silence have both passed, a new
/// pulse starts at `time`; in between, all fingers are silent.
pub open spec fn desinhibition_step(s: DesinhibitionVibrationModeConfig, time: u64) -> (
    DesinhibitionVibrationModeConfig, Seq<u8>) {
    let el = elapsed_ms(time, s.last_vibration_start_time);
    if el < s.vibration_duration {
        (s, all_fingers_vector(s.vibration_intensity))
    } else if el - s.vibration_duration >= s.vibration_delay {
        (
            DesinhibitionVibrationModeConfig { last_vibration_start_time: time, ..s },
            all_fingers_vector(s.vibration_intensity),
        )
    } else {
        (s, zero_vector())
    }
}

impl DesinhibitionVibrationModeConfig {
    /// A fresh scheduled mode whose first pulse is due immediately.
    pub fn new(vibration_intensity: u8, vibration_duration: u64, vibration_delay: u64) -> (c: Self)
        ensures
            c == (DesinhibitionVibrationModeConfig {
                vibration_intensity,
                vibration_duration,
                vibration_delay,
                last_vibration_start_time: 0,
            }),
    {
        Self { vibration_intensity, vibration_duration, vibration_delay, last_vibration_start_time: 0 }
    }

    /// Advances the scheduled mode to `time`, as `desinhibition_step` says,
    /// and returns the intensity vector to drive.
    pub fn process_moved_fingers(&mut self, time: u64) -> (r: FingersVibrationIntensity)
        ensures
            *final(self) == desinhibition_step(*old(self), time).0,
            r@ == desinhibition_step(*old(self), time).1,
    {
        let elapsed = if time >= self.last_vibration_start_time {
            time - self.last_vibration_start_time
        } else {
            0
        };

        if elapsed < self.vibration_duration {
            let k = self.vibration_intensity;
            let r: [u8; 5] = [k, k, k, k, k];
            proof {
                assert(r@ =~= all_fingers_vector(k));
            }
            return r;
        }

        if elapsed - self.vibration_duration >= self.vibration_delay {
            self.last_vibration_start_time = time;
            let k = self.vibration_intensity;
            let r: [u8; 5] = [k, k, k, k, k];
            proof {
                assert(r@ =~= all_fingers_vector(k));
            }
            return r;
        }

        let r: [u8; 5] = [0, 0, 0, 0, 0];
        proof {
            assert(r@ =~= zero_vector());
        }
        r
    }
}

/// The mathematical state of a `RandomVibrationModeConfig`: everything but
/// the generator itself.
pub ghost struct RandomVibrationView {
    pub delay_min_ms: u64,
    pub delay_max_ms: u64,
    pub vibration_duration: u64,
    pub vibration_intensity: u8,
    pub current_finger_start_time: Option<(u8, u64)>,
    pub next_time: u64,
}

impl RandomVibrationView {
    /// The delay range is never empty and a pulsing finger is one of the
    /// five.
    pub open spec fn wf(self) -> bool {
        self.delay_min_ms < self.delay_max_ms && (self.current_finger_start_time matches Some(
            (f, _),
        ) ==> f < 5)
    }
}

/// The transition relation of the randomized mode, one step to `time`. While
/// a pulse is young it keeps playing on its finger. A pulse past its
/// duration falls silent, and a fresh delay is drawn from the configured
/// range to schedule the next one. Once that moment has come, a uniformly
/// chosen finger starts pulsing alone. Otherwise everything stays silent.
pub open spec fn random_step_rel(
    s: RandomVibrationView,
    s2: RandomVibrationView,
    out: Seq<u8>,
    time: u64,
) -> bool {
    &&& s2.delay_min_ms == s.delay_min_ms
    &&& s2.delay_max_ms == s.delay_max_ms
    &&& s2.vibration_duration == s.vibration_duration
    &&& s2.vibration_intensity == s.vibration_intensity
    &&& match s.current_finger_start_time {
        Some((finger, start_time)) => {
            if elapsed_ms(time, start_time) < s.vibration_duration {
                &&& s2.current_finger_start_time == s.current_finger_start_time
                &&& s2.next_time == s.next_time
                &&& out == one_finger_vector(finger, s.vibration_intensity)
            } else {
                &&& s2.current_finger_start_time is None
                &&& exists|d: u64|
                    s.delay_min_ms <= d < s.delay_max_ms && s2.next_time == saturating_add(time, d)
                &&& out == zero_vector()
            }
        },
        None => {
            if time >= s.next_time {
                &&& exists|f: u8|
                    f < 5 && s2.current_finger_start_time == Some((f, time)) && out
                        == one_finger_vector(f, s.vibration_intensity)
                &&& s2.next_time == s.next_time
            } else {
                &&& s2.current_finger_start_time is None
                &&& s2.next_time == s.next_time
                &&& out == zero_vector()
            }
        },
    }
}

/// Randomized pulses: after a uniformly random delay from the configured
/// range, one uniformly chosen finger vibrates alone for
/// `vibration_duration` milliseconds; then the mode falls silent and draws
/// the next delay.
pub struct RandomVibrationModeConfig {
    pub delay_range_min_ms: u64,
    pub delay_range_max_ms: u64,
    pub vibration_duration: u64,
    pub vibration_intensity: u8,
    current_finger_start_time: Option<(u8, u64)>,
    next_time: u64,
    rng: rand::rngs::StdRng,
}

impl View for RandomVibrationModeConfig {
    type V = RandomVibrationView;

    closed spec fn view(&self) -> RandomVibrationView {
        RandomVibrationView {
            delay_min_ms: self.delay_range_min_ms,
            delay_max_ms: self.delay_range_max_ms,
            vibration_duration: self.vibration_duration,
            vibration_intensity: self.vibration_intensity,
            current_finger_start_time: self.current_finger_start_time,
            next_time: self.next_time,
        }
    }
}

impl RandomVibrationModeConfig {
    /// A fresh randomized mode with the default parameters; the first pulse
    /// is scheduled a random default-range delay after `now`.
    pub fn new(now: u64) -> (c: Self)
        ensures
            c@.wf(),
            c@.delay_min_ms == DEFAULT_RANDOM_MODE_DELAY_MIN,
            c@.delay_max_ms == DEFAULT_RANDOM_MODE_DELAY_MAX,
            c@.vibration_duration == DEFAULT_RANDOM_MODE_VIBRATION_DURATION,
            c@.vibration_intensity == DEFAULT_RANDOM_MODE_VIBRATION_INTENSITY,
            c@.current_finger_start_time is None,
            exists|d: u64|
                DEFAULT_RANDOM_MODE_DELAY_MIN <= d < DEFAULT_RANDOM_MODE_DELAY_MAX && c@.next_time
                    == saturating_add(now, d),
    {
        let mut rng = fresh_rng();
        let d = random_in_range(&mut rng, DEFAULT_RANDOM_MODE_DELAY_MIN, DEFAULT_RANDOM_MODE_DELAY_MAX);
        let next_time = if now <= u64::MAX - d {
            now + d
        } else {
            u64::MAX
        };

        let c = Self {
            delay_range_min_ms: DEFAULT_RANDOM_MODE_DELAY_MIN,
            delay_range_max_ms: DEFAULT_RANDOM_MODE_DELAY_MAX,
            vibration_duration: DEFAULT_RANDOM_MODE_VIBRATION_DURATION,
            vibration_intensity: DEFAULT_RANDOM_MODE_VIBRATION_INTENSITY,
            current_finger_start_time: None,
            next_time,
            rng,
        };
        proof {
            assert(DEFAULT_RANDOM_MODE_DELAY_MIN <= d < DEFAULT_RANDOM_MODE_DELAY_MAX && c@.next_time
                == saturating_add(now, d));
        }
        c
    }

    /// Advances the randomized mode to `time`, as `random_step_rel` allows,
    /// and returns the intensity vector to drive.
    pub fn process_moved_fingers(&mut self, time: u64) -> (r: FingersVibrationIntensity)
        requires
            old(self)@.wf(),
        ensures
            final(self)@.wf(),
            random_step_rel(old(self)@, final(self)@, r@, time),
    {
        if let Some((finger, start_time)) = self.current_finger_start_time {
            let elapsed = if time >= start_time {
                time - start_time
            } else {
                0
            };
            if elapsed < self.vibration_duration {
                return self.vibration_for_one_finger(finger);
            }

            self.current_finger_start_time = None;
            let d = random_in_range(&mut self.rng, self.delay_range_min_ms, self.delay_range_max_ms);
            self.next_time = if time <= u64::MAX - d {
                time + d
            } else {
                u64::MAX
            };
            proof {
                assert(old(self)@.delay_min_ms <= d < old(self)@.delay_max_ms && self@.next_time
                    == saturating_add(time, d));
                assert(exists|dd: u64|
                    old(self)@.delay_min_ms <= dd < old(self)@.delay_max_ms && self@.next_time
                        == saturating_add(time, dd));
            }

            let r: [u8; 5] = [0, 0, 0, 0, 0];
            proof {
                assert(r@ =~= zero_vector());
            }
            return r;
        }

        if time >= self.next_time {
            let drawn = random_in_range(&mut self.rng, 0, 5);
            let next_finger = drawn as u8;
            self.current_finger_start_time = Some((next_finger, time));
            let r = self.vibration_for_one_finger(next_finger);
            proof {
                assert(next_finger < 5 && self@.current_finger_start_time == Some(
                    (next_finger, time),
                ) && r@ == one_finger_vector(next_finger, self@.vibration_intensity));
                assert(exists|f: u8|
                    f < 5 && self@.current_finger_start_time == Some((f, time)) && r@
                        == one_finger_vector(f, self@.vibration_intensity));
            }
            return r;
        }

        let r: [u8; 5] = [0, 0, 0, 0, 0];
        proof {
            assert(r@ =~= zero_vector());
        }
        r
    }

    fn vibration_for_one_finger(&self, finger_index: u8) -> (r: FingersVibrationIntensity)
        requires
            finger_index < 5,
        ensures
            r@ == one_finger_vector(finger_index, self@.vibration_intensity),
    {
        let mut fingers_intensity: [u8; 5] = [0, 0, 0, 0, 0];
        fingers_intensity[finger_index as usize] = self.vibration_intensity;
        proof {
            assert(fingers_intensity@ =~= one_finger_vector(finger_index, self@.vibration_intensity));
        }
        fingers_intensity
    }
}

/// The haptic mode currently driving the glove, each with its own private
/// state.
pub enum VibrationMode {
    /// Scheduled all-finger pulses.
    Desinhibition(DesinhibitionVibrationModeConfig),
    /// Mirror the moving fingers at the glove's fixed intensity.
    _SynapticResponse,
    /// Randomized single-finger pulses.
    Random(RandomVibrationModeConfig),
}

/// The mathematical state of a `VibrationMode`.
pub ghost enum VibrationModeView {
    Desinhibition(DesinhibitionVibrationModeConfig),
    Synaptic,
    Random(RandomVibrationView),
}

impl View for VibrationMode {
    type V = VibrationModeView;

    open spec fn view(&self) -> VibrationModeView {
        match self {
            VibrationMode::Desinhibition(c) => VibrationModeView::Desinhibition(*c),
            VibrationMode::_SynapticResponse => VibrationModeView::Synaptic,
            VibrationMode::Random(c) => VibrationModeView::Random(c@),
        }
    }
}

impl VibrationModeView {
    pub open spec fn wf(self) -> bool {
        self matches VibrationModeView::Random(r) ==> r.wf()
    }
}

/// How one mode advances to `time` and what vector it asks for: mirrors,
/// scheduled pulses and randomized pulses, as the matching step functions
/// say.
pub open spec fn mode_step_rel(
    m: VibrationModeView,
    m2: VibrationModeView,
    intensity: u8,
    moved: Seq<bool>,
    time: u64,
    out: Seq<u8>,
) -> bool {
    match m {
        VibrationModeView::Synaptic => m2 == m && out == mirror_vector(moved, intensity),
        VibrationModeView::Desinhibition(c) => {
            &&& m2 == VibrationModeView::Desinhibition(desinhibition_step(c, time).0)
            &&& out == desinhibition_step(c, time).1
        },
        VibrationModeView::Random(r) => {
            &&& m2 matches VibrationModeView::Random(r2) && random_step_rel(r, r2, out, time)
        },
    }
}

/// The write handed to the transport for a newly computed vector: nothing
/// when it equals the last written vector, the vector itself otherwise.
pub open spec fn write_decision(last: Seq<u8>, data: Seq<u8>) -> Option<Seq<u8>> {
    if data == last {
        None
    } else {
        Some(data)
    }
}

/// Issuing the same target vector twice in a row makes exactly one transport
/// write when it differs from what was last written, and none at all when it
/// does not; the repeated issue is always suppressed, since the first one
/// leaves `data` as the remembered last write.
pub proof fn lemma_identical_vector_single_write(last: Seq<u8>, data: Seq<u8>)
    ensures
        write_decision(data, data) is None,
        last != data ==> write_decision(last, data) == Some(data),
        last == data ==> write_decision(last, data) is None,
{
}

/// The mathematical state of a `VibrationGlove`.
pub ghost struct VibrationGloveView {
    pub last_state: Seq<u8>,
    pub vibration_intensity: u8,
    pub vibration_mode: VibrationModeView,
}

/// One step of the whole controller: the current mode advances and asks for
/// a vector, that vector becomes the remembered state, and the transport is
/// written exactly when the vector changed.
pub open spec fn glove_step_rel(
    g: VibrationGloveView,
    g2: VibrationGloveView,
    moved: Seq<bool>,
    time: u64,
    write: Option<Seq<u8>>,
) -> bool {
    &&& g2.vibration_intensity == g.vibration_intensity
    &&& mode_step_rel(g.vibration_mode, g2.vibration_mode, g.vibration_intensity, moved, time, g2.last_state)
    &&& write == write_decision(g.last_state, g2.last_state)
}

/// Haptic output state machine. It advances whatever mode is selected,
/// remembers the last written intensity vector, and suppresses transport
/// writes that would repeat it. The transport write itself is the caller's
/// affair: the controller only hands the vector back.
pub struct VibrationGlove {
    last_state: FingersVibrationIntensity,
    vibration_intensity: u8,
    pub vibration_mode: VibrationMode,
}

impl View for VibrationGlove {
    type V = VibrationGloveView;

    closed spec fn view(&self) -> VibrationGloveView {
        VibrationGloveView {
            last_state: self.last_state@,
            vibration_intensity: self.vibration_intensity,
            vibration_mode: self.vibration_mode@,
        }
    }
}

fn eq_u8_5(a: &[u8; 5], b: &[u8; 5]) -> (r: bool)
    ensures
        r == (a@ =~= b@),
{
    let r = a[0] == b[0] && a[1] == b[1] && a[2] == b[2] && a[3] == b[3] && a[4] == b[4];
    proof {
        if r {
            assert(a@ =~= b@);
        }
    }
    r
}

impl VibrationGlove {
    /// A fresh controller in the default scheduled mode, with nothing
    /// written yet.
    pub fn new(vibration_intensity: u8) -> (g: Self)
        ensures
            g@.last_state == zero_vector(),
            g@.vibration_intensity == vibration_intensity,
            g@.vibration_mode == VibrationModeView::Desinhibition(
                DesinhibitionVibrationModeConfig {
                    vibration_intensity: DEFAULT_DESINHIBITION_MODE_VIBRATION_INTENSITY,
                    vibration_duration: DEFAULT_DESINHIBITION_MODE_VIBRATION_DURATION,
                    vibration_delay: DEFAULT_DESINHIBITION_MODE_VIBRATION_DELAY,
                    last_vibration_start_time: 0,
                },
            ),
            g@.vibration_mode.wf(),
    {
        let g = Self {
            last_state: [0, 0, 0, 0, 0],
            vibration_intensity,
            vibration_mode: VibrationMode::Desinhibition(
                DesinhibitionVibrationModeConfig::new(
                    DEFAULT_DESINHIBITION_MODE_VIBRATION_INTENSITY,
                    DEFAULT_DESINHIBITION_MODE_VIBRATION_DURATION,
                    DEFAULT_DESINHIBITION_MODE_VIBRATION_DELAY,
                ),
            ),
        };
        proof {
            assert(g@.last_state =~= zero_vector());
        }
        g
    }

    /// Selects another haptic mode; the switch is sticky until the next
    /// explicit call.
    pub fn set_vibration_mode(&mut self, vibration_mode: VibrationMode)
        ensures
            final(self)@ == (VibrationGloveView {
                vibration_mode: vibration_mode@,
                ..old(self)@
            }),
    {
        self.vibration_mode = vibration_mode;
    }

    /// Advances the selected mode to `time` for the given movement vector
    /// and returns the transport write to perform, if the computed intensity
    /// vector differs from the last written one.
    pub fn process_moved_fingers(&mut self, moved_fingers: &[bool; 5], time: u64) -> (write:
        Option<FingersVibrationIntensity>)
        requires
            old(self)@.vibration_mode.wf(),
        ensures
            final(self)@.vibration_mode.wf(),
            glove_step_rel(
                old(self)@,
                final(self)@,
                moved_fingers@,
                time,
                match write {
                    Some(w) => Some(w@),
                    None => None,
                },
            ),
    {
        let vibration_state: FingersVibrationIntensity = match &mut self.vibration_mode {
            VibrationMode::_SynapticResponse => {
                let k = self.vibration_intensity;
                let r: [u8; 5] = [
                    if moved_fingers[0] {
                        k
                    } else {
                        0
                    },
                    if moved_fingers[1] {
                        k
                    } else {
                        0
                    },
                    if moved_fingers[2] {
                        k
                    } else {
                        0
                    },
                    if moved_fingers[3] {
                        k
                    } else {
                        0
                    },
                    if moved_fingers[4] {
                        k
                    } else {
                        0
                    },
                ];
                proof {
                    assert(r@ =~= mirror_vector(moved_fingers@, k));
                }
                r
            },
            VibrationMode::Random(config) => config.process_moved_fingers(time),
            VibrationMode::Desinhibition(config) => config.process_moved_fingers(time),
        };

        self.update_state(vibration_state)
    }

    /// Records `data` as the current intensity vector and returns the
    /// transport write to perform: nothing when `data` repeats the last
    /// written vector, `data` itself otherwise.
    pub fn update_state(&mut self, data: FingersVibrationIntensity) -> (write: Option<
        FingersVibrationIntensity>)
        ensures
            final(self)@ == (VibrationGloveView { last_state: data@, ..old(self)@ }),
            match write_decision(old(self)@.last_state, data@) {
                Some(w) => write matches Some(a) && a@ == w,
                None => write is None,
            },
    {
        if eq_u8_5(&data, &self.last_state) {
            proof {
                assert(self@ =~= (VibrationGloveView { last_state: data@, ..old(self)@ }));
            }
            return None;
        }

        self.last_state = data;
        Some(data)
    }

    /// The last intensity vector handed to the transport.
    pub fn get_last_state(&self) -> (r: FingersVibrationIntensity)
        ensures
            r@ == self@.last_state,
    {
        self.last_state
    }
}

} // verus!
