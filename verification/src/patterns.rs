use vstd::prelude::*;

pub mod text;

verus! {

/// The finger order walked by the repeat detector: thumb to little finger.
pub const FINGERS_ORDER: [u8; 5] = [0, 1, 2, 3, 4];

/// Default bound, in milliseconds, on the time between two successive steps
/// of a sweep.
pub const DEFAULT_PATTERN_MAX_DELAY: u32 = 500;

/// Default bound, in milliseconds, on the time between two completed sweeps.
pub const DEFAULT_REPEATING_PATTERN_DELAY: u32 = 1000;

/// Milliseconds from `last` to `now`; zero when `now` lies before `last`.
pub open spec fn elapsed_ms(now: u64, last: u64) -> u64 {
    if now >= last {
        (now - last) as u64
    } else {
        0
    }
}

/// How many of the five fingers are asserted.
pub open spec fn pressed_count(moved: Seq<bool>) -> int {
    (if moved[0] {
        1int
    } else {
        0int
    }) + (if moved[1] {
        1int
    } else {
        0int
    }) + (if moved[2] {
        1int
    } else {
        0int
    }) + (if moved[3] {
        1int
    } else {
        0int
    }) + (if moved[4] {
        1int
    } else {
        0int
    })
}

/// Counts the asserted fingers of a movement vector.
pub fn count_pressed(moved_fingers: &[bool; 5]) -> (n: usize)
    ensures
        n == pressed_count(moved_fingers@),
{
    let mut n: usize = 0;
    if moved_fingers[0] {
        n = n + 1;
    }
    if moved_fingers[1] {
        n = n + 1;
    }
    if moved_fingers[2] {
        n = n + 1;
    }
    if moved_fingers[3] {
        n = n + 1;
    }
    if moved_fingers[4] {
        n = n + 1;
    }
    n
}

/// The mathematical state of a `Pattern`.
pub ghost struct PatternView {
    pub fingers_order: Seq<u8>,
    pub current_index: int,
    pub max_ms_delay: u32,
    pub last_finger_time: u64,
}

impl PatternView {
    /// The order is non-empty, every entry names one of the five fingers, and
    /// the progress index never runs past the order.
    pub open spec fn wf(self) -> bool {
        0 < self.fingers_order.len() && (forall|j: int|
            0 <= j < self.fingers_order.len() ==> self.fingers_order[j] < 5) && 0
            <= self.current_index <= self.fingers_order.len()
    }

    pub open spec fn is_done(self) -> bool {
        self.current_index == self.fingers_order.len()
    }
}

/// One step of the sweep walker. A pause longer than the inter-step delay
/// first resets the progress to the start. Then the step counts only when the
/// expected next finger is asserted alone; any other vector is ignored and
/// leaves the step clock untouched.
pub open spec fn pattern_step(s: PatternView, moved: Seq<bool>, time: u64) -> PatternView {
    let reset = PatternView {
        current_index: if elapsed_ms(time, s.last_finger_time) > s.max_ms_delay {
            0
        } else {
            s.current_index
        },
        ..s
    };
    if !moved[reset.fingers_order[reset.current_index] as int] {
        reset
    } else if pressed_count(moved) > 1 {
        reset
    } else {
        PatternView { current_index: reset.current_index + 1, last_finger_time: time, ..reset }
    }
}

/// Walks a fixed ordered finger sequence: progress advances one step each
/// time the expected finger is asserted alone, and falls back to the start
/// after a pause longer than the inter-step delay.
pub struct Pattern {
    fingers_order: Vec<u8>,
    current_index: usize,
    max_ms_delay: u32,
    last_finger_time: u64,
}

impl View for Pattern {
    type V = PatternView;

    closed spec fn view(&self) -> PatternView {
        PatternView {
            fingers_order: self.fingers_order@,
            current_index: self.current_index as int,
            max_ms_delay: self.max_ms_delay,
            last_finger_time: self.last_finger_time,
        }
    }
}

impl Pattern {
    /// A fresh walker at the start of the given order.
    pub fn new(fingers_order: Vec<u8>, max_ms_delay: u32) -> (p: Self)
        requires
            0 < fingers_order@.len(),
            forall|j: int| 0 <= j < fingers_order@.len() ==> fingers_order@[j] < 5,
        ensures
            p@ == (PatternView {
                fingers_order: fingers_order@,
                current_index: 0,
                max_ms_delay,
                last_finger_time: 0,
            }),
            p@.wf(),
    {
        Self { fingers_order, max_ms_delay, current_index: 0, last_finger_time: 0 }
    }

    /// Advances the walker by one movement vector, as `pattern_step` says.
    pub fn process_moved_fingers(&mut self, moved_fingers: &[bool; 5], time: u64)
        requires
            old(self)@.wf(),
            !old(self)@.is_done(),
        ensures
            final(self)@ == pattern_step(old(self)@, moved_fingers@, time),
            final(self)@.wf(),
    {
        let elapsed = if time >= self.last_finger_time {
            time - self.last_finger_time
        } else {
            0
        };
        if elapsed > self.max_ms_delay as u64 {
            self.current_index = 0;
        }

        let order_len = self.fingers_order.len();
        let expected = self.fingers_order[self.current_index];
        if !moved_fingers[expected as usize] {
            return ;
        }

        if count_pressed(moved_fingers) > 1 {
            return ;
        }

        if self.current_index < order_len {
            self.current_index = self.current_index + 1;
        }
        self.last_finger_time = time;
    }

    /// Whether the whole order has been walked.
    pub fn is_done(&self) -> (r: bool)
        ensures
            r == self@.is_done(),
    {
        self.current_index == self.fingers_order.len()
    }

    /// Puts the walker back at the start of the order.
    pub fn reset(&mut self)
        ensures
            final(self)@ == (PatternView { current_index: 0, ..old(self)@ }),
    {
        self.current_index = 0;
    }
}

/// The mathematical state of a `ReapeatingPattern`.
pub ghost struct ReapeatingPatternView {
    pub pattern: PatternView,
    pub nb_done: u32,
    pub max_ms_delay: u32,
    pub last_time_done: u64,
}

impl ReapeatingPatternView {
    /// The inner walker is well formed and never left in its completed state:
    /// a finished sweep is counted and the walker reset at once.
    pub open spec fn wf(self) -> bool {
        self.pattern.wf() && !self.pattern.is_done()
    }
}

/// The completion count after one more completion: it saturates instead of
/// wrapping.
pub open spec fn saturating_inc(n: u32) -> u32 {
    if n == u32::MAX {
        n
    } else {
        (n + 1) as u32
    }
}

/// One step of the repeat detector. A pause longer than the inter-repeat
/// delay since the last completed sweep first clears the completion count.
/// Then the inner walker advances; if that completes the order, the
/// completion is counted, its time recorded, and the walker reset.
pub open spec fn repeating_step(s: ReapeatingPatternView, moved: Seq<bool>, time: u64)
    -> ReapeatingPatternView {
    let nb0 = if elapsed_ms(time, s.last_time_done) > s.max_ms_delay {
        0u32
    } else {
        s.nb_done
    };
    let p1 = pattern_step(s.pattern, moved, time);
    if p1.is_done() {
        ReapeatingPatternView {
            pattern: PatternView { current_index: 0, ..p1 },
            nb_done: saturating_inc(nb0),
            max_ms_delay: s.max_ms_delay,
            last_time_done: time,
        }
    } else {
        ReapeatingPatternView {
            pattern: p1,
            nb_done: nb0,
            max_ms_delay: s.max_ms_delay,
            last_time_done: s.last_time_done,
        }
    }
}

/// Counts how many times in a row the full finger order has been swept,
/// within the configured timing bounds.
pub struct ReapeatingPattern {
    pattern: Pattern,
    /// How many sweeps have been completed in close enough succession.
    pub nb_done: u32,
    max_ms_delay: u32,
    last_time_done: u64,
}

impl View for ReapeatingPattern {
    type V = ReapeatingPatternView;

    closed spec fn view(&self) -> ReapeatingPatternView {
        ReapeatingPatternView {
            pattern: self.pattern@,
            nb_done: self.nb_done,
            max_ms_delay: self.max_ms_delay,
            last_time_done: self.last_time_done,
        }
    }
}

impl ReapeatingPattern {
    /// A fresh detector around the given walker, with no completed sweep yet.
    pub fn new(pattern: Pattern, max_ms_delay: u32) -> (r: Self)
        requires
            pattern@.wf(),
            !pattern@.is_done(),
        ensures
            r@ == (ReapeatingPatternView {
                pattern: pattern@,
                nb_done: 0,
                max_ms_delay,
                last_time_done: 0,
            }),
            r@.wf(),
    {
        Self { pattern, nb_done: 0, max_ms_delay, last_time_done: 0 }
    }

    /// The current completion count.
    pub fn nb_done(&self) -> (n: u32)
        ensures
            n == self@.nb_done,
    {
        self.nb_done
    }

    /// Advances the detector by one movement vector, as `repeating_step`
    /// says.
    pub fn process_moved_fingers(&mut self, moved_fingers: &[bool; 5], time: u64)
        requires
            old(self)@.wf(),
        ensures
            final(self)@ == repeating_step(old(self)@, moved_fingers@, time),
            final(self)@.wf(),
    {
        let elapsed = if time >= self.last_time_done {
            time - self.last_time_done
        } else {
            0
        };
        if elapsed > self.max_ms_delay as u64 {
            self.nb_done = 0;
        }

        self.pattern.process_moved_fingers(moved_fingers, time);

        if self.pattern.is_done() {
            self.nb_done = if self.nb_done == u32::MAX {
                self.nb_done
            } else {
                self.nb_done + 1
            };
            self.last_time_done = time;
            self.pattern.reset();
        }
    }
}

/// A pause longer than the inter-step delay, arriving while the inter-repeat
/// delay is still respected, resets the sweep's inner progress without
/// touching the completion count: the next vector can advance the walker by
/// at most one step from the start, and no completion is lost.
pub proof fn lemma_pause_resets_progress_not_count(
    s: ReapeatingPatternView,
    moved: Seq<bool>,
    time: u64,
)
    requires
        s.wf(),
        1 < s.pattern.fingers_order.len(),
        elapsed_ms(time, s.pattern.last_finger_time) > s.pattern.max_ms_delay,
        elapsed_ms(time, s.last_time_done) <= s.max_ms_delay,
    ensures
        repeating_step(s, moved, time).nb_done == s.nb_done,
        repeating_step(s, moved, time).pattern.current_index <= 1,
{
}

} // verus!
