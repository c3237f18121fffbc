use vstd::prelude::*;

use crate::aggregator::MeanAggregator;
use crate::aggregator::smoothed_channel;
use crate::aggregator::window_after_push;
use crate::devices::vibration_glove::RandomVibrationModeConfig;
use crate::devices::vibration_glove::RandomVibrationView;
use crate::devices::vibration_glove::VibrationGlove;
use crate::devices::vibration_glove::VibrationGloveView;
use crate::devices::vibration_glove::VibrationMode;
use crate::devices::vibration_glove::VibrationModeView;
use crate::devices::vibration_glove::FingersVibrationIntensity;
use crate::devices::vibration_glove::glove_step_rel;
use crate::devices::vibration_glove::zero_vector;
use crate::opt::FingersSensibility;
use crate::output::OutputRow;
use crate::parser::FlexSensorGloveNotification;
use crate::patterns::ReapeatingPattern;
use crate::patterns::repeating_step;
use crate::patterns::text::TextPattern;
use crate::patterns::text::text_step;

verus! {

/// How many completed sweeps of the repeat detector switch the feedback
/// controller to its randomized mode.
pub const REPEAT_SWITCH_THRESHOLD: u32 = 3;

/// Everything one frame produced: the processed record for the sinks, the
/// characters the decoder wrote (and whether to mirror them to a keyboard
/// sink), the transport write the feedback controller asks for, and the
/// repeat detector's completion count.
pub struct StepOutput {
    pub row: OutputRow,
    pub emitted: Option<String>,
    pub mirror_to_keyboard: bool,
    pub vibration_write: Option<FingersVibrationIntensity>,
    pub repeat_completions: u32,
}

/// Drives the per-frame pipeline over its optional sub-stages, in fixed
/// order: smoothing, movement detection, text decoding, repeat detection,
/// haptic feedback. Every stage is independently optional and swappable
/// between frames; reading frames and writing to sinks stay with the caller.
pub struct Process {
    fingers_sensibility: FingersSensibility,
    aggregator: Option<MeanAggregator>,
    text_pattern_detection: Option<TextPattern>,
    repeating_pattern: Option<ReapeatingPattern>,
    vibration_glove: Option<VibrationGlove>,
    vibration_switched: bool,
}

impl Process {
    pub closed spec fn spec_sensibility(&self) -> FingersSensibility {
        self.fingers_sensibility
    }

    pub closed spec fn spec_aggregator(&self) -> Option<MeanAggregator> {
        self.aggregator
    }

    pub closed spec fn spec_decoder(&self) -> Option<TextPattern> {
        self.text_pattern_detection
    }

    pub closed spec fn spec_repeating(&self) -> Option<ReapeatingPattern> {
        self.repeating_pattern
    }

    pub closed spec fn spec_vibration(&self) -> Option<VibrationGlove> {
        self.vibration_glove
    }

    /// Whether the one-shot switch to randomized feedback has fired.
    pub closed spec fn spec_vibration_switched(&self) -> bool {
        self.vibration_switched
    }

    /// Every attached stage is well formed.
    pub open spec fn wf(&self) -> bool {
        &&& (self.spec_aggregator() matches Some(a) ==> a.wf())
        &&& (self.spec_decoder() matches Some(t) ==> t@.wf())
        &&& (self.spec_repeating() matches Some(rp) ==> rp@.wf())
        &&& (self.spec_vibration() matches Some(g) ==> g@.vibration_mode.wf())
    }

    /// A pipeline with no stage attached: a pure sensor logger that
    /// classifies movement against the given thresholds.
    pub fn new(fingers_sensibility: FingersSensibility) -> (p: Self)
        ensures
            p.wf(),
            p.spec_sensibility() == fingers_sensibility,
            p.spec_aggregator() is None,
            p.spec_decoder() is None,
            p.spec_repeating() is None,
            p.spec_vibration() is None,
            !p.spec_vibration_switched(),
    {
        Self {
            fingers_sensibility,
            aggregator: None,
            text_pattern_detection: None,
            repeating_pattern: None,
            vibration_glove: None,
            vibration_switched: false,
        }
    }

    /// Attaches, replaces or removes the smoothing filter.
    pub fn set_aggregator(&mut self, aggregator: Option<MeanAggregator>)
        requires
            aggregator matches Some(a) ==> a.wf(),
        ensures
            final(self).spec_aggregator() == aggregator,
            final(self).spec_sensibility() == old(self).spec_sensibility(),
            final(self).spec_decoder() == old(self).spec_decoder(),
            final(self).spec_repeating() == old(self).spec_repeating(),
            final(self).spec_vibration() == old(self).spec_vibration(),
            final(self).spec_vibration_switched() == old(self).spec_vibration_switched(),
    {
        self.aggregator = aggregator;
    }

    /// Attaches, replaces or removes the text decoder.
    pub fn set_text_pattern_detection(&mut self, text_pattern_detection: Option<TextPattern>)
        requires
            text_pattern_detection matches Some(t) ==> t@.wf(),
        ensures
            final(self).spec_decoder() == text_pattern_detection,
            final(self).spec_sensibility() == old(self).spec_sensibility(),
            final(self).spec_aggregator() == old(self).spec_aggregator(),
            final(self).spec_repeating() == old(self).spec_repeating(),
            final(self).spec_vibration() == old(self).spec_vibration(),
            final(self).spec_vibration_switched() == old(self).spec_vibration_switched(),
    {
        self.text_pattern_detection = text_pattern_detection;
    }

    /// Detaches and hands back the smoothing filter, so a control surface
    /// can reconfigure it between frames.
    pub fn take_aggregator(&mut self) -> (a: Option<MeanAggregator>)
        requires
            old(self).wf(),
        ensures
            a == old(self).spec_aggregator(),
            a matches Some(x) ==> x.wf(),
            final(self).spec_aggregator() is None,
            final(self).spec_sensibility() == old(self).spec_sensibility(),
            final(self).spec_decoder() == old(self).spec_decoder(),
            final(self).spec_repeating() == old(self).spec_repeating(),
            final(self).spec_vibration() == old(self).spec_vibration(),
            final(self).spec_vibration_switched() == old(self).spec_vibration_switched(),
    {
        self.aggregator.take()
    }

    /// Detaches and hands back the text decoder, so a control surface can
    /// reconfigure it between frames.
    pub fn take_text_pattern_detection(&mut self) -> (t: Option<TextPattern>)
        requires
            old(self).wf(),
        ensures
            t == old(self).spec_decoder(),
            t matches Some(x) ==> x@.wf(),
            final(self).spec_decoder() is None,
            final(self).spec_sensibility() == old(self).spec_sensibility(),
            final(self).spec_aggregator() == old(self).spec_aggregator(),
            final(self).spec_repeating() == old(self).spec_repeating(),
            final(self).spec_vibration() == old(self).spec_vibration(),
            final(self).spec_vibration_switched() == old(self).spec_vibration_switched(),
    {
        self.text_pattern_detection.take()
    }

    /// Attaches, replaces or removes the repeat detector.
    pub fn set_repeating_pattern(&mut self, repeating_pattern: Option<ReapeatingPattern>)
        requires
            repeating_pattern matches Some(rp) ==> rp@.wf(),
        ensures
            final(self).spec_repeating() == repeating_pattern,
            final(self).spec_sensibility() == old(self).spec_sensibility(),
            final(self).spec_aggregator() == old(self).spec_aggregator(),
            final(self).spec_decoder() == old(self).spec_decoder(),
            final(self).spec_vibration() == old(self).spec_vibration(),
            final(self).spec_vibration_switched() == old(self).spec_vibration_switched(),
    {
        self.repeating_pattern = repeating_pattern;
    }

    /// Attaches, replaces or removes the feedback controller.
    pub fn set_vibration_glove(&mut self, vibration_glove: Option<VibrationGlove>)
        requires
            vibration_glove matches Some(g) ==> g@.vibration_mode.wf(),
        ensures
            final(self).spec_vibration() == vibration_glove,
            final(self).spec_sensibility() == old(self).spec_sensibility(),
            final(self).spec_aggregator() == old(self).spec_aggregator(),
            final(self).spec_decoder() == old(self).spec_decoder(),
            final(self).spec_repeating() == old(self).spec_repeating(),
            final(self).spec_vibration_switched() == old(self).spec_vibration_switched(),
    {
        self.vibration_glove = vibration_glove;
    }

    /// Processes one frame through every attached stage, in the pipeline's
    /// fixed order, and returns what the caller must hand on: the processed
    /// row, the decoded characters, and the haptic write. The feedback
    /// controller is switched to randomized pulses, once and for all, the
    /// first time the repeat detector's completion count reaches the
    /// threshold.
    pub fn step(&mut self, notification: FlexSensorGloveNotification) -> (out: StepOutput)
        requires
            old(self).wf(),
        ensures
            final(self).wf(),
            final(self).spec_sensibility() == old(self).spec_sensibility(),
            // Smoothing: the processed frame is the filter's output, or the
            // raw frame when no filter is attached.
            match old(self).spec_aggregator() {
                Some(a) => {
                    &&& final(self).spec_aggregator() matches Some(a2)
                    &&& a2.rows_view() == window_after_push(a.rows_view(), a.target(), notification)
                    &&& a2.target() == a.target()
                    &&& out.row.notification.dt == notification.dt
                    &&& forall|i: int|
                        0 <= i < 5 ==> out.row.notification.flex_values.0[i] == smoothed_channel(
                            a2.rows_view(),
                            i,
                        )
                },
                None => {
                    &&& final(self).spec_aggregator() is None
                    &&& out.row.notification == notification
                },
            },
            // Movement: classified from the processed frame, strictly above
            // the thresholds.
            forall|i: int|
                0 <= i < 5 ==> out.row.moving_fingers[i] == (out.row.notification.flex_values.0[i]
                    > old(self).spec_sensibility().0[i]),
            // Text decoding.
            match old(self).spec_decoder() {
                Some(t) => {
                    &&& final(self).spec_decoder() matches Some(t2)
                    &&& t2@ == text_step(t@, out.row.moving_fingers@, out.row.notification.dt).0
                    &&& t2.keyboard_emulation_enabled() == t.keyboard_emulation_enabled()
                    &&& match text_step(t@, out.row.moving_fingers@, out.row.notification.dt).1 {
                        Some(chars) => out.emitted matches Some(e) && e@ == chars,
                        None => out.emitted is None,
                    }
                    &&& out.mirror_to_keyboard == (t.keyboard_emulation_enabled()
                        && out.emitted is Some)
                },
                None => {
                    &&& final(self).spec_decoder() is None
                    &&& out.emitted is None
                    &&& !out.mirror_to_keyboard
                },
            },
            // Repeat detection.
            match old(self).spec_repeating() {
                Some(rp) => {
                    &&& final(self).spec_repeating() matches Some(rp2)
                    &&& rp2@ == repeating_step(rp@, out.row.moving_fingers@, out.row.notification.dt)
                    &&& out.repeat_completions == rp2@.nb_done
                },
                None => {
                    &&& final(self).spec_repeating() is None
                    &&& out.repeat_completions == 0
                },
            },
            // Haptic feedback, with the one-shot switch to randomized pulses.
            match old(self).spec_vibration() {
                Some(g) => {
                    &&& final(self).spec_vibration() matches Some(g2)
                    &&& out.row.vibration_state@ == g2@.last_state
                    &&& if out.repeat_completions >= REPEAT_SWITCH_THRESHOLD && !old(
                        self,
                    ).spec_vibration_switched() {
                        &&& final(self).spec_vibration_switched()
                        &&& exists|m: RandomVibrationView|
                            m.wf() && glove_step_rel(
                                VibrationGloveView {
                                    vibration_mode: VibrationModeView::Random(m),
                                    ..g@
                                },
                                g2@,
                                out.row.moving_fingers@,
                                out.row.notification.dt,
                                match out.vibration_write {
                                    Some(w) => Some(w@),
                                    None => None,
                                },
                            )
                    } else {
                        &&& final(self).spec_vibration_switched() == old(
                            self,
                        ).spec_vibration_switched()
                        &&& glove_step_rel(
                            g@,
                            g2@,
                            out.row.moving_fingers@,
                            out.row.notification.dt,
                            match out.vibration_write {
                                Some(w) => Some(w@),
                                None => None,
                            },
                        )
                    }
                },
                None => {
                    &&& final(self).spec_vibration() is None
                    &&& out.vibration_write is None
                    &&& out.row.vibration_state@ == zero_vector()
                    &&& final(self).spec_vibration_switched() == old(
                        self,
                    ).spec_vibration_switched()
                },
            },
    {
        let aggregated_notification = match &mut self.aggregator {
            Some(aggregator) => aggregator.push_and_aggregate(notification),
            None => notification,
        };

        let moved_fingers = aggregated_notification.flex_values.detect_moved_fingers(
            &self.fingers_sensibility,
        );

        let (emitted, mirror_to_keyboard) = match &mut self.text_pattern_detection {
            Some(text_pattern) => {
                let emitted = text_pattern.process_moved_fingers(
                    &moved_fingers,
                    aggregated_notification.dt,
                );
                let mirror = text_pattern.mirrors_to_keyboard() && emitted.is_some();
                (emitted, mirror)
            },
            None => (None, false),
        };

        let repeat_completions = match &mut self.repeating_pattern {
            Some(repeating) => {
                repeating.process_moved_fingers(&moved_fingers, aggregated_notification.dt);
                repeating.nb_done()
            },
            None => 0,
        };

        let (vibration_write, vibration_state) = match &mut self.vibration_glove {
            Some(glove) => {
                if repeat_completions >= REPEAT_SWITCH_THRESHOLD && !self.vibration_switched {
                    let config = RandomVibrationModeConfig::new(aggregated_notification.dt);
                    proof {
                        let m = config@;
                        assert(m.wf());
                    }
                    glove.set_vibration_mode(VibrationMode::Random(config));
                    self.vibration_switched = true;
                }
                let write = glove.process_moved_fingers(&moved_fingers, aggregated_notification.dt);
                (write, glove.get_last_state())
            },
            None => {
                let zeros: [u8; 5] = [0, 0, 0, 0, 0];
                proof {
                    assert(zeros@ =~= zero_vector());
                }
                (None, zeros)
            },
        };

        StepOutput {
            row: OutputRow {
                notification: aggregated_notification,
                moving_fingers: moved_fingers,
                vibration_state,
            },
            emitted,
            mirror_to_keyboard,
            vibration_write,
            repeat_completions,
        }
    }
}

} // verus!
