use vstd::prelude::*;

use crate::devices::vibration_glove::FingersVibrationIntensity;
use crate::parser::FlexSensorGloveNotification;
use crate::parser::MovingFingers;

verus! {

/// One processed record as handed to the row, telemetry and notification
/// sinks: the processed frame, its movement classification, and the haptic
/// state that accompanied it. Rendering the row is the hosting application's
/// affair.
#[derive(Debug, Copy, Clone)]
pub struct OutputRow {
    pub notification: FlexSensorGloveNotification,
    pub moving_fingers: MovingFingers,
    pub vibration_state: FingersVibrationIntensity,
}

impl OutputRow {
    /// The movement vector scaled for plotting next to the raw channels: 500
    /// for a moving finger, 0 for a still one.
    pub fn moving_fingers_scaled(&self) -> (r: [u32; 5])
        ensures
            forall|i: int|
                0 <= i < 5 ==> r[i] == (if self.moving_fingers[i] {
                    500u32
                } else {
                    0u32
                }),
    {
        let r: [u32; 5] = [
            if self.moving_fingers[0] {
                500
            } else {
                0
            },
            if self.moving_fingers[1] {
                500
            } else {
                0
            },
            if self.moving_fingers[2] {
                500
            } else {
                0
            },
            if self.moving_fingers[3] {
                500
            } else {
                0
            },
            if self.moving_fingers[4] {
                500
            } else {
                0
            },
        ];
        r
    }
}

} // verus!
