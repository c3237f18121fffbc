use vstd::prelude::*;

use crate::opt::FingersSensibility;

verus! {

/// One movement classification: `true` on channel `i` means finger `i` is
/// currently considered moving.
pub type MovingFingers = [bool; 5];

/// One raw (or smoothed) reading of the five flex-sensor channels.
#[derive(Debug, Copy, Clone)]
pub struct FingersFlexValues(pub [u32; 5]);

impl FingersFlexValues {
    /// Classifies each channel against its threshold: a finger moves exactly
    /// when its value is strictly above the configured sensibility.
    pub fn detect_moved_fingers(&self, sensibility: &FingersSensibility) -> (moved: MovingFingers)
        ensures
            forall|i: int| 0 <= i < 5 ==> moved[i] == (self.0[i] > sensibility.0[i]),
    {
        let moved_fingers: [bool; 5] = [
            self.0[0] > sensibility.0[0],
            self.0[1] > sensibility.0[1],
            self.0[2] > sensibility.0[2],
            self.0[3] > sensibility.0[3],
            self.0[4] > sensibility.0[4],
        ];
        moved_fingers
    }
}

/// One timestamped frame: wall-clock milliseconds plus the five channels.
#[derive(Debug, Copy, Clone)]
pub struct FlexSensorGloveNotification {
    /// Milliseconds of wall-clock time attached to the frame.
    pub dt: u64,
    pub flex_values: FingersFlexValues,
}

/// The little-endian 16-bit value stored at byte offset `off` of `buffer`.
pub open spec fn le_u16_at(buffer: Seq<u8>, off: int) -> int {
    buffer[off] + 256 * buffer[off + 1]
}

/// The little-endian 32-bit value stored at byte offset `off` of `buffer`.
pub open spec fn le_u32_at(buffer: Seq<u8>, off: int) -> int {
    buffer[off] + 0x100 * buffer[off + 1] + 0x1_0000 * buffer[off + 2] + 0x100_0000 * buffer[off
        + 3]
}

impl FlexSensorGloveNotification {
    /// Decodes one transport packet: five little-endian 16-bit channel values
    /// at offsets 0, 2, .., 8, and a little-endian 32-bit millisecond offset at
    /// byte 10, added to the session start time `dt_start`.
    pub fn from_buffer(buffer: &[u8], dt_start: u64) -> (n: Self)
        requires
            buffer@.len() >= 14,
            dt_start + le_u32_at(buffer@, 10) <= u64::MAX,
        ensures
            n.dt == dt_start + le_u32_at(buffer@, 10),
            forall|i: int| 0 <= i < 5 ==> n.flex_values.0[i] == le_u16_at(buffer@, 2 * i),
    {
        let flex_values: [u32; 5] = [
            buffer[0] as u32 + 256 * (buffer[1] as u32),
            buffer[2] as u32 + 256 * (buffer[3] as u32),
            buffer[4] as u32 + 256 * (buffer[5] as u32),
            buffer[6] as u32 + 256 * (buffer[7] as u32),
            buffer[8] as u32 + 256 * (buffer[9] as u32),
        ];

        let millis: u64 = buffer[10] as u64 + 0x100 * (buffer[11] as u64) + 0x1_0000 * (buffer[12]
            as u64) + 0x100_0000 * (buffer[13] as u64);

        FlexSensorGloveNotification { dt: dt_start + millis, flex_values: FingersFlexValues(flex_values) }
    }
}

} // verus!
