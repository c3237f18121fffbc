use vstd::prelude::*;

use crate::aggregator::MeanAggregator;

verus! {

/// Runtime configuration of a session: which stages run and with what
/// parameters. Transport and command-line handling live outside the library;
/// this struct only carries the resulting plain values.
#[derive(Debug)]
pub struct Opt {
    /// Read frames from a local text source instead of the wireless glove.
    pub input_from_stdin: bool,
    pub output_format: OutputFormat,
    pub output_glove_name: String,
    pub input_glove_name: Option<String>,
    /// Target size of the smoothing window; a size of zero is rejected at the
    /// boundary, see `get_mean_aggregator`.
    pub aggregation_size: usize,
    pub fingers_sensibility: FingersSensibility,
    pub vibration_intensity: u8,
    pub verbose: bool,
    pub lsl: bool,
}

impl Default for Opt {
    /// The stock configuration: pretty output, a ten-frame window, a uniform
    /// movement threshold of 15 and full vibration intensity.
    fn default() -> (opt: Opt)
        ensures
            !opt.input_from_stdin,
            opt.output_format == OutputFormat::Pretty,
            opt.output_glove_name@ == "FlexSensorGlove"@,
            opt.input_glove_name is None,
            opt.aggregation_size == 10,
            opt.fingers_sensibility.0 == [15u32, 15u32, 15u32, 15u32, 15u32],
            opt.vibration_intensity == 255,
            !opt.verbose,
            !opt.lsl,
    {
        Opt {
            input_from_stdin: false,
            output_format: OutputFormat::Pretty,
            output_glove_name: String::from_str("FlexSensorGlove"),
            input_glove_name: None,
            aggregation_size: 10,
            fingers_sensibility: FingersSensibility([15, 15, 15, 15, 15]),
            vibration_intensity: 255,
            verbose: false,
            lsl: false,
        }
    }
}

impl Opt {
    /// The smoothing filter this configuration asks for, or nothing when the
    /// configured window size is unusable (zero, or too large for the
    /// filter's arithmetic).
    pub fn get_mean_aggregator(&self) -> (r: Option<MeanAggregator>)
        ensures
            (0 < self.aggregation_size <= 0xFFFF_FFFF) <==> r is Some,
            r matches Some(a) ==> a.wf() && a.target() == self.aggregation_size
                && a.rows_view().len() == 0,
    {
        if 0 < self.aggregation_size && self.aggregation_size <= 0xFFFF_FFFF {
            Some(MeanAggregator::new(self.aggregation_size))
        } else {
            None
        }
    }
}

/// The per-finger movement thresholds, one strict lower bound per channel.
#[derive(Debug, Copy, Clone)]
pub struct FingersSensibility(pub [u32; 5]);

/// How processed rows are rendered by the hosting application.
#[derive(Debug, Copy, Clone, PartialEq, Eq, Structural)]
pub enum OutputFormat {
    Pretty,
    Csv,
}

impl Default for OutputFormat {
    fn default() -> (f: OutputFormat)
        ensures
            f == OutputFormat::Pretty,
    {
        OutputFormat::Pretty
    }
}

} // verus!
