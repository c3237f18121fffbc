mod aggregator;
mod devices;
mod opt;
mod output;
mod parser;
mod patterns;
mod process;

pub use aggregator::MeanAggregator;
pub use devices::vibration_glove::DesinhibitionVibrationModeConfig;
pub use devices::vibration_glove::FingersVibrationIntensity;
pub use devices::vibration_glove::RandomVibrationModeConfig;
pub use devices::vibration_glove::VibrationGlove;
pub use devices::vibration_glove::VibrationMode;
pub use patterns::DEFAULT_PATTERN_MAX_DELAY;
pub use patterns::DEFAULT_REPEATING_PATTERN_DELAY;
pub use patterns::FINGERS_ORDER;
pub use patterns::Pattern;
pub use patterns::ReapeatingPattern;
pub use patterns::text::TextPattern;
pub use patterns::text::WritingMode;
pub use patterns::text::compute_hand_value;
pub use opt::FingersSensibility;
pub use opt::Opt;
pub use opt::OutputFormat;
pub use output::OutputRow;
pub use parser::FingersFlexValues;
pub use parser::FlexSensorGloveNotification;
pub use parser::MovingFingers;
pub use process::Process;
pub use process::REPEAT_SWITCH_THRESHOLD;
pub use process::StepOutput;
