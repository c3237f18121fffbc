pub mod vibration_glove;
