//! The verified core of VoiceDown, a tool that records the sound of one window, has it transcribed
//! and writes the recording and its text to disk.
//!
//! Everything here works on plain values. Devices, processes, files and the network belong to the
//! program around this library: it performs the actions that the state machines below ask for and
//! hands the outcomes back.

pub mod asr_session;
pub mod asr_supervisor;
pub mod audio_capture;
pub mod capture_finalizer;
pub mod clock;
pub mod commands;
pub mod dictionary;
pub mod export_config;
pub mod json;
pub mod json_config_store;
pub mod llm_backend;
pub mod optimizer_session;
pub mod punc_pipeline;
pub mod punc_session;
pub mod python_bridge;
pub mod segmentation;
pub mod t2s_data;
pub mod text;
pub mod text_optimizer;
pub mod text_postprocess;
pub mod time_util;
pub mod wav_render;
pub mod window_selector;
