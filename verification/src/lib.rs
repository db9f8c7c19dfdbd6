//! Core of a small editor for C source compiled to WebAssembly: it stages the
//! buffer to a temporary file, plans and judges a pipeline of external
//! programs (compiler, disassembler), decodes the captured output, and keeps
//! the interactive session state (source buffer, last good disassembly).

mod command;
mod errors;
mod orchestrate;
mod pipeline;
mod session;
mod staging;
mod text;

pub use command::StageSpec;
pub use command::StageSpecView;
pub use command::compile_stage_view;
pub use command::compiler_flags;
pub use command::disassemble_stage_view;
pub use command::preview_stages;
pub use command::preview_stages_view;
pub use command::save_binary_stages;
pub use command::save_binary_stages_view;
pub use errors::CompileError;
pub use orchestrate::CompileJob;
pub use orchestrate::begin_preview;
pub use orchestrate::begin_save_binary;
pub use orchestrate::finish_preview;
pub use orchestrate::finish_save_binary;
pub use pipeline::PipelineAction;
pub use pipeline::PipelineRun;
pub use pipeline::StageOutcome;
pub use pipeline::evaluate;
pub use pipeline::lemma_first_stage_failure_reported;
pub use pipeline::stage_ok;
pub use pipeline::verdict_matches;
pub use session::EditorSession;
pub use session::buffer_after_load;
pub use session::default_source_text;
pub use session::disassembly_after_compile;
pub use session::lemma_failed_load_keeps_buffer;
pub use session::lemma_latest_compile_wins;
pub use session::lemma_save_then_load_restores_buffer;
pub use staging::StagedSource;
pub use text::decode_text;
pub use text::lemma_text_bytes_round_trip;
