//! Terminal coding-agent runtime core: command, approval, workspace and persona
//! state machines, prompt builders, and the guarded-completion rules that decide
//! when a local model answer may close a task.

pub mod text;
pub mod approval;
pub mod working_process;
pub mod workspace;
pub mod workspace_lines;
pub mod form_lines;
pub mod command;
pub mod config;
pub mod expanded_form;
pub mod persona;
pub mod llm;
pub mod persona_prompt;
pub mod persona_runtime;
pub mod runtime_request;
pub mod conversation;
pub mod state;
pub mod runtime_workspace;
pub mod key_input;
pub mod tool_loop;
pub mod layout;
pub mod scenes;
pub mod epilogue;
