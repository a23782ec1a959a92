//! Aether Code: an orchestrator that turns a user's intents into technical
//! tasks, has a language model write Rust code for them, builds that code in
//! an isolated sandbox, corrects it until it compiles, and records every
//! step in a todo context and in standardised git commits.
//!
//! The library holds the decisions and the data: each flow that needs
//! outside work (a model call, a container, git, files) is a state machine
//! that says what to do next and takes back what it gave.
use vstd::prelude::*;

pub mod text;
pub mod command;
pub mod coding_agent;
pub mod todo_context;
pub mod commit;
pub mod docker_sandbox;
pub mod build_flow;
pub mod test_summary;
pub mod intent_analyst;
pub mod llm_client;
pub mod telegram_bot;
pub mod workspace_manager;

verus! {
} // verus!
