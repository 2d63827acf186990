pub mod command;
pub mod coordinator;
pub mod relay;
pub mod reporter;
pub mod progress;
pub mod orchestrator;
pub mod routing;
pub mod naming;
