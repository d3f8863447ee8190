pub mod create_invite;
pub mod create_task;
pub mod deactivate_task;
pub mod initialize;
pub mod register_agent;
pub mod register_agent_with_invite;
pub mod submit_proof;
