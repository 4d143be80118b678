//! Planning orchestrator: the decision logic of an agent that questions,
//! researches through web searches, and then asks a model for a plan.

pub mod chat;
pub mod dispatch;
pub mod gateway;
pub mod json;
pub mod message;
pub mod orchestrator;
pub mod scrape;
pub mod shell;
pub mod stream;
pub mod text;
pub mod wire;
