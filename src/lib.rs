//! Deployment of a single package archive to a named device over a message bus:
//! topic addressing, archive building, the install executor's decisions and the
//! sender and receiver protocol steps, each with a verified contract.

pub mod archive;
pub mod install;
pub mod outcome;
pub mod receiver;
pub mod reply;
pub mod topic;
