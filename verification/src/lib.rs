//! Verified core of the Vox World web front end: request routing of the web gateway
//! (static files, `/ws` relay, `/play` sessions and their limit, `/api/health` and
//! `/api/status`), the play-session state machine, and the chunk, roster and label
//! logic of the browser world preview.
pub mod text;
pub mod gateway;
pub mod sorting;
pub mod session;
pub mod chunks;
pub mod patch;
pub mod trade;
pub mod sites;
pub mod labels;
pub mod interaction;
pub mod input;
