//! The quota display of Codex profiles and the refreshes of account quotas: what is shown, when it
//! is read again, and how requests for it are answered.

pub mod account;
pub mod backoff;
pub mod cdp;
pub mod concurrency;
pub mod gateway;
pub mod injection;
pub mod json;
pub mod launch;
pub mod pool;
pub mod quota;
pub mod quota_url;
pub mod refresh;
pub mod runtime;
pub mod schedule;
pub mod script;
pub mod script_body;
pub mod settings;
pub mod table;
pub mod text;
