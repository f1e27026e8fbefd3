//! Back-office core for a campus organisation.
//!
//! - [`permission`]: permission strings such as `yq:user:edit`, where a held
//!   path grants every path below it and `*` grants everything, and the
//!   admin predicate built on them.
//! - [`workflow`]: the legal status changes of a work-hour record, who may
//!   make each one, and what each one does to the record.
//! - [`store`]: the records of all campaigns, one per campaign and user,
//!   with submission, single and bulk approval, closing, and the table of
//!   inclusions that finance saves.
//! - [`statistics`]: per-department counts and declared hours of a campaign.
//! - [`members`]: which members an actor may list, see, create, change and
//!   delete, and the password check.
//! - [`work_hour`], [`org`], [`feedback`], [`jifen`], [`zhihu`], [`auth`],
//!   [`config`], [`time`]: the data of the system and the codes in which
//!   its statuses are stored.
//! - [`digest`], [`text`]: MD5 in hexadecimal, and string helpers.
pub mod auth;
pub mod config;
pub mod digest;
pub mod feedback;
pub mod jifen;
pub mod members;
pub mod org;
pub mod permission;
pub mod statistics;
pub mod store;
pub mod text;
pub mod time;
pub mod work_hour;
pub mod workflow;
pub mod zhihu;
