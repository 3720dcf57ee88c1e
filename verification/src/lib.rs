//! On-demand trigger for a CronJob in Kubernetes.
//!
//! A request with the shared secret starts a Job from the template of one
//! CronJob, now and not on schedule, unless such a Job is still running.
//!
//! - [`auth`]: who may trigger.
//! - [`handlers`]: how each request is answered, and which requests there are.
//! - [`run`]: what a trigger does, call by call.
//! - [`job`]: how a Job is made from a CronJob, and whether one still runs.
//! - [`naming`]: the names of such Jobs.
//! - [`config`]: the settings of the service.
//! - [`objects`], [`reply`], [`text_map`], [`text`]: the data of the others.
//!
//! Every function says in its contract what it does. What holds across
//! functions is stated by the public proof functions, `law_..`.

pub mod auth;
pub mod config;
pub mod handlers;
pub mod job;
pub mod naming;
pub mod objects;
pub mod reply;
pub mod run;
pub mod text;
pub mod text_map;
