//! The scheduling and execution kernel of a job agent, with the
//! coordinator's scheduling rules beside it.
//!
//! The agent runs jobs on a host for a coordinator: once, on a timer, or as
//! supervised daemons. This library holds what the agent decides: which
//! runs are in flight and how many may be, who is told to stop, which
//! schedule and which supervisor a job is bound to, what is reported of an
//! execution and when, and what a supervisor does next. It waits for
//! nothing; the program around it runs the executors, keeps the time and
//! talks to the network.

pub mod bridge;
pub mod command;
pub mod dispatch;
pub mod error;
pub mod execution;
pub mod job;
pub mod outbound;
pub mod outside;
pub mod react;
pub mod registry;
pub mod reply;
pub mod report;
pub mod schedule;
pub mod scheduler;
pub mod status;
pub mod supervisor;
pub mod table;
pub mod text;
pub mod trace;
pub mod types;

pub use crate::error::ReactError;
pub use crate::job::{BaseJob, DispatchJobParams};
pub use crate::react::React;
pub use crate::registry::RunningJobContext;
pub use crate::schedule::JobLogic;
pub use crate::scheduler::Scheduler;
pub use crate::supervisor::SupervisorSignal;
pub use crate::types::{JobAction, RuntimeAction, ScheduleType};
