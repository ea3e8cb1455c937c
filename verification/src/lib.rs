//! Deterministic headless simulation core: time, identity, events, scheduling.
//!
//! The world map, its pathfinding and activity sites, and the hunger and
//! fatigue model are separate crates that this crate does not include.
//! The components built directly on them are therefore not here: the action
//! runtime (`ActionRuntime`) and its decision driver, the world kernel
//! (`WorldKernel`), the person runtime (`PersonRuntime`), the render
//! snapshot (`RenderSnapshot`), the simulation worker (`SimulationWorker`)
//! and the chaos runner (`run_chaos` and its spawn-layout search).
//! What those components decide on plain values is here and verified: the
//! action kinds, states and timings, the start, cancel, movement-step,
//! arrival and due-work dispatch decisions, the decision driver's request
//! merging and interrupt rule, the outcome-event log, the kernel's advance
//! guards, round loop and observations, the render snapshot's validation,
//! the worker's command rules and pacing, the chaos detectors, per-day view
//! checks, liveness guard and completion accounting, and the canonical
//! truth hash.

pub mod text;
pub mod time;
pub mod entity;
pub mod events;
mod queue;
pub mod scheduler;
pub mod workload;
pub mod snapshot;
pub mod storage;
pub mod kernel;
pub mod worker;
pub mod digest;
pub mod actions;
pub mod person;
pub mod render;
pub mod chaos;
pub mod truth;
