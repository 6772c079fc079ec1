//! A compute-grid worker agent's local task scheduler, verified.
//!
//! A fixed number of execution slots admits submitted tasks; tasks that
//! arrive while every slot is occupied wait in an admission queue, and a
//! completion promotes the most recently queued task into the freed slot.

pub mod admission_queue;
pub mod api;
pub mod node_info;
pub mod slot_pool;
pub mod task;
pub mod task_manager;
pub mod trusted;
