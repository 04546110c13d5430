//! A single four-way intersection simulated in discrete ticks: vehicles
//! spawn on one of four edges, queue before the stop line, cross the
//! intersection one at a time under a greedy traffic-light policy, and leave
//! on one of four departure queues with car-following spacing enforced.

pub mod car;
pub mod config;
pub mod laws;
pub mod road;
pub mod se_base;
