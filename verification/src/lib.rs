//! A bounded worker pool — a fixed set of workers draining one shared FIFO
//! queue of jobs, with a two-phase shutdown protocol — together with the
//! small verified utilities that grew around it.

pub mod basics;
pub mod boxes;
pub mod cacher;
pub mod coin;
pub mod game;
pub mod generics;
pub mod http;
pub mod pool;
pub mod post;
pub mod queue;
pub mod rectangle;
pub mod screen;
pub mod summary;
pub mod text;
pub mod tracker;
pub mod user;
pub mod worker;
