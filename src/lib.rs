//! Coordination core of a "caffeine mode" idle inhibitor: the state model,
//! the single-slot inhibition backend, the coordination service's decisions,
//! the role an instance takes on the session bus and the local countdown.
pub mod backend;
pub mod client;
pub mod countdown;
pub mod service;
pub mod state;
pub mod text;
