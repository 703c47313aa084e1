//! Counters that converge when replicas exchange state (CRDTs), and the
//! command protocol that a websocket server speaks to update and read them.

pub mod crdt;
pub mod websocket;
