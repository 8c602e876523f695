//! Entropy gathering, key stretching and the integer decision logic of a
//! coordinate generator for "randonautics" sessions: hardware and OS entropy
//! mixed through SHAKE256, an Argon2id intent key, the planning of random point
//! clouds, and the grid and suppression rules of the anomaly search.

pub mod cpu_entropy;
pub mod shake;
pub mod entropy;
pub mod entropy_v2;
pub mod vault;
pub mod intent;
pub mod geo;
pub mod open_randonaut;
pub mod stats;
