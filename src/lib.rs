//! Decision core of an autonomous agent in a tile world: the objective state
//! machine, the least-explored locator, resource valuation, the local scanner,
//! the destination walker and the remote-control protocol.
pub mod chance;
pub mod locator;
pub mod objective;
pub mod pilot;
pub mod pioneer_bot;
pub mod scanner;
pub mod valuation;
pub mod walker;
pub mod world;
