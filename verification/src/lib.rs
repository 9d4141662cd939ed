//! The verified core of an ARP monitor.
//!
//! The monitor listens on one network interface, decodes the Ethernet frames
//! it receives, classifies the ARP messages among them as requests and
//! replies, and records each with the time of its capture.
//!
//! - `interface`: the interfaces of the system, and the choice of one by name.
//! - `capture`: how the capture channel is opened, and what its failures mean.
//! - `frame`, `arp`: decoding, from captured bytes to an ARP message.
//! - `event`: classification, from an ARP message to an event.
//! - `schema`, `storage`: the two tables, their statements and their rows.
//! - `monitor`: the loop that ties these together, as a state machine.
//! - `startup`: the failures that end the process, and their exit codes.
//! - `address`, `timestamp`: the values that the rows are made of.
//!
//! Capturing and writing to disk are left to the caller: the library decides
//! what is to be done and says what it comes to.

pub mod address;
pub mod arp;
pub mod capture;
pub mod event;
pub mod frame;
pub mod interface;
pub mod monitor;
pub mod schema;
pub mod startup;
pub mod storage;
pub mod timestamp;
