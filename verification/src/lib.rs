//! A resilient session with a wireless heart-rate sensor, as verified logic.
//!
//! The crate holds the decisions of such a session and leaves every
//! operation on the radio, and every read from the keyboard, to its caller:
//!
//! * [`measurement`] decodes one notification payload into a reading;
//! * [`agent`] answers pairing challenges from one line of human input;
//! * [`ident`] holds the identifiers of the service and its characteristic;
//! * [`session`] drives one attempt from discovery to streaming, one event
//!   at a time;
//! * [`supervisor`] restarts the attempt after every failure;
//! * [`text`] writes the lines that tell the user what happens.

pub mod agent;
pub mod ident;
pub mod measurement;
pub mod session;
pub mod supervisor;
pub mod text;
