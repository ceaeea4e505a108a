//! Bringing up a development federation: the daemons it needs, the federation itself and its
//! gateways, and the version of the code that is built.
//!
//! The library decides; it does no input or output of its own. Every procedure that alternates
//! work on the outside with decisions is a step: a value that says what is to be done next, and
//! that turns into the next step when it is given what came of it. What is proved of a procedure
//! holds for every way in which the outside may answer.

pub mod bitcoind;
pub mod channel;
pub mod code_version;
pub mod command;
pub mod explorers;
pub mod gatewayd;
pub mod handles;
pub mod hexadecimal;
pub mod lightningd;
pub mod lnd;
pub mod outside;
pub mod runs;
pub mod startup;
pub mod text;

pub use bitcoind::Bitcoind;
pub use channel::open_channel;
pub use code_version::set_code_version;
pub use explorers::Electrs;
pub use explorers::Esplora;
pub use gatewayd::Gatewayd;
pub use gatewayd::LightningNode;
pub use gatewayd::LightningNodeName;
pub use lightningd::Lightningd;
pub use lnd::Lnd;
pub use startup::DevFed;
pub use startup::ExternalDaemons;
pub use startup::dev_fed;
pub use startup::external_daemons;
