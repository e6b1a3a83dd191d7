//! Client logic of an NFC-triggered "bloop" box: the wire protocol codec, the
//! tag-data parser, and the decision tables of the connection manager, the
//! orchestration engine and the persistence task.

pub mod bytes;
pub mod engine;
pub mod hardware;
pub mod hexstr;
pub mod network;
pub mod nfc;
pub mod state;
