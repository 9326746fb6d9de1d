//! Z-Wave to HomeCore bridge logic: the ValueID translation table, the JSON
//! value model it works on, and the decisions the bridge takes on the
//! messages it receives from zwave-js-server and from the MQTT broker.

pub mod text;
pub mod json;
pub mod assoc;
pub mod translator;
pub mod types;
pub mod paths;
pub mod logging;
pub mod config;
pub mod bridge;
pub mod session;
