//! A gateway core between a CAN analysis protocol and a CAN-to-Ethernet
//! adapter protocol: the frame model, both wire codecs and the decoder's
//! handshake state machine.

pub mod frame;
pub mod canet;
pub mod gvret;
pub mod text;
