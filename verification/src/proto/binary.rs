//! The binary protocol: the packet codec and, for each family of
//! operations, the requests to send and the meaning of the responses.

pub mod multi;
pub mod packet;
pub mod reply;
pub mod request;
pub mod stat;
pub mod step;
