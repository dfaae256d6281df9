pub mod allocator;
pub mod cni;
pub mod lease;
pub mod net;
pub mod session;
