//! Zero-copy frame distribution between one producing process (the host)
//! and many consuming processes (the clients).
//!
//! This library holds the decision logic of the system: the frame
//! lifecycle and its buffer-allocation strategy, the host's pool of
//! published frames with its expiry policy, the client connection state
//! machine, the camera buffer ring and the interpretation of codec status
//! words. The operating-system work (allocating DMA or shared memory,
//! binding sockets, talking to a capture driver) is performed by the caller,
//! which hands the outcome of each native step back to these types.

pub mod error;
pub mod fourcc;
pub mod frame;
pub mod host;
pub mod client;
pub mod camera;
pub mod decoder;
pub mod encoder;
pub mod wire;
