//! A pseudo character device that hands out one line of a fixed, cyclic text
//! per read.
//!
//! The library holds every decision the device makes: which host call comes
//! next while the device is set up or torn down, which raw status becomes
//! which error, which line a read serves and where the cursor stands
//! afterwards. The host itself (the registration subsystem, the copy into the
//! reader's buffer, the sleep, the log) is driven by the embedding layer, which
//! performs each [`host::HostCall`] it is handed and reports back a
//! [`host::HostReply`].
pub mod frames;
pub mod cursor;
pub mod error;
pub mod host;
pub mod controller;
pub mod device;
