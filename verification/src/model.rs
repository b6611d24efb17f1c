//! Constants shared by the relay and its clients.

use vstd::prelude::*;

verus! {

/// The largest chunk, in bytes, that the bridge reads from a socket at once.
pub const TCP_BUFFER_SIZE: usize = 65536;

/// The relay that clients use unless told otherwise.
pub const DEFAULT_RELAY: &'static str = "croc.schollz.com";

/// The IPv6 relay that clients use unless told otherwise.
pub const DEFAULT_RELAY6: &'static str = "croc6.schollz.com";

/// The relay password that clients use unless told otherwise.
pub const DEFAULT_PASSPHRASE: &'static str = "pass123";

} // verus!
