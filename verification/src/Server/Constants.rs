//! Default configuration shared by every Vine server bind site.

use vstd::prelude::*;

verus! {

/// Port of the editor host's service.
pub const DEFAULT_MOUNTAIN_PORT: u16 = 50051;

/// Port of the extension host's service.
pub const DEFAULT_COCOON_PORT: u16 = 50052;

/// Port of the background daemon's service.
pub const DEFAULT_AIR_PORT: u16 = 50053;

/// Maximum concurrent connections per server.
pub const MAX_CONNECTIONS: usize = 100;

/// Connection timeout of the bind helper, in seconds.
pub const CONNECTION_TIMEOUT_SECONDS: u64 = 30;

/// Message size limit of every service (4 MB).
pub const MAX_MESSAGE_SIZE: usize = 4194304;

} // verus!
