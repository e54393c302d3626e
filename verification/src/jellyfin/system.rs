//! What the server says about itself to clients before they log in.

use vstd::prelude::*;
use crate::text::owned;

verus! {

/// The server description anyone may read.
pub struct PublicSystemInfo {
    pub local_address: String,
    pub server_name: String,
    pub version: String,
    pub product_name: String,
    pub operating_system: String,
    pub id: String,
    pub startup_wizard_completed: bool,
}

/// The public description of a server: its external address, name and id,
/// presented as Jellyfin Server 10.11.8 with its setup completed.
pub fn public_system_info(local_address: &str, server_name: &str, server_id: &str) -> (r: PublicSystemInfo)
    ensures
        r.local_address@ == local_address@,
        r.server_name@ == server_name@,
        r.version@ == "10.11.8"@,
        r.product_name@ == "Jellyfin Server"@,
        r.operating_system@ == Seq::<char>::empty(),
        r.id@ == server_id@,
        r.startup_wizard_completed,
{
    PublicSystemInfo {
        local_address: owned(local_address),
        server_name: owned(server_name),
        version: owned("10.11.8"),
        product_name: owned("Jellyfin Server"),
        operating_system: String::new(),
        id: owned(server_id),
        startup_wizard_completed: true,
    }
}

} // verus!
