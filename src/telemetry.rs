//! Typed forms of the controller's responses: sites, devices and the latest
//! statistics of one device.

use vstd::prelude::*;

verus! {

/// A 64-bit IEEE-754 number carried by its bit pattern. The library stores and
/// forwards such values; it never computes with them.
#[derive(Debug, Clone, Copy, PartialEq, Eq, Structural)]
pub struct RawFloat {
    pub bits: u64,
}

/// One entry of the sites collection. Every field may be absent in a response.
#[derive(Debug, Clone)]
pub struct Site {
    pub id: Option<String>,
    pub internal_reference: Option<String>,
    pub name: Option<String>,
}

/// The sites collection with its paging counters.
#[derive(Debug, Clone)]
pub struct SitesResponse {
    pub offset: u32,
    pub limit: u32,
    pub count: u32,
    pub total_count: u32,
    pub data: Vec<Site>,
}

/// One page of the device list of a site.
#[derive(Debug, Clone)]
pub struct DevicesResponse {
    pub count: u32,
    pub data: Vec<Device>,
    pub limit: u32,
    pub offset: u32,
    pub total_count: u32,
}

/// A device as the controller lists it. `id` identifies it in requests and
/// `name` labels its series.
#[derive(Debug, Clone)]
pub struct Device {
    pub features: Vec<String>,
    pub id: String,
    pub interfaces: Vec<String>,
    pub ip_address: String,
    pub mac_address: String,
    pub model: String,
    pub name: String,
    pub state: String,
}

/// The latest statistics of one device.
#[derive(Debug, Clone)]
pub struct DeviceStats {
    pub cpu_utilization_pct: RawFloat,
    pub interfaces: Interfaces,
    pub last_heartbeat_at: String,
    pub load_average_15_min: RawFloat,
    pub load_average_1_min: RawFloat,
    pub load_average_5_min: RawFloat,
    pub memory_utilization_pct: RawFloat,
    pub next_heartbeat_at: String,
    pub uplink: UplinkStats,
    pub uptime_sec: u64,
}

/// Traffic rates of a device's uplink, in bits per second.
#[derive(Debug, Clone, Copy, PartialEq, Eq, Structural)]
pub struct UplinkStats {
    pub rx_rate_bps: u64,
    pub tx_rate_bps: u64,
}

/// Per-interface statistics; radios are reported by access points only.
#[derive(Debug, Clone)]
pub struct Interfaces {
    pub radios: Option<Vec<RadioStats>>,
}

/// Statistics of one radio of an access point.
#[derive(Debug, Clone, Copy, PartialEq, Eq, Structural)]
pub struct RadioStats {
    pub frequency_ghz: RawFloat,
    pub tx_retries_pct: RawFloat,
}

/// The identifier of the first site, where the collection has one and that
/// entry carries an identifier.
pub open spec fn first_site_id(sites: SitesResponse) -> Option<Seq<char>> {
    if sites.data@.len() > 0 && sites.data@[0].id is Some {
        Some(sites.data@[0].id->0@)
    } else {
        None
    }
}

impl SitesResponse {
    /// The identifier of the first site, or `None` where there is none.
    pub fn first_id(&self) -> (r: Option<String>)
        ensures
            r matches Some(id) ==> first_site_id(*self) == Some(id@),
            r is None ==> first_site_id(*self) is None,
    {
        if self.data.len() == 0 {
            return None;
        }
        match &self.data[0].id {
            Some(id) => Some(id.clone()),
            None => None,
        }
    }
}

} // verus!
