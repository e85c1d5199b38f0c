//! The part of the Cloudflare API this client speaks, as data.
//!
//! The functions here build the calls; the host program sends them.

use vstd::prelude::*;
use crate::addr::IpAddress;
use crate::cloudflare::record::{
    CreateDnsRecord, CreateDnsRecordParams, DnsContent, ListDnsRecords, ListDnsRecordsParams,
    UpdateDnsRecord, UpdateDnsRecordParams, ADDRESS_RECORD_TYPES, CREATED_TTL,
};
use crate::cloudflare::zone::ListZones;

pub mod client;
pub mod record;
pub mod zone;

verus! {

/// The call that lists all zones.
pub fn list_zones() -> (req: ListZones)
    ensures
        req == ListZones,
{
    ListZones
}

/// The call that lists the address records named `name` in the zone
/// `zone_id`. Both families are asked for at once.
pub fn list_records<'a>(zone_id: &'a str, name: &'a str) -> (req: ListDnsRecords<'a>)
    ensures
        req.zone_identifier@ == zone_id@,
        req.params.record_type matches Some(t) && t@ == ADDRESS_RECORD_TYPES@,
        req.params.name matches Some(n) && n@ == name@,
{
    ListDnsRecords {
        zone_identifier: zone_id,
        params: ListDnsRecordsParams { record_type: Some(ADDRESS_RECORD_TYPES), name: Some(name) },
    }
}

/// The call that creates the record `name` with the address `addr` in the
/// zone `zone_id`: unproxied, with a time to live of one minute.
pub fn create_record<'a>(zone_id: &'a str, name: &'a str, addr: IpAddress) -> (req:
    CreateDnsRecord<'a>)
    ensures
        req.zone_identifier@ == zone_id@,
        req.params.name@ == name@,
        req.params.content == DnsContent::of(addr),
        req.params.ttl == Some(CREATED_TTL),
        req.params.proxied == Some(false),
{
    CreateDnsRecord {
        zone_identifier: zone_id,
        params: CreateDnsRecordParams {
            name,
            content: DnsContent::from(addr),
            ttl: Some(CREATED_TTL),
            proxied: Some(false),
        },
    }
}

/// The call that points the record `rec_id`, named `name`, of the zone
/// `zone_id` at the address `addr`.
pub fn update_record<'a>(zone_id: &'a str, rec_id: &'a str, name: &'a str, addr: IpAddress) -> (req:
    UpdateDnsRecord<'a>)
    ensures
        req.zone_identifier@ == zone_id@,
        req.identifier@ == rec_id@,
        req.params.name@ == name@,
        req.params.content == DnsContent::of(addr),
{
    UpdateDnsRecord {
        zone_identifier: zone_id,
        identifier: rec_id,
        params: UpdateDnsRecordParams { name, content: DnsContent::from(addr) },
    }
}

} // verus!
