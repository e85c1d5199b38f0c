//! DNS records and the calls that list, create and update them. Only the
//! fields this client uses are present.

use vstd::prelude::*;
use vstd::string::StringExecFns;
use crate::addr::{Family, IpAddress, Ipv4, Ipv6};
use crate::cloudflare::client::{ApiRequest, Method, BASE_URL};

verus! {

/// Type of a DNS record together with the value it holds. Address records
/// are the only ones this client reads; every other type is `Other`.
#[derive(Clone, Copy, Debug, PartialEq, Eq, Structural)]
#[allow(clippy::upper_case_acronyms)]
#[allow(inconsistent_fields)]
pub enum DnsContent {
    A { content: Ipv4 },
    AAAA { content: Ipv6 },
    Other,
}

impl DnsContent {
    /// The record that holds `ip`: `A` for IPv4, `AAAA` for IPv6.
    pub open spec fn of(ip: IpAddress) -> DnsContent {
        match ip {
            IpAddress::V4(content) => DnsContent::A { content },
            IpAddress::V6(content) => DnsContent::AAAA { content },
        }
    }

    /// The address family of the record, if it is an address record.
    pub open spec fn family_of(self) -> Option<Family> {
        match self {
            DnsContent::A { .. } => Some(Family::V4),
            DnsContent::AAAA { .. } => Some(Family::V6),
            DnsContent::Other => None,
        }
    }

    /// The address family of the record, if it is an address record.
    pub fn family(&self) -> (f: Option<Family>)
        ensures
            f == self.family_of(),
    {
        match self {
            DnsContent::A { .. } => Some(Family::V4),
            DnsContent::AAAA { .. } => Some(Family::V6),
            DnsContent::Other => None,
        }
    }
}

impl From<IpAddress> for DnsContent {
    fn from(ip: IpAddress) -> (content: DnsContent) {
        match ip {
            IpAddress::V4(content) => DnsContent::A { content },
            IpAddress::V6(content) => DnsContent::AAAA { content },
        }
    }
}

impl vstd::std_specs::convert::FromSpecImpl<IpAddress> for DnsContent {
    open spec fn obeys_from_spec() -> bool {
        true
    }

    open spec fn from_spec(ip: IpAddress) -> DnsContent {
        DnsContent::of(ip)
    }
}

/// A record as the provider reports it.
#[derive(Debug, PartialEq, Eq)]
pub struct DnsRecord {
    /// Identifier the provider gave the record.
    pub id: String,
    /// Fully qualified name of the record.
    pub name: String,
    /// Type and value of the record.
    pub content: DnsContent,
}

/// A record as character sequences and its content.
pub struct DnsRecordView {
    pub id: Seq<char>,
    pub name: Seq<char>,
    pub content: DnsContent,
}

impl View for DnsRecord {
    type V = DnsRecordView;

    open spec fn view(&self) -> DnsRecordView {
        DnsRecordView { id: self.id@, name: self.name@, content: self.content }
    }
}

impl DeepView for DnsRecord {
    type V = DnsRecordView;

    open spec fn deep_view(&self) -> DnsRecordView {
        self@
    }
}

impl Clone for DnsRecord {
    fn clone(&self) -> (res: DnsRecord)
        ensures
            res@ == self@,
    {
        DnsRecord { id: self.id.clone(), name: self.name.clone(), content: self.content }
    }
}

/// The record types asked for when listing: address records of both families.
pub const ADDRESS_RECORD_TYPES: &'static str = "A,AAAA";

/// Time to live given to a record this client creates, in seconds.
pub const CREATED_TTL: u32 = 60;

/// Lists the records of a zone.
#[derive(Clone, Copy, Debug, PartialEq, Eq)]
pub struct ListDnsRecords<'a> {
    pub zone_identifier: &'a str,
    pub params: ListDnsRecordsParams<'a>,
}

/// Filters of a record listing. A filter that is `None` is not sent.
#[derive(Clone, Copy, Debug, PartialEq, Eq)]
pub struct ListDnsRecordsParams<'a> {
    /// Comma-separated record types to list.
    pub record_type: Option<&'a str>,
    /// Exact record name to list.
    pub name: Option<&'a str>,
}

impl<'a> Default for ListDnsRecordsParams<'a> {
    fn default() -> (params: Self)
        ensures
            params.record_type is None,
            params.name is None,
    {
        ListDnsRecordsParams { record_type: None, name: None }
    }
}

impl<'a> ApiRequest for ListDnsRecords<'a> {
    type Request = ();

    type Query = ListDnsRecordsParams<'a>;

    open spec fn method_of(&self) -> Method {
        Method::Get
    }

    open spec fn url_of(&self) -> Seq<char> {
        BASE_URL@ + "/zones/"@ + self.zone_identifier@ + "/dns_records"@
    }

    open spec fn query_of(&self) -> Option<ListDnsRecordsParams<'a>> {
        Some(self.params)
    }

    open spec fn body_of(&self) -> Option<()> {
        None
    }

    fn method(&self) -> (m: Method) {
        Method::Get
    }

    fn url(&self) -> (u: String) {
        records_url(self.zone_identifier)
    }

    fn query(&self) -> (q: Option<&ListDnsRecordsParams<'a>>) {
        Some(&self.params)
    }

    fn body(&self) -> (b: Option<&()>) {
        None
    }
}

/// Creates a record in a zone.
#[derive(Clone, Copy, Debug, PartialEq, Eq)]
pub struct CreateDnsRecord<'a> {
    pub zone_identifier: &'a str,
    pub params: CreateDnsRecordParams<'a>,
}

/// Body of a record creation. A field that is `None` is not sent.
#[derive(Clone, Copy, Debug, PartialEq, Eq)]
pub struct CreateDnsRecordParams<'a> {
    /// Time to live in seconds; 1 means automatic.
    pub ttl: Option<u32>,
    /// Whether the record is served through Cloudflare's proxy.
    pub proxied: Option<bool>,
    /// Fully qualified name of the record.
    pub name: &'a str,
    /// Type and value of the record.
    pub content: DnsContent,
}

impl<'a> ApiRequest for CreateDnsRecord<'a> {
    type Request = CreateDnsRecordParams<'a>;

    type Query = ();

    open spec fn method_of(&self) -> Method {
        Method::Post
    }

    open spec fn url_of(&self) -> Seq<char> {
        BASE_URL@ + "/zones/"@ + self.zone_identifier@ + "/dns_records"@
    }

    open spec fn query_of(&self) -> Option<()> {
        None
    }

    open spec fn body_of(&self) -> Option<CreateDnsRecordParams<'a>> {
        Some(self.params)
    }

    fn method(&self) -> (m: Method) {
        Method::Post
    }

    fn url(&self) -> (u: String) {
        records_url(self.zone_identifier)
    }

    fn query(&self) -> (q: Option<&()>) {
        None
    }

    fn body(&self) -> (b: Option<&CreateDnsRecordParams<'a>>) {
        Some(&self.params)
    }
}

/// Changes a record of a zone in place.
#[derive(Clone, Copy, Debug, PartialEq, Eq)]
pub struct UpdateDnsRecord<'a> {
    pub zone_identifier: &'a str,
    pub identifier: &'a str,
    pub params: UpdateDnsRecordParams<'a>,
}

/// Body of a record update.
#[derive(Clone, Copy, Debug, PartialEq, Eq)]
pub struct UpdateDnsRecordParams<'a> {
    /// Fully qualified name of the record.
    pub name: &'a str,
    /// Type and value of the record.
    pub content: DnsContent,
}

impl<'a> ApiRequest for UpdateDnsRecord<'a> {
    type Request = UpdateDnsRecordParams<'a>;

    type Query = ();

    /// `PATCH` leaves alone what the call does not name, so a time to live or
    /// a proxy setting that the user chose by hand survives an update.
    open spec fn method_of(&self) -> Method {
        Method::Patch
    }

    open spec fn url_of(&self) -> Seq<char> {
        BASE_URL@ + "/zones/"@ + self.zone_identifier@ + "/dns_records/"@ + self.identifier@
    }

    open spec fn query_of(&self) -> Option<()> {
        None
    }

    open spec fn body_of(&self) -> Option<UpdateDnsRecordParams<'a>> {
        Some(self.params)
    }

    fn method(&self) -> (m: Method) {
        Method::Patch
    }

    fn url(&self) -> (u: String) {
        let mut u = String::from_str(BASE_URL);
        u.append("/zones/");
        u.append(self.zone_identifier);
        u.append("/dns_records/");
        u.append(self.identifier);
        u
    }

    fn query(&self) -> (q: Option<&()>) {
        None
    }

    fn body(&self) -> (b: Option<&UpdateDnsRecordParams<'a>>) {
        Some(&self.params)
    }
}

/// URL of the record collection of the zone `zone_id`.
fn records_url(zone_id: &str) -> (u: String)
    ensures
        u@ == BASE_URL@ + "/zones/"@ + zone_id@ + "/dns_records"@,
{
    let mut u = String::from_str(BASE_URL);
    u.append("/zones/");
    u.append(zone_id);
    u.append("/dns_records");
    u
}

} // verus!
