//! Zones, as far as this client reads them.

use vstd::prelude::*;
use vstd::string::StringExecFns;
use crate::cloudflare::client::{ApiRequest, Method, BASE_URL};

verus! {

/// A zone as the provider lists it.
#[derive(Debug, PartialEq, Eq)]
pub struct Zone {
    /// Identifier the provider gave the zone.
    pub id: String,
    /// Domain name of the zone.
    pub name: String,
}

/// A zone as a pair of character sequences.
pub struct ZoneView {
    pub id: Seq<char>,
    pub name: Seq<char>,
}

impl View for Zone {
    type V = ZoneView;

    open spec fn view(&self) -> ZoneView {
        ZoneView { id: self.id@, name: self.name@ }
    }
}

impl DeepView for Zone {
    type V = ZoneView;

    open spec fn deep_view(&self) -> ZoneView {
        self@
    }
}

impl Clone for Zone {
    fn clone(&self) -> (res: Zone)
        ensures
            res@ == self@,
    {
        Zone { id: self.id.clone(), name: self.name.clone() }
    }
}

/// The call that lists every zone the token can see.
#[derive(Clone, Copy, Debug, PartialEq, Eq)]
pub struct ListZones;

impl ApiRequest for ListZones {
    type Request = ();

    type Query = ();

    open spec fn method_of(&self) -> Method {
        Method::Get
    }

    open spec fn url_of(&self) -> Seq<char> {
        BASE_URL@ + "/zones"@
    }

    open spec fn query_of(&self) -> Option<()> {
        None
    }

    open spec fn body_of(&self) -> Option<()> {
        None
    }

    fn method(&self) -> (m: Method) {
        Method::Get
    }

    fn url(&self) -> (u: String) {
        String::from_str(BASE_URL).concat("/zones")
    }

    fn query(&self) -> (q: Option<&()>) {
        None
    }

    fn body(&self) -> (b: Option<&()>) {
        None
    }
}

} // verus!
