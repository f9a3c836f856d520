//! The tile service: vector tiles with the routing graph's metadata, fetched
//! as an opaque binary blob.

use vstd::prelude::*;

use crate::base::Client;
use crate::common::{mode_token, TransportationMode};
use crate::decimal::Decimal;
use crate::options::{service_token, Service};
use crate::text::{decimal_text, u64_text};

verus! {

/// A request for one vector tile.
#[derive(Debug)]
pub struct TileRequest {
    /// Mode of transportation
    pub profile: TransportationMode,
    /// From 0 (left edge is 180 °W) to 2^zoom − 1 (right edge is 180 °E)
    pub x: Decimal,
    /// From 0 (top edge is 85.0511 °N) to 2^zoom − 1 (bottom edge is 85.0511 °S)
    pub y: Decimal,
    /// The zoom level, from 0 (zoomed out) to 18 (zoomed in)
    pub zoom: usize,
}

/// The URL `{base}/tile/{version}/{profile}/tile({x},{y},{zoom}).mvt`.
pub open spec fn tile_url(
    base: Seq<char>,
    version: Seq<char>,
    profile: TransportationMode,
    x: Seq<char>,
    y: Seq<char>,
    zoom: nat,
) -> Seq<char> {
    base + seq!['/'] + service_token(Service::Tile) + seq!['/'] + version + seq!['/'] + mode_token(
        profile,
    ) + "/tile("@ + x + seq![','] + y + seq![','] + decimal_text(zoom) + ").mvt"@
}

/// The address of the tile in the debug map viewer.
pub open spec fn tile_debug_url(x: Seq<char>, y: Seq<char>, zoom: nat) -> Seq<char> {
    "http://map.project-osrm.org/debug/#"@ + decimal_text(zoom) + seq!['/'] + x + seq!['/'] + y
}

impl TileRequest {
    /// A request by car for the tile at `x`, `y` and `zoom`.
    pub fn new(x: Decimal, y: Decimal, zoom: usize) -> (r: TileRequest)
        ensures
            r.profile == TransportationMode::Car,
            r.x@ == x@,
            r.y@ == y@,
            r.zoom == zoom,
    {
        TileRequest { profile: TransportationMode::Car, x, y, zoom }
    }

    /// Writes the URL of this tile.
    pub fn url(&self, client: &Client) -> (r: String)
        ensures
            r@ == tile_url(
                client.base_url@,
                client.version@,
                self.profile,
                self.x@,
                self.y@,
                self.zoom as nat,
            ),
    {
        proof {
            reveal_strlit("/");
            reveal_strlit(",");
        }
        let zoom = u64_text(self.zoom as u64);
        let mut url = client.base_url.clone();
        url.append("/");
        url.append(Service::Tile.token());
        url.append("/");
        url.append(client.version.as_str());
        url.append("/");
        url.append(self.profile.token());
        url.append("/tile(");
        url.append(self.x.as_str());
        url.append(",");
        url.append(self.y.as_str());
        url.append(",");
        url.append(zoom.as_str());
        url.append(").mvt");
        url
    }

    /// Writes the address of this tile in the debug map viewer.
    pub fn show_url(&self) -> (r: String)
        ensures
            r@ == tile_debug_url(self.x@, self.y@, self.zoom as nat),
    {
        proof {
            reveal_strlit("/");
        }
        let zoom = u64_text(self.zoom as u64);
        let mut url = String::from_str("http://map.project-osrm.org/debug/#");
        url.append(zoom.as_str());
        url.append("/");
        url.append(self.x.as_str());
        url.append("/");
        url.append(self.y.as_str());
        url
    }
}

} // verus!
