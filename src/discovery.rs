//! Choosing a service's endpoint from a service catalog's answer.
use vstd::prelude::*;

verus! {

/// One entry of the catalog's answer, as far as it could be read: the
/// address when it is a string, the port when it is an unsigned integer.
pub struct CatalogEntry {
    pub address: Option<String>,
    pub port: Option<u64>,
}

/// Why the catalog's answer names no usable endpoint.
#[derive(Clone, Copy, Debug, PartialEq, Eq, Structural)]
pub enum DiscoveryError {
    NoEntry,
    MissingAddress,
    MissingPort,
    PortOutOfRange,
}

/// The address text and port of a service instance.
pub struct Endpoint {
    pub address: String,
    pub port: u16,
}

/// The endpoint named by the first entry of the answer.
pub open spec fn endpoint_of(entries: Seq<CatalogEntry>) -> Result<Endpoint, DiscoveryError> {
    if entries.len() == 0 {
        Err(DiscoveryError::NoEntry)
    } else {
        let e = entries[0];
        match e.address {
            None => Err(DiscoveryError::MissingAddress),
            Some(address) => match e.port {
                None => Err(DiscoveryError::MissingPort),
                Some(p) => if p <= u16::MAX {
                    Ok(Endpoint { address, port: p as u16 })
                } else {
                    Err(DiscoveryError::PortOutOfRange)
                },
            },
        }
    }
}

/// Picks the endpoint of the first catalog entry.
pub fn service_endpoint(entries: Vec<CatalogEntry>) -> (r: Result<Endpoint, DiscoveryError>)
    ensures
        r == endpoint_of(entries@),
{
    let mut entries = entries;
    if entries.len() == 0 {
        return Err(DiscoveryError::NoEntry);
    }
    let e = entries.remove(0);
    match e.address {
        None => Err(DiscoveryError::MissingAddress),
        Some(address) => match e.port {
            None => Err(DiscoveryError::MissingPort),
            Some(p) => if p <= 65535 {
                Ok(Endpoint { address, port: p as u16 })
            } else {
                Err(DiscoveryError::PortOutOfRange)
            },
        },
    }
}

} // verus!
