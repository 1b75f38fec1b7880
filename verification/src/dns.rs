//! Name resolution: what the guest makes of the host's answers to its queries.

use vstd::prelude::*;
use vstd::std_specs::convert::FromSpecImpl;
use crate::hostcalls::buffer::{ByteState, ByteTransfer, Step};
use crate::hostcalls::list::{ListState, ListTransfer};
use crate::hostcalls::types::{GuestSlice, ProtocolViolation};

verus! {

/// The host's resolver.
pub struct DNS;

/// Why a query has no answer.
#[derive(Debug, PartialEq, Eq)]
pub struct DNSError(pub &'static str);

impl From<&'static str> for DNSError {
    fn from(description: &'static str) -> (error: DNSError) {
        DNSError(description)
    }
}

impl FromSpecImpl<&'static str> for DNSError {
    open spec fn obeys_from_spec() -> bool {
        true
    }

    open spec fn from_spec(description: &'static str) -> DNSError {
        DNSError(description)
    }
}

impl DNSError {
    /// The description, as it is shown.
    pub fn to_string(&self) -> (text: String)
        ensures
            text@ == self.0@,
    {
        self.0.to_owned()
    }
}

/// An address that a name resolved to, as the bytes of the record, in the
/// order of the record.
#[derive(Debug, Clone, Copy, PartialEq, Eq)]
pub enum IpAddress {
    V4([u8; 4]),
    V6([u8; 16]),
}

/// The address that a record of `bytes` holds: one of 4 bytes is a version 4
/// address, one of 16 bytes is a version 6 address, and no other record is an
/// address.
pub open spec fn address_of(bytes: Seq<u8>) -> Option<IpAddress> {
    if bytes.len() == 4 {
        Some(IpAddress::V4([bytes[0], bytes[1], bytes[2], bytes[3]]))
    } else if bytes.len() == 16 {
        Some(
            IpAddress::V6(
                [
                    bytes[0],
                    bytes[1],
                    bytes[2],
                    bytes[3],
                    bytes[4],
                    bytes[5],
                    bytes[6],
                    bytes[7],
                    bytes[8],
                    bytes[9],
                    bytes[10],
                    bytes[11],
                    bytes[12],
                    bytes[13],
                    bytes[14],
                    bytes[15],
                ],
            ),
        )
    } else {
        None
    }
}

impl IpAddress {
    /// The bytes of the address.
    pub open spec fn octets(self) -> Seq<u8> {
        match self {
            IpAddress::V4(a) => a@,
            IpAddress::V6(a) => a@,
        }
    }

    /// Reads the address that a record holds.
    pub fn from_record(bytes: &Vec<u8>) -> (address: Option<IpAddress>)
        ensures
            address == address_of(bytes@),
            address matches Some(a) ==> a.octets() == bytes@,
    {
        if bytes.len() == 4 {
            let ip: [u8; 4] = [bytes[0], bytes[1], bytes[2], bytes[3]];
            assert(ip@ =~= bytes@);
            Some(IpAddress::V4(ip))
        } else if bytes.len() == 16 {
            let ip: [u8; 16] = [
                bytes[0],
                bytes[1],
                bytes[2],
                bytes[3],
                bytes[4],
                bytes[5],
                bytes[6],
                bytes[7],
                bytes[8],
                bytes[9],
                bytes[10],
                bytes[11],
                bytes[12],
                bytes[13],
                bytes[14],
                bytes[15],
            ];
            assert(ip@ =~= bytes@);
            Some(IpAddress::V6(ip))
        } else {
            None
        }
    }
}

impl DNS {
    /// What the host's answer to a raw query means. A null pointer says that
    /// the query could not be resolved; otherwise the response is what the
    /// transfer of `response` yields.
    pub fn query_raw(response: GuestSlice) -> (started: Result<(ByteTransfer, Step), DNSError>)
        ensures
            response.ptr == 0 ==> (started matches Err(e) && e.0@
                == "Unable to resolve a raw query"@),
            response.ptr != 0 ==> (started matches Ok(s) && (s.0@, s.1) == ByteState::begin(
                response,
            ) && s.0@.wf()),
    {
        if response.raw() == 0 {
            Err(DNSError::from("Unable to resolve a raw query"))
        } else {
            Ok(ByteTransfer::begin(response))
        }
    }

    /// What the host's answer to a query for the addresses of a name means:
    /// `responses` holds the address of an array of descriptors, one for each
    /// record, and the number of its elements. A null pointer says that the
    /// name could not be resolved; otherwise [`DNS::addresses`] reads what the
    /// transfer yields.
    pub fn query_ip(responses: GuestSlice) -> (started: Result<(ListTransfer, Step), DNSError>)
        ensures
            responses.ptr == 0 ==> (started matches Err(e) && e.0@
                == "Unable to resolve an IP query"@),
            responses.ptr != 0 ==> (started matches Ok(s) && (s.0@, s.1) == ListState::begin(
                responses,
            ) && s.0@.wf()),
    {
        if responses.raw() == 0 {
            Err(DNSError::from("Unable to resolve an IP query"))
        } else {
            Ok(ListTransfer::begin(responses))
        }
    }

    /// The addresses that `records` hold, in the order of the records. A
    /// record that is no address is a violation.
    pub fn addresses(records: &Vec<Vec<u8>>) -> (result: Result<Vec<IpAddress>, ProtocolViolation>)
        ensures
            (forall|i: int| 0 <= i < records@.len() ==> address_of(#[trigger] records@[i]@) is Some)
                ==> (result matches Ok(addresses) && addresses@.len() == records@.len()
                && forall|i: int|
                0 <= i < records@.len() ==> Some(#[trigger] addresses@[i]) == address_of(
                    records@[i]@,
                )),
            (exists|i: int| 0 <= i < records@.len() && address_of(#[trigger] records@[i]@) is None)
                ==> result == Err::<Vec<IpAddress>, ProtocolViolation>(
                ProtocolViolation::AddressLength,
            ),
    {
        let mut addresses: Vec<IpAddress> = Vec::new();
        let mut i: usize = 0;
        while i < records.len()
            invariant
                i <= records@.len(),
                addresses@.len() == i,
                forall|k: int| 0 <= k < i ==> address_of(#[trigger] records@[k]@) is Some,
                forall|k: int|
                    0 <= k < i ==> Some(#[trigger] addresses@[k]) == address_of(records@[k]@),
            decreases records@.len() - i,
        {
            match IpAddress::from_record(&records[i]) {
                Some(address) => addresses.push(address),
                None => {
                    return Err(ProtocolViolation::AddressLength);
                },
            }
            i += 1;
        }
        Ok(addresses)
    }
}

} // verus!
