use vstd::prelude::*;
use vstd::bytes::{spec_u16_from_le_bytes, u16_from_le_bytes};
use vstd::slice::{slice_index_get, slice_subrange};

verus! {

/// A 48-bit hardware address.
#[derive(Clone, Copy, Debug)]
pub struct MacAddress(pub [u8; 6]);

/// Size in bytes of a link-layer frame header: two addresses and the
/// 16-bit type field.
pub const ETHERNET_HEADER_LEN: usize = 14;

/// The fixed-layout frame header at the front of a captured frame.
/// The type field is read in the byte order the capture buffer uses,
/// little-endian, as the rest of the record layout is.
#[derive(Clone, Copy, Debug)]
pub struct EthernetHeader {
    pub destination_mac: MacAddress,
    pub source_mac: MacAddress,
    pub ether_type: u16,
}

impl EthernetHeader {
    /// Reads the header from the front of `buf`; a buffer shorter than
    /// the header yields nothing.
    pub fn try_decode(buf: &[u8]) -> (r: Option<Self>)
        ensures
            match r {
                Some(h) => {
                    &&& buf@.len() >= ETHERNET_HEADER_LEN
                    &&& h.destination_mac.0@ == buf@.subrange(0, 6)
                    &&& h.source_mac.0@ == buf@.subrange(6, 12)
                    &&& h.ether_type == spec_u16_from_le_bytes(buf@.subrange(12, 14))
                },
                None => buf@.len() < ETHERNET_HEADER_LEN,
            },
    {
        if buf.len() < ETHERNET_HEADER_LEN {
            return None;
        }
        let destination_mac = MacAddress([
            *slice_index_get(buf, 0),
            *slice_index_get(buf, 1),
            *slice_index_get(buf, 2),
            *slice_index_get(buf, 3),
            *slice_index_get(buf, 4),
            *slice_index_get(buf, 5),
        ]);
        let source_mac = MacAddress([
            *slice_index_get(buf, 6),
            *slice_index_get(buf, 7),
            *slice_index_get(buf, 8),
            *slice_index_get(buf, 9),
            *slice_index_get(buf, 10),
            *slice_index_get(buf, 11),
        ]);
        let ether_type = u16_from_le_bytes(slice_subrange(buf, 12, 14));
        proof {
            assert(destination_mac.0@ =~= buf@.subrange(0, 6));
            assert(source_mac.0@ =~= buf@.subrange(6, 12));
        }
        Some(EthernetHeader { destination_mac, source_mac, ether_type })
    }
}

/// A decoded frame: the header and a non-owning view of the payload.
#[derive(Debug)]
pub struct EthernetPacket<'a> {
    pub header: EthernetHeader,
    pub payload: &'a [u8],
}

impl<'a> EthernetPacket<'a> {
    /// Splits `buf` into its frame header and the payload behind it.
    pub fn try_decode(buf: &'a [u8]) -> (r: Option<Self>)
        ensures
            match r {
                Some(pk) => {
                    &&& buf@.len() >= ETHERNET_HEADER_LEN
                    &&& pk.header.destination_mac.0@ == buf@.subrange(0, 6)
                    &&& pk.header.source_mac.0@ == buf@.subrange(6, 12)
                    &&& pk.header.ether_type
                        == spec_u16_from_le_bytes(buf@.subrange(12, 14))
                    &&& pk.payload@ == buf@.skip(ETHERNET_HEADER_LEN as int)
                },
                None => buf@.len() < ETHERNET_HEADER_LEN,
            },
    {
        let header = match EthernetHeader::try_decode(buf) {
            Some(h) => h,
            None => {
                return None;
            },
        };
        let payload = slice_subrange(buf, ETHERNET_HEADER_LEN, buf.len());
        proof {
            assert(payload@ =~= buf@.skip(ETHERNET_HEADER_LEN as int));
        }
        Some(EthernetPacket { header, payload })
    }
}

} // verus!
