use vstd::prelude::*;
use vstd::bytes::{spec_u16_from_le_bytes, spec_u32_from_le_bytes, u16_from_le_bytes,
    u32_from_le_bytes};
use vstd::slice::slice_subrange;

verus! {

/// Size in bytes of the fixed record header, alignment padding
/// included. Field layout, little-endian:
/// timestamp seconds at 0..4, timestamp microseconds at 4..8,
/// captured length at 8..12, original length at 12..16,
/// header length at 16..18, padding at 18..20.
///
/// The header-supplied header length, not this constant, gives the
/// offset of the captured bytes: the producer may enlarge the header
/// for alignment.
pub const RECORD_HEADER_LEN: usize = 20;

/// Capture time of one record: seconds and microseconds.
#[derive(Clone, Copy, Debug, PartialEq, Eq, Structural)]
pub struct PacketTimestamp {
    pub tv_sec: u32,
    pub tv_usec: u32,
}

/// Mathematical model of one decoded record.
pub struct SpecPacket {
    pub timestamp: PacketTimestamp,
    pub original_length: u32,
    pub capture: Seq<u8>,
}

/// One captured packet: a non-owning view into the filled read buffer.
/// `original_length` is the frame's length on the wire, which exceeds
/// `capture.len()` when the record was truncated at capture time.
#[derive(Debug)]
pub struct Packet<'a> {
    pub timestamp: PacketTimestamp,
    pub original_length: u32,
    pub capture: &'a [u8],
}

impl<'a> View for Packet<'a> {
    type V = SpecPacket;

    open spec fn view(&self) -> SpecPacket {
        SpecPacket {
            timestamp: self.timestamp,
            original_length: self.original_length,
            capture: self.capture@,
        }
    }
}

/// Timestamp seconds field of the record at the head of `region`.
pub open spec fn rec_sec(region: Seq<u8>) -> u32 {
    spec_u32_from_le_bytes(region.subrange(0, 4))
}

/// Timestamp microseconds field.
pub open spec fn rec_usec(region: Seq<u8>) -> u32 {
    spec_u32_from_le_bytes(region.subrange(4, 8))
}

/// Captured-length field: how many frame bytes follow the header.
pub open spec fn rec_caplen(region: Seq<u8>) -> u32 {
    spec_u32_from_le_bytes(region.subrange(8, 12))
}

/// Original-length field: the frame's length before any truncation.
pub open spec fn rec_datalen(region: Seq<u8>) -> u32 {
    spec_u32_from_le_bytes(region.subrange(12, 16))
}

/// Header-length field: the offset of the captured bytes.
pub open spec fn rec_hdrlen(region: Seq<u8>) -> u16 {
    spec_u16_from_le_bytes(region.subrange(16, 18))
}

/// Distance from the head of one record to the head of the next.
pub open spec fn rec_advance(region: Seq<u8>) -> int {
    rec_hdrlen(region) + rec_caplen(region)
}

/// Whether `region` begins with one complete record: a full header,
/// all declared bytes present, and a nonzero advance (a record that
/// declares zero header and zero capture length could never make
/// progress and is treated as slack).
pub open spec fn has_record(region: Seq<u8>) -> bool {
    &&& region.len() >= RECORD_HEADER_LEN
    &&& rec_advance(region) > 0
    &&& rec_advance(region) <= region.len()
}

/// The record at the head of `region`.
pub open spec fn first_record(region: Seq<u8>) -> SpecPacket
    recommends
        has_record(region),
{
    SpecPacket {
        timestamp: PacketTimestamp { tv_sec: rec_sec(region), tv_usec: rec_usec(region) },
        original_length: rec_datalen(region),
        capture: region.subrange(rec_hdrlen(region) as int, rec_advance(region)),
    }
}

/// All records of `region`, in order: back-to-back records from the
/// front, stopping at the first position whose remainder is shorter
/// than a header or than the record it declares.
///
/// The walk advances by exactly header length plus capture length;
/// no rounding to a word boundary is applied between records. A
/// producer that pads records to an alignment boundary must say so in
/// each record's header length.
pub open spec fn spec_records(region: Seq<u8>) -> Seq<SpecPacket>
    decreases region.len(),
{
    if has_record(region) {
        seq![first_record(region)] + spec_records(region.skip(rec_advance(region)))
    } else {
        Seq::empty()
    }
}

/// A region shorter than one header holds no record: the walk yields
/// the empty sequence. In particular an empty region yields nothing.
pub proof fn lemma_short_region_yields_nothing(region: Seq<u8>)
    requires
        region.len() < RECORD_HEADER_LEN,
    ensures
        spec_records(region) == Seq::<SpecPacket>::empty(),
{
}

/// A region whose head record declares more bytes than are present
/// yields nothing: the truncated trailing record is never emitted.
pub proof fn lemma_truncated_record_yields_nothing(region: Seq<u8>)
    requires
        rec_advance(region) > region.len(),
    ensures
        spec_records(region) == Seq::<SpecPacket>::empty(),
{
}

/// A region of exactly one well-formed record — a full header whose
/// declared header length and capture length together cover the region
/// exactly — yields exactly that record, whose slice is the region's
/// tail of the declared capture length.
pub proof fn lemma_single_record(region: Seq<u8>)
    requires
        region.len() >= RECORD_HEADER_LEN,
        rec_advance(region) == region.len(),
        rec_advance(region) > 0,
    ensures
        spec_records(region).len() == 1,
        spec_records(region)[0] == first_record(region),
        spec_records(region)[0].capture == region.skip(rec_hdrlen(region) as int),
        spec_records(region)[0].capture.len() == rec_caplen(region),
{
    let rest = region.skip(rec_advance(region));
    assert(rest.len() == 0);
    assert(spec_records(rest) == Seq::<SpecPacket>::empty());
    assert(region.subrange(rec_hdrlen(region) as int, rec_advance(region)) =~= region.skip(
        rec_hdrlen(region) as int,
    ));
}

/// How many bytes of the region the walk consumes before it stops.
pub open spec fn decoded_extent(region: Seq<u8>) -> int
    decreases region.len(),
{
    if has_record(region) {
        rec_advance(region) + decoded_extent(region.skip(rec_advance(region)))
    } else {
        0
    }
}

/// Decoding is compositional at record boundaries: when a region
/// consists exactly of whole records, the records of that region
/// followed by anything decode to the region's records and then the
/// remainder's, in order. Back-to-back unpadded records therefore all
/// come out, in order.
pub proof fn lemma_records_append(a: Seq<u8>, b: Seq<u8>)
    requires
        decoded_extent(a) == a.len(),
    ensures
        spec_records(a + b) == spec_records(a) + spec_records(b),
    decreases a.len(),
{
    if has_record(a) {
        let adv = rec_advance(a);
        let ab = a + b;
        assert forall|lo: int, hi: int| 0 <= lo <= hi <= a.len() implies a.subrange(lo, hi)
            =~= ab.subrange(lo, hi) by {}
        assert(rec_advance(ab) == adv);
        assert(has_record(ab));
        assert(first_record(ab) == first_record(a));
        let rest = a.skip(adv);
        assert(decoded_extent(rest) == rest.len());
        lemma_records_append(rest, b);
        assert(ab.skip(adv) =~= rest + b);
        assert(spec_records(ab) == seq![first_record(a)] + (spec_records(rest) + spec_records(
            b,
        )));
        assert(seq![first_record(a)] + (spec_records(rest) + spec_records(b)) =~= (seq![
            first_record(a),
        ] + spec_records(rest)) + spec_records(b));
    } else {
        assert(a.len() == 0);
        assert(a + b =~= b);
        assert(spec_records(a) + spec_records(b) =~= spec_records(b));
    }
}

/// Absolute byte spans `(start, end)` within the region of each
/// record's captured slice, in decode order.
pub open spec fn record_spans(region: Seq<u8>) -> Seq<(int, int)>
    decreases region.len(),
{
    if has_record(region) {
        let adv = rec_advance(region);
        seq![(rec_hdrlen(region) as int, adv)] + record_spans(region.skip(adv)).map_values(
            |p: (int, int)| (p.0 + adv, p.1 + adv),
        )
    } else {
        Seq::empty()
    }
}

/// Every decoded record is a slice of the region it was decoded from,
/// the slices appear in increasing position order, and successive
/// records occupy disjoint, non-overlapping parts of the region.
pub proof fn lemma_records_disjoint(region: Seq<u8>)
    ensures
        record_spans(region).len() == spec_records(region).len(),
        forall|k: int|
            0 <= k < spec_records(region).len() ==> {
                let s = #[trigger] record_spans(region)[k];
                &&& 0 <= s.0 <= s.1 <= region.len()
                &&& spec_records(region)[k].capture == region.subrange(s.0, s.1)
            },
        forall|k: int|
            0 <= k < spec_records(region).len() - 1 ==> (#[trigger] record_spans(
                region,
            )[k]).1 <= record_spans(region)[k + 1].0,
    decreases region.len(),
{
    if has_record(region) {
        let adv = rec_advance(region);
        let rest = region.skip(adv);
        lemma_records_disjoint(rest);
        let shifted = record_spans(rest).map_values(|p: (int, int)| (p.0 + adv, p.1 + adv));
        assert(record_spans(region) == seq![(rec_hdrlen(region) as int, adv)] + shifted);
        assert forall|k: int| 0 <= k < spec_records(region).len() implies {
            let s = #[trigger] record_spans(region)[k];
            &&& 0 <= s.0 <= s.1 <= region.len()
            &&& spec_records(region)[k].capture == region.subrange(s.0, s.1)
        } by {
            if k == 0 {
                assert(record_spans(region)[0] == (rec_hdrlen(region) as int, adv));
                assert(spec_records(region)[0] == first_record(region));
            } else {
                let t = record_spans(rest)[k - 1];
                assert(record_spans(region)[k] == shifted[k - 1]);
                assert(shifted[k - 1] == (t.0 + adv, t.1 + adv));
                assert(spec_records(region)[k] == spec_records(rest)[k - 1]);
                assert(spec_records(rest)[k - 1].capture == rest.subrange(t.0, t.1));
                assert(rest.subrange(t.0, t.1) =~= region.subrange(t.0 + adv, t.1 + adv));
            }
        }
        assert forall|k: int| 0 <= k < spec_records(region).len() - 1 implies (
        #[trigger] record_spans(region)[k]).1 <= record_spans(region)[k + 1].0 by {
            if k == 0 {
                if spec_records(rest).len() > 0 {
                    let t = record_spans(rest)[0];
                    assert(record_spans(region)[1] == (t.0 + adv, t.1 + adv));
                    assert(0 <= t.0);
                }
            } else {
                let a = record_spans(rest)[k - 1];
                let b = record_spans(rest)[k];
                assert(record_spans(region)[k] == (a.0 + adv, a.1 + adv));
                assert(record_spans(region)[k + 1] == (b.0 + adv, b.1 + adv));
                assert(a.1 <= b.0);
            }
        }
    }
}

/// A lazy, single-pass, non-restartable walk over the records of one
/// filled buffer region.
pub struct PacketIter<'a> {
    buf: &'a [u8],
    pos: usize,
}

impl<'a> PacketIter<'a> {
    /// The position never passes the end of the region.
    pub closed spec fn wf(&self) -> bool {
        self.pos <= self.buf@.len()
    }

    /// The whole region this iterator was built over.
    pub closed spec fn region(&self) -> Seq<u8> {
        self.buf@
    }

    /// The part not yet consumed.
    pub closed spec fn remaining(&self) -> Seq<u8> {
        self.buf@.skip(self.pos as int)
    }

    pub fn new(buf: &'a [u8]) -> (r: Self)
        ensures
            r.wf(),
            r.region() == buf@,
            r.remaining() == buf@,
    {
        proof {
            assert(buf@.skip(0) =~= buf@);
        }
        PacketIter { buf, pos: 0 }
    }

    /// Decodes the record at the current position, or stops: a remainder
    /// shorter than a header, or shorter than the record it declares,
    /// ends the walk without an error, so a truncated trailing record is
    /// never emitted and no byte outside the region is ever read.
    pub fn next(&mut self) -> (r: Option<Packet<'a>>)
        requires
            old(self).wf(),
        ensures
            final(self).wf(),
            final(self).region() == old(self).region(),
            match r {
                None => {
                    &&& !has_record(old(self).remaining())
                    &&& final(self).remaining() == old(self).remaining()
                },
                Some(p) => {
                    &&& has_record(old(self).remaining())
                    &&& p@ == first_record(old(self).remaining())
                    &&& final(self).remaining()
                        == old(self).remaining().skip(rec_advance(old(self).remaining()))
                },
            },
    {
        let ghost rem = old(self).remaining();
        let len = self.buf.len();
        if len - self.pos < RECORD_HEADER_LEN {
            return None;
        }
        let p = self.pos;
        proof {
            assert forall|a: int, b: int| 0 <= a <= b <= rem.len() implies
                rem.subrange(a, b) =~= self.buf@.subrange(p + a, p + b) by {}
        }
        let caplen = u32_from_le_bytes(slice_subrange(self.buf, p + 8, p + 12));
        let hdrlen = u16_from_le_bytes(slice_subrange(self.buf, p + 16, p + 18));
        let advance: u64 = hdrlen as u64 + caplen as u64;
        if advance == 0 || advance > (len - p) as u64 {
            return None;
        }
        let sec = u32_from_le_bytes(slice_subrange(self.buf, p, p + 4));
        let usec = u32_from_le_bytes(slice_subrange(self.buf, p + 4, p + 8));
        let datalen = u32_from_le_bytes(slice_subrange(self.buf, p + 12, p + 16));
        let adv: usize = advance as usize;
        let capture = slice_subrange(self.buf, p + hdrlen as usize, p + adv);
        self.pos = p + adv;
        proof {
            assert(capture@ =~= rem.subrange(rec_hdrlen(rem) as int, rec_advance(rem)));
            assert(self.buf@.skip(self.pos as int) =~= rem.skip(rec_advance(rem)));
        }
        Some(Packet {
            timestamp: PacketTimestamp { tv_sec: sec, tv_usec: usec },
            original_length: datalen,
            capture,
        })
    }
}

/// Decodes every record of `region` at once. This is the eager form of
/// [`PacketIter`]: the result is exactly the model sequence.
pub fn decode_region<'a>(region: &'a [u8]) -> (r: Vec<Packet<'a>>)
    ensures
        r@.map_values(|p: Packet<'a>| p@) == spec_records(region@),
{
    let mut it = PacketIter::new(region);
    let mut out: Vec<Packet<'a>> = Vec::new();
    proof {
        assert(out@.map_values(|p: Packet<'a>| p@) + spec_records(it.remaining())
            =~= spec_records(region@));
    }
    loop
        invariant
            it.wf(),
            it.region() == region@,
            out@.map_values(|p: Packet<'a>| p@) + spec_records(it.remaining())
                == spec_records(region@),
        decreases it.remaining().len(),
    {
        let ghost rem = it.remaining();
        match it.next() {
            Some(p) => {
                out.push(p);
                proof {
                    assert(out@.map_values(|q: Packet<'a>| q@)
                        =~= out@.subrange(0, out@.len() - 1).map_values(|q: Packet<'a>| q@)
                            .push(p@));
                    assert(out@.map_values(|q: Packet<'a>| q@)
                            + spec_records(it.remaining())
                        =~= spec_records(region@));
                }
            },
            None => {
                proof {
                    assert(out@.map_values(|q: Packet<'a>| q@)
                        =~= out@.map_values(|q: Packet<'a>| q@)
                            + spec_records(it.remaining()));
                }
                return out;
            },
        }
    }
}

} // verus!
