//! The wire layout of the global longest-lines overview.
//!
//! The overview artifact is a concatenation of 12-byte records, one per
//! occupied grid cell: the longitude and latitude as the little-endian bytes
//! of their 32-bit float bit patterns, then the distance in meters as a
//! little-endian unsigned 32-bit integer. The byte order is fixed so the
//! artifact reads the same on every host.

use vstd::bytes::{spec_u32_from_le_bytes, spec_u32_to_le_bytes, u32_to_le_bytes};
use vstd::prelude::*;
use vstd::string::StringExecFns;

verus! {

/// The filename of the global longest-lines overview artifact.
pub const LONGEST_LINES_GRIDED_FILENAME: &'static str = "longest_lines_grided.bin";

/// The longest line of sight in one grid cell, ready for the wire.
#[derive(Debug, Clone, Copy, PartialEq, Eq, Structural)]
pub struct Grided {
    /// Bit pattern of the longitude as a 32-bit float.
    pub lon_bits: u32,
    /// Bit pattern of the latitude as a 32-bit float.
    pub lat_bits: u32,
    /// The distance of the line of sight in meters.
    pub distance: u32,
}

/// The 12 wire bytes of one record.
pub open spec fn spec_record_bytes(g: Grided) -> Seq<u8> {
    spec_u32_to_le_bytes(g.lon_bits) + spec_u32_to_le_bytes(g.lat_bits) + spec_u32_to_le_bytes(
        g.distance,
    )
}

/// The wire bytes of a whole overview: records, concatenated in order.
pub open spec fn spec_records_bytes(rs: Seq<Grided>) -> Seq<u8>
    decreases rs.len(),
{
    if rs.len() == 0 {
        Seq::empty()
    } else {
        spec_records_bytes(rs.drop_last()) + spec_record_bytes(rs.last())
    }
}

/// Append one record's wire bytes.
fn push_record(out: &mut Vec<u8>, g: &Grided)
    ensures
        final (out)@ == old(out)@ + spec_record_bytes(*g),
{
    let mut lon = u32_to_le_bytes(g.lon_bits);
    let mut lat = u32_to_le_bytes(g.lat_bits);
    let mut dist = u32_to_le_bytes(g.distance);
    out.append(&mut lon);
    out.append(&mut lat);
    out.append(&mut dist);
}

/// Encode a whole overview to its wire bytes: 12 bytes per record, in order.
pub fn encode_records(rs: &Vec<Grided>) -> (r: Vec<u8>)
    ensures
        r@ == spec_records_bytes(rs@),
        r@.len() == 12 * rs@.len(),
{
    proof {
        lemma_records_bytes_len(rs@);
    }
    let mut out: Vec<u8> = Vec::new();
    let mut i: usize = 0;
    while i < rs.len()
        invariant
            i <= rs.len(),
            out@ == spec_records_bytes(rs@.take(i as int)),
        decreases rs.len() - i,
    {
        push_record(&mut out, &rs[i]);
        proof {
            assert(rs@.take(i + 1).drop_last() =~= rs@.take(i as int));
            assert(rs@.take(i + 1).last() == rs@[i as int]);
        }
        i += 1;
    }
    proof {
        assert(rs@.take(rs@.len() as int) =~= rs@);
    }
    out
}

/// An overview's wire form is exactly 12 bytes per record.
pub proof fn lemma_records_bytes_len(rs: Seq<Grided>)
    ensures
        spec_records_bytes(rs).len() == 12 * rs.len(),
    decreases rs.len(),
{
    vstd::bytes::lemma_auto_spec_u32_to_from_le_bytes();
    if rs.len() > 0 {
        lemma_records_bytes_len(rs.drop_last());
    }
}

/// Law: the wire bytes of a record determine the record — the layout loses
/// nothing.
pub proof fn lemma_record_round_trip(g: Grided)
    ensures
        spec_record_bytes(g).len() == 12,
        spec_u32_from_le_bytes(spec_record_bytes(g).subrange(0, 4)) == g.lon_bits,
        spec_u32_from_le_bytes(spec_record_bytes(g).subrange(4, 8)) == g.lat_bits,
        spec_u32_from_le_bytes(spec_record_bytes(g).subrange(8, 12)) == g.distance,
{
    vstd::bytes::lemma_auto_spec_u32_to_from_le_bytes();
    let b = spec_record_bytes(g);
    assert(b.subrange(0, 4) =~= spec_u32_to_le_bytes(g.lon_bits));
    assert(b.subrange(4, 8) =~= spec_u32_to_le_bytes(g.lat_bits));
    assert(b.subrange(8, 12) =~= spec_u32_to_le_bytes(g.distance));
}

/// The object-store destination of the overview artifact for a run.
pub open spec fn spec_grided_destination(run_id: Seq<char>) -> Seq<char> {
    "s3://viewview/runs/"@ + run_id + "/longest_lines_cogs/"@ + "longest_lines_grided.bin"@
}

/// Where the overview artifact of a run lives in the object store.
pub fn grided_destination(run_id: &str) -> (r: String)
    ensures
        r@ == spec_grided_destination(run_id@),
{
    let mut uri = String::from_str("s3://viewview/runs/");
    uri.append(run_id);
    uri.append("/longest_lines_cogs/");
    uri.append("longest_lines_grided.bin");
    uri
}

} // verus!
