//! The bit-packed codec, the wire records and the overview reduction.

use atlas_core::grided::{encode_records, grided_destination, Grided, LONGEST_LINES_GRIDED_FILENAME};
use atlas_core::numbers::u64_to_string;
use atlas_core::error::Error;
use atlas_core::overview::{parse_centre_stem, Observation, World};
use atlas_core::packed::LineOfSight;

#[test]
fn packed_round_trip_simple() {
    let p = LineOfSight::new(1_000_000, 315);
    assert_eq!(p.distance(), 1_000_000);
    assert_eq!(p.angle(), 315);
}

#[test]
fn packed_round_trip_maxima() {
    let p = LineOfSight::new((1 << 22) - 1, 1023);
    assert_eq!(p.distance(), (1 << 22) - 1);
    assert_eq!(p.angle(), 1023);
    let zero = LineOfSight::new(0, 0);
    assert_eq!(zero.distance(), 0);
    assert_eq!(zero.angle(), 0);
}

#[test]
fn packed_payload_survives_float_carrier_across_endianness() {
    // The payload rides in the bit pattern of an f32; transiting through
    // big-endian bytes, as the raster files do, must preserve it exactly.
    let p = LineOfSight::new(1_000_000, 315);
    let carrier = f32::from_bits(p.as_u32());
    let wire = carrier.to_be_bytes();
    let back = u32::from_be_bytes(wire);
    let q = LineOfSight(back);
    assert_eq!(q.distance(), 1_000_000);
    assert_eq!(q.angle(), 315);
}

#[test]
fn packed_layout_places_distance_in_high_bits() {
    let p = LineOfSight::new(1, 0);
    assert_eq!(p.as_u32(), 1 << 10);
    let q = LineOfSight::new(0, 1);
    assert_eq!(q.as_u32(), 1);
}

#[test]
fn grided_record_is_twelve_little_endian_bytes() {
    let g = Grided { lon_bits: 1.5f32.to_bits(), lat_bits: (-54.25f32).to_bits(), distance: 77 };
    let bytes = encode_records(&vec![g]);
    assert_eq!(bytes.len(), 12);
    assert_eq!(&bytes[0..4], &1.5f32.to_le_bytes());
    assert_eq!(&bytes[4..8], &(-54.25f32).to_le_bytes());
    assert_eq!(&bytes[8..12], &77u32.to_le_bytes());
}

#[test]
fn grided_records_concatenate_in_order() {
    let a = Grided { lon_bits: 0, lat_bits: 0, distance: 1 };
    let b = Grided { lon_bits: 0, lat_bits: 0, distance: 2 };
    let bytes = encode_records(&vec![a, b]);
    assert_eq!(bytes.len(), 24);
    assert_eq!(&bytes[8..12], &1u32.to_le_bytes());
    assert_eq!(&bytes[20..24], &2u32.to_le_bytes());
}

#[test]
fn grided_destination_names_the_run() {
    assert_eq!(
        grided_destination("run-A"),
        "s3://viewview/runs/run-A/longest_lines_cogs/longest_lines_grided.bin"
    );
    assert_eq!(LONGEST_LINES_GRIDED_FILENAME, "longest_lines_grided.bin");
}

fn obs(cell: u64, distance: u32) -> Observation {
    Observation { cell, lon_bits: 0, lat_bits: 0, packed: LineOfSight::new(distance, 0) }
}

#[test]
fn overview_keeps_the_maximum_per_cell() {
    let mut world = World::new();
    world.absorb(&vec![obs(7, 100), obs(7, 300), obs(7, 200), obs(9, 50)]);
    let records = world.records();
    assert_eq!(records.len(), 2);
    assert_eq!(records[0].distance, 300);
    assert_eq!(records[1].distance, 50);
}

#[test]
fn overview_strictly_greater_replaces_equal_keeps_first() {
    let mut world = World::new();
    let first = Observation { cell: 3, lon_bits: 11, lat_bits: 0, packed: LineOfSight::new(5, 0) };
    let second = Observation { cell: 3, lon_bits: 22, lat_bits: 0, packed: LineOfSight::new(5, 0) };
    world.upsert(first);
    world.upsert(second);
    let records = world.records();
    assert_eq!(records.len(), 1);
    assert_eq!(records[0].lon_bits, 11);
}

#[test]
fn overview_merges_local_worlds_like_one_stream() {
    // Per-file locals folded into a global world give the same per-cell
    // maxima as one pass over all observations.
    let mut global = World::new();
    global.absorb(&vec![obs(1, 10), obs(2, 20)]);
    global.absorb(&vec![obs(1, 30), obs(2, 5)]);
    let mut single = World::new();
    single.absorb(&vec![obs(1, 10), obs(2, 20), obs(1, 30), obs(2, 5)]);
    let g = global.records();
    let s = single.records();
    assert_eq!(g.len(), s.len());
    for (x, y) in g.iter().zip(s.iter()) {
        assert_eq!(x.distance, y.distance);
    }
    assert_eq!(g[0].distance, 30);
    assert_eq!(g[1].distance, 20);
}

#[test]
fn overview_bins_by_h3_cell_at_resolution_four() {
    // A synthetic two-by-two raster at the null island centre: all four
    // samples fall in the same resolution-four cell, whose kept distance is
    // the maximum of the four.
    let cell: u64 = h3o::LatLng::new(0.0, 0.0)
        .unwrap()
        .to_cell(h3o::Resolution::Four)
        .into();
    let mut world = World::new();
    world.absorb(&vec![obs(cell, 100), obs(cell, 300), obs(cell, 200), obs(cell, 500)]);
    let records = world.records();
    assert_eq!(records.len(), 1);
    assert_eq!(records[0].distance, 500);
}

#[test]
fn numbers_render_decimal() {
    assert_eq!(u64_to_string(0), "0");
    assert_eq!(u64_to_string(7), "7");
    assert_eq!(u64_to_string(60), "60");
    assert_eq!(u64_to_string(1234567890), "1234567890");
    assert_eq!(u64_to_string(u64::MAX), "18446744073709551615");
}

#[test]
fn raster_stems_name_their_centre() {
    let t = parse_centre_stem("-1.5_54").unwrap();
    assert_eq!(t.lon, "-1.5");
    assert_eq!(t.lat, "54");
    assert!(matches!(parse_centre_stem("nounderscore"), Err(Error::DataFormatFailure(_))));
    assert!(matches!(parse_centre_stem("a_b"), Err(Error::DataFormatFailure(_))));
}

#[test]
fn sample_indices_split_into_columns_and_rows() {
    assert_eq!(atlas_core::overview::index_to_xy(0, 2), (0, 0));
    assert_eq!(atlas_core::overview::index_to_xy(1, 2), (1, 0));
    assert_eq!(atlas_core::overview::index_to_xy(2, 2), (0, 1));
    assert_eq!(atlas_core::overview::index_to_xy(3, 2), (1, 1));
}
