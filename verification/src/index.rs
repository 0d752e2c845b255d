//! The longest-lines index: a text file listing every per-tile raster and
//! its width in meters, one `"{filename} {width}"` line per completed tile,
//! so a reader can decide which raster covers a point.

use vstd::prelude::*;
use vstd::string::StringExecFns;

use crate::command::{spec_join, join};
use crate::tile::{spec_cog_filename, Tile};

verus! {

/// One tile's index entry.
pub open spec fn spec_index_entry(t: Tile) -> Seq<char> {
    spec_cog_filename(t.lon@, t.lat@) + " "@ + t.width@
}

/// The whole index: one entry per tile, newline-separated.
pub fn index_content(tiles: &Vec<Tile>) -> (r: String)
    ensures
        r@ == spec_join(tiles@.map_values(|t: Tile| spec_index_entry(t)), "\n"@),
{
    let ghost target = tiles@.map_values(|t: Tile| spec_index_entry(t));
    let mut entries: Vec<String> = Vec::new();
    let mut i: usize = 0;
    while i < tiles.len()
        invariant
            i <= tiles@.len(),
            target == tiles@.map_values(|t: Tile| spec_index_entry(t)),
            entries@.map_values(|s: String| s@) =~~= target.take(i as int),
        decreases tiles@.len() - i,
    {
        let entry = tiles[i].index_line();
        let ghost ev = entry;
        let ghost pre = entries@;
        entries.push(entry);
        proof {
            let f = |s: String| s@;
            pre.lemma_push_map_commute(f, ev);
            assert(target.take(i + 1) =~= target.take(i as int).push(target[i as int]));
            assert(entries@.map_values(f) == pre.map_values(f).push(f(ev)));
            assert(entries@.map_values(|s: String| s@) == target.take(i + 1));
        }
        i += 1;
    }
    proof {
        assert(target.take(tiles@.len() as int) =~= target);
    }
    join(&entries, "\n")
}

/// Where the index of a run lives in the object store.
pub fn index_destination(run_id: &str) -> (r: String)
    ensures
        r@ == "s3://viewview/runs/"@ + run_id@ + "/longest_lines_cogs/index.txt"@,
{
    let mut uri = String::from_str("s3://viewview/runs/");
    uri.append(run_id);
    uri.append("/longest_lines_cogs/index.txt");
    uri
}

} // verus!
