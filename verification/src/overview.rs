//! The global longest-lines reduction.
//!
//! The world is gridded into hexagonal cells; every raster sample becomes an
//! observation carrying its cell, its coordinates and its packed line of
//! sight. The reduction keeps, per cell, one observation — the one with the
//! greatest unpacked distance. Per-file local worlds and the global world use
//! the same fold.

use vstd::prelude::*;

use vstd::string::{StrSliceExecFns, StringExecFns};

use crate::error::Error;
use crate::grided::Grided;
use crate::packed::{spec_distance, LineOfSight};
use crate::tile::Tile;

verus! {

/// One raster sample, located in its grid cell.
#[derive(Debug, Clone, Copy, PartialEq, Eq, Structural)]
pub struct Observation {
    /// The 64-bit index of the containing grid cell.
    pub cell: u64,
    /// Bit pattern of the sample's longitude as a 32-bit float.
    pub lon_bits: u32,
    /// Bit pattern of the sample's latitude as a 32-bit float.
    pub lat_bits: u32,
    /// The packed line-of-sight payload of the sample.
    pub packed: LineOfSight,
}

/// The map from cells to kept observations that a run of entries denotes:
/// later entries would win, though a well-formed world has no duplicates.
pub open spec fn spec_as_map(s: Seq<Observation>) -> Map<u64, Observation>
    decreases s.len(),
{
    if s.len() == 0 {
        Map::empty()
    } else {
        spec_as_map(s.drop_last()).insert(s.last().cell, s.last())
    }
}

/// One reduction step: a new observation replaces the kept one for its cell
/// exactly when its distance is strictly greater, and fills an empty cell.
pub open spec fn spec_upsert(m: Map<u64, Observation>, o: Observation) -> Map<u64, Observation> {
    if m.contains_key(o.cell) {
        if spec_distance(o.packed.0) > spec_distance(m[o.cell].packed.0) {
            m.insert(o.cell, o)
        } else {
            m
        }
    } else {
        m.insert(o.cell, o)
    }
}

/// The reduction of a whole run of observations, in order.
pub open spec fn spec_fold(m: Map<u64, Observation>, obs: Seq<Observation>) -> Map<
    u64,
    Observation,
>
    decreases obs.len(),
{
    if obs.len() == 0 {
        m
    } else {
        spec_upsert(spec_fold(m, obs.drop_last()), obs.last())
    }
}

/// A cell is in the denoted map exactly when some entry carries it.
pub proof fn lemma_as_map_contains(s: Seq<Observation>, c: u64)
    ensures
        spec_as_map(s).contains_key(c) <==> exists|i: int| 0 <= i < s.len() && s[i].cell == c,
    decreases s.len(),
{
    if s.len() > 0 {
        lemma_as_map_contains(s.drop_last(), c);
        if s.last().cell == c {
            assert(s[s.len() - 1].cell == c);
        } else if spec_as_map(s).contains_key(c) {
            let i = choose|i: int| 0 <= i < s.drop_last().len() && s.drop_last()[i].cell == c;
            assert(s[i].cell == c);
        } else if exists|i: int| 0 <= i < s.len() && s[i].cell == c {
            let i = choose|i: int| 0 <= i < s.len() && s[i].cell == c;
            assert(s.drop_last()[i].cell == c);
        }
    }
}

/// With no duplicate cells, each entry is the one its cell maps to.
pub proof fn lemma_as_map_index(s: Seq<Observation>, i: int)
    requires
        forall|p: int, q: int| 0 <= p < q < s.len() ==> s[p].cell != s[q].cell,
        0 <= i < s.len(),
    ensures
        spec_as_map(s).contains_key(s[i].cell),
        spec_as_map(s)[s[i].cell] == s[i],
    decreases s.len(),
{
    if i == s.len() - 1 {
    } else {
        lemma_as_map_index(s.drop_last(), i);
        assert(s.drop_last()[i] == s[i]);
        assert(s.last().cell != s[i].cell);
    }
}

/// Updating the entry that holds a cell updates the denoted map at that cell.
pub proof fn lemma_as_map_update(s: Seq<Observation>, k: int, o: Observation)
    requires
        forall|p: int, q: int| 0 <= p < q < s.len() ==> s[p].cell != s[q].cell,
        0 <= k < s.len(),
        s[k].cell == o.cell,
    ensures
        spec_as_map(s.update(k, o)) == spec_as_map(s).insert(o.cell, o),
    decreases s.len(),
{
    let t = s.update(k, o);
    if k == s.len() - 1 {
        assert(t.drop_last() =~= s.drop_last());
        assert(t.last() == o);
        assert(spec_as_map(s.drop_last()).insert(s.last().cell, s.last()).insert(o.cell, o)
            =~= spec_as_map(s.drop_last()).insert(o.cell, o));
    } else {
        assert(t.drop_last() =~= s.drop_last().update(k, o));
        assert(t.last() == s.last());
        lemma_as_map_update(s.drop_last(), k, o);
        assert(s.last().cell != o.cell);
        assert(spec_as_map(s.drop_last()).insert(o.cell, o).insert(s.last().cell, s.last())
            =~= spec_as_map(s.drop_last()).insert(s.last().cell, s.last()).insert(o.cell, o));
    }
}

/// What a raster's file stem denotes: the decimal renderings of its centre's
/// longitude and latitude, separated by an underscore.
pub open spec fn spec_parse_centre_stem(s: Seq<char>) -> Option<(Seq<char>, Seq<char>)> {
    let u = crate::run::spec_find_char(s, '_', 0);
    if u == s.len() {
        None
    } else {
        let lon = s.subrange(0, u);
        let lat = s.subrange(u + 1, s.len() as int);
        if crate::run::spec_is_decimal(lon) && crate::run::spec_is_decimal(lat) {
            Some((lon, lat))
        } else {
            None
        }
    }
}

/// Parse a raster's file stem, `{lon}_{lat}`, into the centre it names. The
/// error carries the offending stem.
pub fn parse_centre_stem(stem: &str) -> (r: Result<Tile, Error>)
    ensures
        r is Ok <==> spec_parse_centre_stem(stem@) is Some,
        r matches Ok(t) ==> spec_parse_centre_stem(stem@) == Some((t.lon@, t.lat@)) && t.width@
            == Seq::<char>::empty(),
        r matches Err(e) ==> e matches Error::DataFormatFailure(m) && m@ == stem@,
{
    let len = stem.unicode_len();
    proof {
        crate::run::lemma_find_char(stem@, '_', 0);
    }
    let u = crate::run::find_char(stem, '_', 0);
    if u == len {
        return Err(Error::DataFormatFailure(String::from_str(stem)));
    }
    let lon = stem.substring_char(0, u);
    let lat = stem.substring_char(u + 1, len);
    if !crate::run::is_decimal(lon) || !crate::run::is_decimal(lat) {
        return Err(Error::DataFormatFailure(String::from_str(stem)));
    }
    Ok(Tile { lon: String::from_str(lon), lat: String::from_str(lat), width: String::new() })
}

/// The two-dimensional position of a sample in its square raster: column
/// and row of the one-dimensional index.
pub fn index_to_xy(index: usize, width: usize) -> (r: (usize, usize))
    requires
        width > 0,
    ensures
        r.0 == index % width,
        r.1 == index / width,
        r.0 < width,
{
    (index % width, index / width)
}

/// The wire record that one kept observation becomes.
pub open spec fn spec_to_grided(o: Observation) -> Grided {
    Grided { lon_bits: o.lon_bits, lat_bits: o.lat_bits, distance: spec_distance(o.packed.0) }
}

/// The running per-cell maxima of the world's longest lines.
#[derive(Debug)]
pub struct World {
    /// The kept observations, at most one per cell.
    pub entries: Vec<Observation>,
}

impl World {
    /// Well-formed: no two entries share a cell.
    pub open spec fn wf(&self) -> bool {
        forall|p: int, q: int|
            0 <= p < q < self.entries@.len() ==> self.entries@[p].cell != self.entries@[q].cell
    }

    /// The map from cells to kept observations.
    pub open spec fn as_map(&self) -> Map<u64, Observation> {
        spec_as_map(self.entries@)
    }

    /// An empty world.
    pub fn new() -> (r: World)
        ensures
            r.wf(),
            r.as_map() == Map::<u64, Observation>::empty(),
            r.entries@.len() == 0,
    {
        World { entries: Vec::new() }
    }

    /// The index of the entry holding a cell, if any.
    fn find_cell(&self, cell: u64) -> (r: Option<usize>)
        ensures
            match r {
                Some(i) => i < self.entries@.len() && self.entries@[i as int].cell == cell,
                None => forall|j: int| 0 <= j < self.entries@.len() ==> self.entries@[j].cell != cell,
            },
    {
        let mut i: usize = 0;
        while i < self.entries.len()
            invariant
                i <= self.entries@.len(),
                forall|j: int| 0 <= j < i ==> self.entries@[j].cell != cell,
            decreases self.entries@.len() - i,
        {
            if self.entries[i].cell == cell {
                return Some(i);
            }
            i += 1;
        }
        None
    }

    /// Record one observation: it fills its cell if empty and replaces the
    /// kept observation exactly when strictly farther.
    pub fn upsert(&mut self, o: Observation)
        requires
            old(self).wf(),
        ensures
            final (self).wf(),
            final (self).as_map() == spec_upsert(old(self).as_map(), o),
    {
        proof {
            lemma_as_map_contains(self.entries@, o.cell);
        }
        match self.find_cell(o.cell) {
            None => {
                let ghost pre = self.entries@;
                self.entries.push(o);
                proof {
                    assert(self.entries@.drop_last() =~= pre);
                    assert(self.entries@.last() == o);
                }
            },
            Some(i) => {
                proof {
                    lemma_as_map_index(self.entries@, i as int);
                }
                let kept = self.entries[i].packed.distance();
                let fresh = o.packed.distance();
                if fresh > kept {
                    let ghost pre = self.entries@;
                    proof {
                        lemma_as_map_update(pre, i as int, o);
                    }
                    self.entries[i] = o;
                    proof {
                        assert(self.entries@ =~= pre.update(i as int, o));
                        assert forall|p: int, q: int|
                            0 <= p < q < self.entries@.len() implies self.entries@[p].cell
                            != self.entries@[q].cell by {
                            assert(pre[p].cell != pre[q].cell);
                        }
                    }
                }
            },
        }
    }

    /// Fold a batch of observations into the world, in order.
    pub fn absorb(&mut self, obs: &Vec<Observation>)
        requires
            old(self).wf(),
        ensures
            final (self).wf(),
            final (self).as_map() == spec_fold(old(self).as_map(), obs@),
    {
        let ghost m0 = self.as_map();
        let mut i: usize = 0;
        while i < obs.len()
            invariant
                i <= obs@.len(),
                self.wf(),
                self.as_map() == spec_fold(m0, obs@.take(i as int)),
            decreases obs@.len() - i,
        {
            self.upsert(obs[i]);
            proof {
                assert(obs@.take(i + 1).drop_last() =~= obs@.take(i as int));
                assert(obs@.take(i + 1).last() == obs@[i as int]);
            }
            i += 1;
        }
        proof {
            assert(obs@.take(obs@.len() as int) =~= obs@);
        }
    }

    /// The wire records of the world: one per occupied cell, the unpacked
    /// distance beside the coordinates, in entry order.
    pub fn records(&self) -> (r: Vec<Grided>)
        ensures
            r@.len() == self.entries@.len(),
            forall|i: int|
                0 <= i < r@.len() ==> r@[i] == spec_to_grided(self.entries@[i]),
    {
        let mut out: Vec<Grided> = Vec::new();
        let mut i: usize = 0;
        while i < self.entries.len()
            invariant
                i <= self.entries@.len(),
                out@.len() == i,
                forall|j: int| 0 <= j < i ==> out@[j] == spec_to_grided(self.entries@[j]),
            decreases self.entries@.len() - i,
        {
            let o = self.entries[i];
            let g = Grided {
                lon_bits: o.lon_bits,
                lat_bits: o.lat_bits,
                distance: o.packed.distance(),
            };
            out.push(g);
            i += 1;
        }
        out
    }
}

/// Law: for any run of observations, the reduction holds exactly the observed
/// cells, and per cell it keeps an actual observation of that cell whose
/// distance no observation of that cell exceeds.
pub proof fn lemma_overview_reduction(obs: Seq<Observation>)
    ensures
        forall|c: u64|
            spec_fold(Map::empty(), obs).contains_key(c) <==> exists|i: int|
                0 <= i < obs.len() && obs[i].cell == c,
        forall|c: u64| #[trigger]
            spec_fold(Map::empty(), obs).contains_key(c) ==> exists|i: int|
                0 <= i < obs.len() && obs[i] == spec_fold(Map::empty(), obs)[c] && obs[i].cell == c,
        forall|c: u64, i: int|
            spec_fold(Map::empty(), obs).contains_key(c) && 0 <= i < obs.len() && obs[i].cell == c
                ==> spec_distance(obs[i].packed.0) <= spec_distance(
                spec_fold(Map::empty(), obs)[c].packed.0,
            ),
    decreases obs.len(),
{
    if obs.len() == 0 {
    } else {
        let prefix = obs.drop_last();
        let o = obs.last();
        lemma_overview_reduction(prefix);
        let before = spec_fold(Map::<u64, Observation>::empty(), prefix);
        let after = spec_fold(Map::<u64, Observation>::empty(), obs);
        assert(after == spec_upsert(before, o));
        assert forall|c: u64| after.contains_key(c) implies exists|i: int|
            0 <= i < obs.len() && obs[i].cell == c by {
            if c == o.cell {
                assert(obs[obs.len() - 1].cell == c);
            } else {
                assert(before.contains_key(c));
                let i = choose|i: int| 0 <= i < prefix.len() && prefix[i].cell == c;
                assert(obs[i].cell == c);
            }
        }
        assert forall|c: u64| (exists|i: int| 0 <= i < obs.len() && obs[i].cell == c)
            implies after.contains_key(c) by {
            let i = choose|i: int| 0 <= i < obs.len() && obs[i].cell == c;
            if i < obs.len() - 1 {
                assert(prefix[i].cell == c);
                assert(before.contains_key(c));
            }
        }
        assert forall|c: u64| #[trigger] after.contains_key(c) implies exists|i: int|
            0 <= i < obs.len() && obs[i] == after[c] && obs[i].cell == c by {
            if after[c] == o && o.cell == c {
                assert(obs[obs.len() - 1] == after[c]);
            } else {
                assert(before.contains_key(c) && after[c] == before[c]);
                let i = choose|i: int|
                    0 <= i < prefix.len() && prefix[i] == before[c] && prefix[i].cell == c;
                assert(obs[i] == after[c] && obs[i].cell == c);
            }
        }
        assert forall|c: u64, i: int|
            after.contains_key(c) && 0 <= i < obs.len() && obs[i].cell == c implies spec_distance(
            obs[i].packed.0,
        ) <= spec_distance(after[c].packed.0) by {
            if i == obs.len() - 1 {
            } else {
                assert(prefix[i].cell == c);
                assert(before.contains_key(c));
                assert(spec_distance(prefix[i].packed.0) <= spec_distance(before[c].packed.0));
            }
        }
    }
}

} // verus!
