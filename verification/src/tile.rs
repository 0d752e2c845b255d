//! A single computable tile and its canonical identifiers.
//!
//! A tile's centre is held as the decimal renderings of its longitude and
//! latitude, exactly as they appear in artifact names, and its width in
//! meters as the decimal rendering from the master catalog. Identity is
//! equality of (centre, width).

use vstd::prelude::*;
use vstd::string::StringExecFns;

verus! {

/// The tile data itself. Created by the tile packer, never mutated.
#[derive(Debug, PartialEq, Eq)]
pub struct Tile {
    /// Decimal rendering of the centre's longitude in WGS84 degrees.
    pub lon: String,
    /// Decimal rendering of the centre's latitude in WGS84 degrees.
    pub lat: String,
    /// Decimal rendering of the tile's width in meters.
    pub width: String,
}

/// The cloud artifact name of a tile: `"{lon}_{lat}.tiff"`.
pub open spec fn spec_cog_filename(lon: Seq<char>, lat: Seq<char>) -> Seq<char> {
    lon + "_"@ + lat + ".tiff"@
}

/// The stitched elevation file name of a tile: `"{lon},{lat}.bt"`.
pub open spec fn spec_canonical_filename(lon: Seq<char>, lat: Seq<char>) -> Seq<char> {
    lon + ","@ + lat + ".bt"@
}

impl Clone for Tile {
    /// An exact copy of the tile.
    fn clone(&self) -> (r: Self)
        ensures
            r == *self,
    {
        Tile { lon: self.lon.clone(), lat: self.lat.clone(), width: self.width.clone() }
    }
}

impl Tile {
    /// Canonical cloud artifact filename for the tile.
    pub fn cog_filename(&self) -> (r: String)
        ensures
            r@ == spec_cog_filename(self.lon@, self.lat@),
    {
        let mut name = self.lon.clone();
        name.append("_");
        name.append(self.lat.as_str());
        name.append(".tiff");
        name
    }

    /// Canonical filename of the tile's stitched elevation input.
    pub fn canonical_filename(&self) -> (r: String)
        ensures
            r@ == spec_canonical_filename(self.lon@, self.lat@),
    {
        let mut name = self.lon.clone();
        name.append(",");
        name.append(self.lat.as_str());
        name.append(".bt");
        name
    }

    /// One line of the longest-lines index: `"{cog_filename} {width}"`.
    pub fn index_line(&self) -> (r: String)
        ensures
            r@ == spec_cog_filename(self.lon@, self.lat@) + " "@ + self.width@,
    {
        let mut line = self.cog_filename();
        line.append(" ");
        line.append(self.width.as_str());
        line
    }
}

/// Law: tiles with equal centres name the same artifacts, and the artifact
/// name determines the centre renderings whenever neither rendering holds the
/// separator, as decimal renderings never do.
pub proof fn lemma_cog_filename_injective(a: Tile, b: Tile)
    requires
        !a.lon@.contains('_'),
        !a.lat@.contains('_'),
        !b.lon@.contains('_'),
        !b.lat@.contains('_'),
        spec_cog_filename(a.lon@, a.lat@) == spec_cog_filename(b.lon@, b.lat@),
    ensures
        a.lon@ == b.lon@,
        a.lat@ == b.lat@,
{
    reveal_strlit("_");
    reveal_strlit(".tiff");
    let sa = spec_cog_filename(a.lon@, a.lat@);
    let sb = spec_cog_filename(b.lon@, b.lat@);
    let la = a.lon@.len() as int;
    let lb = b.lon@.len() as int;
    assert(sa.len() == a.lon@.len() + 1 + a.lat@.len() + 5);
    assert(sa[la] == '_');
    assert(sb[lb] == '_');
    assert forall|i: int| 0 <= i < la implies sa[i] != '_' by {
        assert(sa[i] == a.lon@[i]);
        assert(a.lon@.contains(a.lon@[i]));
    }
    assert forall|i: int| 0 <= i < lb implies sb[i] != '_' by {
        assert(sb[i] == b.lon@[i]);
        assert(b.lon@.contains(b.lon@[i]));
    }
    if la < lb {
        assert(sb[la] == sa[la]);
        assert(false);
    }
    if lb < la {
        assert(sa[lb] == sb[lb]);
        assert(false);
    }
    assert(la == lb);
    assert forall|i: int| 0 <= i < la implies a.lon@[i] == b.lon@[i] by {
        assert(sa[i] == a.lon@[i]);
        assert(sb[i] == b.lon@[i]);
    }
    assert(a.lon@ =~= b.lon@);
    assert(a.lat@.len() == b.lat@.len());
    assert forall|i: int| 0 <= i < a.lat@.len() implies a.lat@[i] == b.lat@[i] by {
        assert(sa[la + 1 + i] == a.lat@[i]);
        assert(sb[la + 1 + i] == b.lat@[i]);
    }
    assert(a.lat@ =~= b.lat@);
}

} // verus!
