//! Seeding a run: parsing the master tile catalog, determining the current
//! run from the completed-job history, and refusing to mix runs.

use vstd::prelude::*;
use vstd::string::{StrSliceExecFns, StringExecFns};

use crate::config::AtlasConfig;
use crate::error::Error;
use crate::store::{JobRow, JobStatus, JobStore};
use crate::tile::Tile;
use crate::tile_job::TileJob;

verus! {

/// The index of the first occurrence of a character at or after `from`, or
/// the text's length when there is none.
pub open spec fn spec_find_char(s: Seq<char>, ch: char, from: int) -> int
    decreases s.len() - from when 0 <= from
{
    if from >= s.len() {
        s.len() as int
    } else if s[from] == ch {
        from
    } else {
        spec_find_char(s, ch, from + 1)
    }
}

/// Where the found index lies and what stands before it.
pub proof fn lemma_find_char(s: Seq<char>, ch: char, from: int)
    requires
        0 <= from <= s.len(),
    ensures
        from <= spec_find_char(s, ch, from) <= s.len(),
        spec_find_char(s, ch, from) < s.len() ==> s[spec_find_char(s, ch, from)] == ch,
        forall|j: int| from <= j < spec_find_char(s, ch, from) ==> s[j] != ch,
    decreases s.len() - from,
{
    if from < s.len() && s[from] != ch {
        lemma_find_char(s, ch, from + 1);
    }
}

/// Find a character at or after `from`; the text's length means "not found".
pub fn find_char(s: &str, ch: char, from: usize) -> (r: usize)
    requires
        from <= s@.len(),
    ensures
        r == spec_find_char(s@, ch, from as int),
    decreases s@.len() - from,
{
    let len = s.unicode_len();
    if from >= len {
        len
    } else if s.get_char(from) == ch {
        from
    } else {
        find_char(s, ch, from + 1)
    }
}

/// Every character is a decimal digit.
pub open spec fn spec_all_digits(s: Seq<char>) -> bool {
    forall|i: int| 0 <= i < s.len() ==> '0' <= #[trigger] s[i] && s[i] <= '9'
}

/// Check that a text is all decimal digits.
fn all_digits(s: &str) -> (r: bool)
    ensures
        r == spec_all_digits(s@),
{
    let len = s.unicode_len();
    let mut i: usize = 0;
    while i < len
        invariant
            i <= len,
            len == s@.len(),
            forall|j: int| 0 <= j < i ==> '0' <= #[trigger] s@[j] && s@[j] <= '9',
        decreases len - i,
    {
        let c = s.get_char(i);
        if c < '0' || c > '9' {
            return false;
        }
        i += 1;
    }
    true
}

/// A plain decimal number as the catalog renders one: an optional minus, a
/// non-empty run of digits, and at most one point with digits on both sides.
pub open spec fn spec_is_decimal(s: Seq<char>) -> bool {
    let t = if s.len() > 0 && s[0] == '-' {
        s.subrange(1, s.len() as int)
    } else {
        s
    };
    let d = spec_find_char(t, '.', 0);
    if d == t.len() {
        t.len() > 0 && spec_all_digits(t)
    } else {
        &&& d > 0
        &&& d + 1 < t.len()
        &&& spec_all_digits(t.subrange(0, d))
        &&& spec_all_digits(t.subrange(d + 1, t.len() as int))
        &&& spec_find_char(t, '.', d + 1) == t.len()
    }
}

/// Check that a text is a plain decimal number.
pub fn is_decimal(s: &str) -> (r: bool)
    ensures
        r == spec_is_decimal(s@),
{
    let len = s.unicode_len();
    let start: usize = if len > 0 && s.get_char(0) == '-' {
        1
    } else {
        0
    };
    let t = s.substring_char(start, len);
    let tlen = t.unicode_len();
    proof {
        if start == 1 {
            assert(t@ == s@.subrange(1, s@.len() as int));
        } else {
            assert(t@ =~= s@);
        }
        lemma_find_char(t@, '.', 0);
    }
    let d = find_char(t, '.', 0);
    if d == tlen {
        if tlen == 0 {
            false
        } else {
            all_digits(t)
        }
    } else {
        if d == 0 || d + 1 >= tlen {
            return false;
        }
        let int_part = t.substring_char(0, d);
        let frac_part = t.substring_char(d + 1, tlen);
        if !all_digits(int_part) {
            return false;
        }
        if !all_digits(frac_part) {
            return false;
        }
        let d2 = find_char(t, '.', d + 1);
        d2 == tlen
    }
}

/// A decimal rendering never holds an underscore, so renderings can stand
/// on either side of the separator in an artifact name.
pub proof fn lemma_decimal_no_underscore(s: Seq<char>)
    requires
        spec_is_decimal(s),
    ensures
        forall|i: int| 0 <= i < s.len() ==> s[i] != '_',
{
    let start: int = if s.len() > 0 && s[0] == '-' {
        1
    } else {
        0
    };
    let t = if start == 1 {
        s.subrange(1, s.len() as int)
    } else {
        s
    };
    let d = spec_find_char(t, '.', 0);
    lemma_find_char(t, '.', 0);
    assert forall|i: int| 0 <= i < s.len() implies s[i] != '_' by {
        if i < start {
            assert(s[i] == '-');
        } else {
            let j = i - start;
            assert(t[j] == s[i]);
            if d == t.len() {
                assert('0' <= t[j] && t[j] <= '9');
            } else if j < d {
                assert(t.subrange(0, d)[j] == t[j]);
                assert('0' <= t[j] && t[j] <= '9');
            } else if j == d {
                assert(t[d] == '.');
            } else {
                assert(t.subrange(d + 1, t.len() as int)[j - d - 1] == t[j]);
                assert('0' <= t[j] && t[j] <= '9');
            }
        }
    }
}

/// Law: tiles whose centre renderings are decimal numbers — as every parsed
/// catalog tile's are — share an artifact name only when they share a
/// centre: the canonical filename is the tile's identity.
pub proof fn lemma_tile_identity_canonical(a: Tile, b: Tile)
    requires
        spec_is_decimal(a.lon@),
        spec_is_decimal(a.lat@),
        spec_is_decimal(b.lon@),
        spec_is_decimal(b.lat@),
        crate::tile::spec_cog_filename(a.lon@, a.lat@) == crate::tile::spec_cog_filename(
            b.lon@,
            b.lat@,
        ),
    ensures
        a.lon@ == b.lon@,
        a.lat@ == b.lat@,
{
    lemma_decimal_no_underscore(a.lon@);
    lemma_decimal_no_underscore(a.lat@);
    lemma_decimal_no_underscore(b.lon@);
    lemma_decimal_no_underscore(b.lat@);
    assert(!a.lon@.contains('_'));
    assert(!a.lat@.contains('_'));
    assert(!b.lon@.contains('_'));
    assert(!b.lat@.contains('_'));
    crate::tile::lemma_cog_filename_injective(a, b);
}

/// The three comma-separated fields of a catalog line, by position; anything
/// after the third field is ignored.
pub open spec fn spec_split3(s: Seq<char>) -> Option<(Seq<char>, Seq<char>, Seq<char>)> {
    let c1 = spec_find_char(s, ',', 0);
    if c1 == s.len() {
        None
    } else {
        let c2 = spec_find_char(s, ',', c1 + 1);
        if c2 == s.len() {
            None
        } else {
            let c3 = spec_find_char(s, ',', c2 + 1);
            Some((s.subrange(0, c1), s.subrange(c1 + 1, c2), s.subrange(c2 + 1, c3)))
        }
    }
}

/// What a catalog line denotes: its longitude, latitude and width renderings,
/// or nothing when a field is missing or not a number.
pub open spec fn spec_parse_line(s: Seq<char>) -> Option<(Seq<char>, Seq<char>, Seq<char>)> {
    match spec_split3(s) {
        None => None,
        Some((lon, lat, width)) => {
            if spec_is_decimal(lon) && spec_is_decimal(lat) && spec_is_decimal(width) {
                Some((lon, lat, width))
            } else {
                None
            }
        },
    }
}

/// Parse one line of the master tile catalog: `<lon>,<lat>,<width>`. The
/// error carries the offending line.
pub fn parse_master_line(line: &str) -> (r: Result<Tile, Error>)
    ensures
        r is Ok <==> spec_parse_line(line@) is Some,
        r matches Ok(t) ==> spec_parse_line(line@) == Some((t.lon@, t.lat@, t.width@)),
        r matches Err(e) ==> e matches Error::DataFormatFailure(m) && m@ == line@,
{
    let len = line.unicode_len();
    proof {
        lemma_find_char(line@, ',', 0);
    }
    let c1 = find_char(line, ',', 0);
    if c1 == len {
        return Err(Error::DataFormatFailure(String::from_str(line)));
    }
    proof {
        lemma_find_char(line@, ',', c1 + 1);
    }
    let c2 = find_char(line, ',', c1 + 1);
    if c2 == len {
        return Err(Error::DataFormatFailure(String::from_str(line)));
    }
    proof {
        lemma_find_char(line@, ',', c2 + 1);
    }
    let c3 = find_char(line, ',', c2 + 1);
    let lon = line.substring_char(0, c1);
    let lat = line.substring_char(c1 + 1, c2);
    let width = line.substring_char(c2 + 1, c3);
    if !is_decimal(lon) || !is_decimal(lat) || !is_decimal(width) {
        return Err(Error::DataFormatFailure(String::from_str(line)));
    }
    Ok(
        Tile {
            lon: String::from_str(lon),
            lat: String::from_str(lat),
            width: String::from_str(width),
        },
    )
}

/// What a `lon,lat` coordinate argument denotes: its two decimal fields,
/// or nothing when it has not exactly two or one is not a number.
pub open spec fn spec_parse_coord(s: Seq<char>) -> Option<(Seq<char>, Seq<char>)> {
    let c = spec_find_char(s, ',', 0);
    if c == s.len() {
        None
    } else {
        let lon = s.subrange(0, c);
        let lat = s.subrange(c + 1, s.len() as int);
        if spec_find_char(s, ',', c + 1) == s.len() && spec_is_decimal(lon) && spec_is_decimal(
            lat,
        ) {
            Some((lon, lat))
        } else {
            None
        }
    }
}

/// Parse a `lon,lat` coordinate argument: exactly two decimal fields. The
/// error carries the offending argument.
pub fn parse_coord(s: &str) -> (r: Result<(String, String), Error>)
    ensures
        r is Ok <==> spec_parse_coord(s@) is Some,
        r matches Ok(c) ==> spec_parse_coord(s@) == Some((c.0@, c.1@)),
        r matches Err(e) ==> e matches Error::DataFormatFailure(m) && m@ == s@,
{
    let len = s.unicode_len();
    proof {
        lemma_find_char(s@, ',', 0);
    }
    let c = find_char(s, ',', 0);
    if c == len {
        return Err(Error::DataFormatFailure(String::from_str(s)));
    }
    let second = find_char(s, ',', c + 1);
    if second != len {
        return Err(Error::DataFormatFailure(String::from_str(s)));
    }
    let lon = s.substring_char(0, c);
    let lat = s.substring_char(c + 1, len);
    if !is_decimal(lon) || !is_decimal(lat) {
        return Err(Error::DataFormatFailure(String::from_str(s)));
    }
    Ok((String::from_str(lon), String::from_str(lat)))
}

/// The lines of a text from a position on, split at newlines; a trailing
/// newline ends the last line rather than opening an empty one.
pub open spec fn spec_lines_from(s: Seq<char>, pos: int) -> Seq<Seq<char>>
    decreases s.len() - pos + 1 when 0 <= pos via spec_lines_from_decreases
{
    if pos >= s.len() {
        Seq::empty()
    } else {
        let e = spec_find_char(s, '\n', pos);
        seq![s.subrange(pos, e)] + spec_lines_from(s, e + 1)
    }
}

#[via_fn]
proof fn spec_lines_from_decreases(s: Seq<char>, pos: int) {
    if 0 <= pos < s.len() {
        lemma_find_char(s, '\n', pos);
    }
}

/// Parse the whole master tile catalog. Succeeds exactly when every line
/// parses; the error carries the first offending line.
pub fn parse_master(contents: &str) -> (r: Result<Vec<Tile>, Error>)
    ensures
        r is Ok <==> (forall|i: int|
            0 <= i < spec_lines_from(contents@, 0).len() ==> (#[trigger] spec_parse_line(
                spec_lines_from(contents@, 0)[i],
            )) is Some),
        r matches Ok(tiles) ==> {
            &&& tiles@.len() == spec_lines_from(contents@, 0).len()
            &&& forall|i: int|
                0 <= i < tiles@.len() ==> spec_parse_line(spec_lines_from(contents@, 0)[i])
                    == Some(
                    (
                        (#[trigger] tiles@[i]).lon@,
                        tiles@[i].lat@,
                        tiles@[i].width@,
                    ),
                )
        },
        r matches Err(e) ==> exists|i: int|
            {
                &&& 0 <= i < spec_lines_from(contents@, 0).len()
                &&& (#[trigger] spec_parse_line(spec_lines_from(contents@, 0)[i])) is None
                &&& e matches Error::DataFormatFailure(m) && m@ == spec_lines_from(contents@, 0)[i]
            },
{
    let ghost all_lines = spec_lines_from(contents@, 0);
    let len = contents.unicode_len();
    let mut pos: usize = 0;
    let mut tiles: Vec<Tile> = Vec::new();
    let ghost mut done: Seq<Seq<char>> = Seq::empty();
    proof {
        assert(all_lines =~= done + spec_lines_from(contents@, 0));
    }
    while pos < len
        invariant
            len == contents@.len(),
            pos <= len + 1,
            all_lines == spec_lines_from(contents@, 0),
            all_lines == done + spec_lines_from(contents@, pos as int),
            tiles@.len() == done.len(),
            forall|i: int|
                0 <= i < done.len() ==> spec_parse_line(done[i]) == Some(
                    ((#[trigger] tiles@[i]).lon@, tiles@[i].lat@, tiles@[i].width@),
                ),
        decreases len - pos,
    {
        proof {
            lemma_find_char(contents@, '\n', pos as int);
        }
        let e = find_char(contents, '\n', pos);
        let segment = contents.substring_char(pos, e);
        let ghost rest = spec_lines_from(contents@, e + 1);
        proof {
            assert(spec_lines_from(contents@, pos as int) == seq![segment@] + rest);
            assert(all_lines[done.len() as int] == segment@) by {
                assert((done + (seq![segment@] + rest))[done.len() as int] == segment@);
            }
        }
        match parse_master_line(segment) {
            Err(err) => {
                proof {
                    let bad = done.len() as int;
                    assert(done.len() < all_lines.len()) by {
                        assert((seq![segment@] + rest).len() >= 1);
                    }
                    assert(spec_parse_line(spec_lines_from(contents@, 0)[bad]) is None);
                }
                return Err(err);
            },
            Ok(tile) => {
                tiles.push(tile);
                proof {
                    done = done.push(segment@);
                    assert(all_lines =~= done + rest);
                }
                if e >= len {
                    proof {
                        assert(spec_lines_from(contents@, len as int)
                            =~= Seq::<Seq<char>>::empty());
                        assert(rest =~= Seq::<Seq<char>>::empty());
                    }
                    pos = len;
                } else {
                    pos = e + 1;
                }
            },
        }
    }
    proof {
        assert(spec_lines_from(contents@, pos as int) =~= Seq::<Seq<char>>::empty());
        assert(all_lines =~= done);
        assert forall|i: int|
            0 <= i < spec_lines_from(contents@, 0).len() implies (#[trigger] spec_parse_line(
            spec_lines_from(contents@, 0)[i],
        )) is Some by {
            assert(spec_parse_line(done[i]) == Some(
                (tiles@[i].lon@, tiles@[i].lat@, tiles@[i].width@),
            ));
        }
    }
    Ok(tiles)
}

/// The configuration of the current run: the one embedded in the
/// most-recently-completed tile job, or nothing when no tile job has
/// completed.
#[verifier::rlimit(100)]
pub fn get_current_run_config(store: &JobStore<TileJob>) -> (r: Option<AtlasConfig>)
    requires
        store.wf(),
    ensures
        match r {
            Some(c) => exists|k: int|
                {
                    &&& 0 <= k < store.rows@.len()
                    &&& (#[trigger] store.rows@[k]).status is Done
                    &&& c == store.rows@[k].job.config
                    &&& forall|j: int|
                        0 <= j < store.rows@.len() && (#[trigger] store.rows@[j].status) is Done
                            ==> store.rows@[j].done_at->0 <= store.rows@[k].done_at->0
                },
            None => forall|j: int|
                0 <= j < store.rows@.len() ==> !((#[trigger] store.rows@[j].status) is Done),
        },
{
    let mut found = false;
    let mut best_index: usize = 0;
    let mut best_time: u64 = 0;
    let mut i: usize = 0;
    while i < store.rows.len()
        invariant
            store.wf(),
            i <= store.rows@.len(),
            !found ==> forall|j: int|
                0 <= j < i ==> !((#[trigger] store.rows@[j].status) is Done),
            found ==> (best_index as int) < i,
            found ==> store.rows@[best_index as int].status is Done,
            found ==> store.rows@[best_index as int].done_at == Some(best_time),
            found ==> forall|j: int|
                0 <= j < i && (#[trigger] store.rows@[j].status) is Done ==> store.rows@[j].done_at->0
                    <= best_time,
        decreases store.rows@.len() - i,
    {
        if matches!(store.rows[i].status, JobStatus::Done) {
            let t = match store.rows[i].done_at {
                Some(t) => t,
                None => {
                    proof {
                        assert(false);
                    }
                    0
                },
            };
            if !found || t > best_time {
                found = true;
                best_index = i;
                best_time = t;
            }
        }
        i += 1;
    }
    if found {
        let c = store.rows[best_index].job.config.clone();
        proof {
            assert(store.rows@[best_index as int].status is Done);
            assert(c == store.rows@[best_index as int].job.config);
        }
        Some(c)
    } else {
        None
    }
}

/// The tiles of every completed job of a run, in row order.
pub open spec fn spec_completed_tiles(rows: Seq<JobRow<TileJob>>, run_id: Seq<char>) -> Seq<Tile>
    decreases rows.len(),
{
    if rows.len() == 0 {
        Seq::empty()
    } else {
        let prefix = spec_completed_tiles(rows.drop_last(), run_id);
        let row = rows.last();
        if row.status is Done && row.job.config.run_id@ == run_id {
            prefix.push(row.job.tile)
        } else {
            prefix
        }
    }
}

/// The tiles of every completed job of a run.
pub fn get_completed_tiles(store: &JobStore<TileJob>, run_id: &str) -> (r: Vec<Tile>)
    ensures
        r@ == spec_completed_tiles(store.rows@, run_id@),
{
    let target = String::from_str(run_id);
    let mut out: Vec<Tile> = Vec::new();
    let mut i: usize = 0;
    while i < store.rows.len()
        invariant
            target@ == run_id@,
            i <= store.rows@.len(),
            out@ == spec_completed_tiles(store.rows@.take(i as int), run_id@),
        decreases store.rows@.len() - i,
    {
        proof {
            assert(store.rows@.take(i + 1).drop_last() =~= store.rows@.take(i as int));
            assert(store.rows@.take(i + 1).last() == store.rows@[i as int]);
        }
        if matches!(store.rows[i].status, JobStatus::Done) && store.rows[
            i
        ].job.config.run_id.eq(&target) {
            out.push(store.rows[i].job.tile.clone());
        }
        i += 1;
    }
    proof {
        assert(store.rows@.take(store.rows@.len() as int) =~= store.rows@);
    }
    out
}

/// Plan a run: refuse to enqueue when any completed tile job belongs to a
/// different run — before any job is pushed — and otherwise pair the
/// configuration with every tile, in seeding order.
pub fn plan_run(store: &JobStore<TileJob>, config: &AtlasConfig, tiles: &Vec<Tile>) -> (r: Result<
    Vec<TileJob>,
    Error,
>)
    ensures
        r is Err <==> exists|k: int|
            0 <= k < store.rows@.len() && (#[trigger] store.rows@[k]).status
                is Done && store.rows@[k].job.config.run_id@
                != config.run_id@,
        r matches Err(e) ==> e is ConfigConflict,
        r matches Ok(jobs) ==> {
            &&& jobs@.len() == tiles@.len()
            &&& forall|i: int|
                0 <= i < tiles@.len() ==> (#[trigger] jobs@[i]).config == *config && jobs@[i].tile
                    == tiles@[i]
        },
{
    let mut i: usize = 0;
    while i < store.rows.len()
        invariant
            i <= store.rows@.len(),
            forall|k: int|
                0 <= k < i ==> !((#[trigger] store.rows@[k]).status
                    is Done && store.rows@[k].job.config.run_id@
                    != config.run_id@),
        decreases store.rows@.len() - i,
    {
        if matches!(store.rows[i].status, JobStatus::Done) && !store.rows[
            i
        ].job.config.run_id.eq(&config.run_id) {
            return Err(Error::ConfigConflict);
        }
        i += 1;
    }
    let mut jobs: Vec<TileJob> = Vec::new();
    let mut t: usize = 0;
    while t < tiles.len()
        invariant
            t <= tiles@.len(),
            jobs@.len() == t,
            forall|i: int|
                0 <= i < t ==> (#[trigger] jobs@[i]).config == *config && jobs@[i].tile
                    == tiles@[i],
        decreases tiles@.len() - t,
    {
        jobs.push(TileJob { config: config.clone(), tile: tiles[t].clone() });
        t += 1;
    }
    Ok(jobs)
}

} // verus!
