//! What a request for a source names: the identifiers of the sources, and
//! the address under which the tiles of the source are found.

use vstd::prelude::*;
use vstd::string::*;
use crate::source::{source_views, CompositeSource, TableSource, TableSourceView};
use crate::text::{has_suffix, views};

verus! {

/// The parts of `s` between the occurrences of `separator`. A text without
/// the separator has one part, the text itself.
pub open spec fn split_on(s: Seq<char>, separator: char) -> Seq<Seq<char>>
    decreases s.len(),
{
    if s.len() == 0 {
        seq![Seq::empty()]
    } else {
        let parts = split_on(s.drop_last(), separator);
        if s.last() == separator {
            parts.push(Seq::empty())
        } else {
            parts.drop_last().push(parts.last().push(s.last()))
        }
    }
}

/// Splits the identifiers of a request for several sources, which are
/// separated by commas.
pub fn split_ids(ids: &str) -> (parts: Vec<String>)
    ensures
        views(parts@) == split_on(ids@, ','),
{
    let mut parts: Vec<String> = Vec::new();
    let mut current: String = String::new();
    let n: usize = ids.unicode_len();
    let mut i: usize = 0;
    assert(ids@.take(0) =~= Seq::<char>::empty());
    assert(views(parts@).push(current@) =~= split_on(ids@.take(0), ','));
    while i < n
        invariant
            i <= n,
            n == ids@.len(),
            views(parts@).push(current@) == split_on(ids@.take(i as int), ','),
        decreases n - i,
    {
        let c: char = ids.get_char(i);
        let ghost done = views(parts@);
        let ghost last = current@;
        proof {
            let next = ids@.take(i + 1);
            assert(next.drop_last() =~= ids@.take(i as int));
            assert(next.last() == c);
            assert(done.push(last).drop_last() =~= done);
        }
        if c == ',' {
            parts.push(current);
            current = String::new();
            assert(views(parts@) =~= done.push(last));
        } else {
            current.push(c);
        }
        i += 1;
    }
    assert(ids@.take(n as int) =~= ids@);
    let ghost done = views(parts@);
    parts.push(current);
    assert(views(parts@) =~= done.push(current@));
    parts
}

/// `path` without the extension `.json` at its end, however often it is
/// repeated there.
pub open spec fn spec_tiles_path(path: Seq<char>) -> Seq<char>
    decreases path.len(),
{
    if has_suffix(path, ".json"@) && ".json"@.len() > 0 {
        spec_tiles_path(path.take(path.len() - ".json"@.len()))
    } else {
        path
    }
}

/// Tests whether the first `n` characters of `path` end in `.json`.
fn ends_in_json(path: &str, n: usize) -> (ends: bool)
    requires
        n <= path@.len(),
    ensures
        ends == has_suffix(path@.take(n as int), ".json"@),
        ".json"@.len() == 5,
{
    proof {
        reveal_strlit(".json");
    }
    let ghost whole = path@.take(n as int);
    if n < 5 {
        return false;
    }
    let ghost tail = whole.subrange(n - 5, n as int);
    let ends: bool = path.get_char(n - 5) == '.' && path.get_char(n - 4) == 'j' && path.get_char(
        n - 3,
    ) == 's' && path.get_char(n - 2) == 'o' && path.get_char(n - 1) == 'n';
    proof {
        assert(tail[0] == path@[n - 5] && tail[1] == path@[n - 4] && tail[2] == path@[n - 3] && tail[3]
            == path@[n - 2] && tail[4] == path@[n - 1]);
        if ends {
            assert(tail =~= ".json"@);
        } else {
            assert(".json"@[0] == '.' && ".json"@[1] == 'j' && ".json"@[2] == 's' && ".json"@[3] == 'o'
                && ".json"@[4] == 'n');
        }
    }
    ends
}

/// The path under which the tiles of a source are found, from the path of
/// the request for its description.
pub fn tiles_path(path: &str) -> (tiles: String)
    ensures
        tiles@ == spec_tiles_path(path@),
{
    let mut n: usize = path.unicode_len();
    assert(path@.take(n as int) =~= path@);
    while ends_in_json(path, n)
        invariant
            n <= path@.len(),
            spec_tiles_path(path@.take(n as int)) == spec_tiles_path(path@),
        decreases n,
    {
        assert(path@.take(n as int).take(n - 5) =~= path@.take(n - 5));
        n = n - 5;
    }
    assert(path@.subrange(0, n as int) =~= path@.take(n as int));
    path.substring_char(0, n).to_owned()
}

/// The address of the tiles of a source, without scheme and host: the path
/// of the source, the pattern of a tile, and the query of the request
/// where it has one.
pub open spec fn spec_tile_address(tiles_path: Seq<char>, query: Seq<char>) -> Seq<char> {
    if query.len() == 0 {
        tiles_path + "/{z}/{x}/{y}.pbf"@
    } else {
        tiles_path + "/{z}/{x}/{y}.pbf"@ + "?"@ + query
    }
}

/// The address of the tiles of a source, without scheme and host.
pub fn tile_address(tiles_path: &str, query: &str) -> (address: String)
    ensures
        address@ == spec_tile_address(tiles_path@, query@),
{
    let mut address: String = tiles_path.to_owned();
    address.append("/{z}/{x}/{y}.pbf");
    if query.unicode_len() > 0 {
        address.append("?");
        address.append(query);
    }
    address
}

/// Position of the first source with the identifier `id`, or the number of
/// sources where none has it.
pub open spec fn position_of_source(sources: Seq<TableSource>, id: Seq<char>) -> int
    decreases sources.len(),
{
    if sources.len() == 0 {
        0
    } else if sources[0].id@ == id {
        0
    } else {
        1 + position_of_source(sources.drop_first(), id)
    }
}

/// The positions of the sources that the identifiers name, in the order of
/// the identifiers. An identifier that names no source is passed over.
pub open spec fn spec_select(sources: Seq<TableSource>, ids: Seq<Seq<char>>) -> Seq<int>
    decreases ids.len(),
{
    if ids.len() == 0 {
        Seq::empty()
    } else if position_of_source(sources, ids.last()) < sources.len() {
        spec_select(sources, ids.drop_last()).push(position_of_source(sources, ids.last()))
    } else {
        spec_select(sources, ids.drop_last())
    }
}

/// `position_of_source` finds the first source with the identifier, where
/// there is one.
pub proof fn lemma_position_of_source(sources: Seq<TableSource>, id: Seq<char>)
    ensures
        0 <= position_of_source(sources, id) <= sources.len(),
        position_of_source(sources, id) < sources.len() ==> sources[position_of_source(
            sources,
            id,
        )].id@ == id,
        forall|i: int| 0 <= i < position_of_source(sources, id) ==> (#[trigger] sources[i]).id@ != id,
    decreases sources.len(),
{
    if sources.len() > 0 && sources[0].id@ != id {
        let rest = sources.drop_first();
        lemma_position_of_source(rest, id);
        assert forall|i: int| 0 <= i < position_of_source(sources, id) implies (
        #[trigger] sources[i]).id@ != id by {
            if i > 0 {
                assert(sources[i] == rest[i - 1]);
            }
        }
    }
}

/// Finds the first source with the identifier `id`.
pub fn find_source(sources: &Vec<TableSource>, id: &str) -> (found: Option<usize>)
    ensures
        match found {
            Some(i) => i == position_of_source(sources@, id@) && i < sources@.len(),
            None => position_of_source(sources@, id@) == sources@.len(),
        },
{
    let mut i: usize = 0;
    while i < sources.len()
        invariant
            i <= sources.len(),
            forall|j: int| 0 <= j < i ==> (#[trigger] sources@[j]).id@ != id@,
        decreases sources.len() - i,
    {
        if sources[i].id.as_str().eq(id) {
            proof {
                lemma_position_of_source(sources@, id@);
            }
            return Some(i);
        }
        i += 1;
    }
    proof {
        lemma_position_of_source(sources@, id@);
    }
    None
}

/// Finds the sources that the identifiers name, in the order of the
/// identifiers.
pub fn select_sources(sources: &Vec<TableSource>, ids: &Vec<String>) -> (picked: Vec<usize>)
    ensures
        picked@.map_values(|i: usize| i as int) == spec_select(sources@, views(ids@)),
{
    let mut picked: Vec<usize> = Vec::new();
    let ghost asked = views(ids@);
    let mut k: usize = 0;
    assert(asked.take(0) =~= Seq::<Seq<char>>::empty());
    assert(picked@.map_values(|i: usize| i as int) =~= Seq::<int>::empty());
    while k < ids.len()
        invariant
            k <= ids.len(),
            asked == views(ids@),
            picked@.map_values(|i: usize| i as int) == spec_select(sources@, asked.take(k as int)),
        decreases ids.len() - k,
    {
        let ghost so_far = picked@.map_values(|i: usize| i as int);
        proof {
            let next = asked.take(k + 1);
            assert(next.drop_last() =~= asked.take(k as int));
            assert(next.last() == ids@[k as int]@);
        }
        match find_source(sources, ids[k].as_str()) {
            Some(i) => {
                picked.push(i);
                assert(picked@.map_values(|i: usize| i as int) =~= so_far.push(i as int));
            },
            None => {},
        }
        k += 1;
    }
    assert(asked.take(ids.len() as int) =~= asked);
    picked
}

/// The sources that a request names, as mathematical values: the sources
/// that the identifiers between the commas of `source_ids` name, in the
/// order of the identifiers.
pub open spec fn spec_selected(sources: Seq<TableSource>, source_ids: Seq<char>) -> Seq<
    TableSourceView,
> {
    spec_select(sources, split_on(source_ids, ',')).map_values(|i: int| sources[i]@)
}

/// Every position that is selected is the position of a source.
pub proof fn lemma_select_in_range(sources: Seq<TableSource>, ids: Seq<Seq<char>>)
    ensures
        forall|k: int|
            0 <= k < spec_select(sources, ids).len() ==> 0 <= (#[trigger] spec_select(sources, ids)[k])
                < sources.len(),
    decreases ids.len(),
{
    if ids.len() > 0 {
        lemma_select_in_range(sources, ids.drop_last());
        lemma_position_of_source(sources, ids.last());
        let picked = spec_select(sources, ids);
        let before = spec_select(sources, ids.drop_last());
        assert forall|k: int| 0 <= k < picked.len() implies 0 <= (#[trigger] picked[k]) < sources.len() by {
            if k < before.len() {
                assert(picked[k] == before[k]);
            }
        }
    }
}

/// The tables that a request names, served as one source under the
/// identifiers as they were given. `None` where the identifiers name no
/// table.
pub fn select(sources: &Vec<TableSource>, source_ids: &str) -> (composite: Option<CompositeSource>)
    ensures
        composite is Some <==> spec_selected(sources@, source_ids@).len() > 0,
        composite matches Some(c) ==> c.id@ == source_ids@ && source_views(c.table_sources@)
            == spec_selected(sources@, source_ids@),
{
    let ids = split_ids(source_ids);
    let picked = select_sources(sources, &ids);
    let ghost wanted = spec_select(sources@, split_on(source_ids@, ','));
    proof {
        lemma_select_in_range(sources@, split_on(source_ids@, ','));
    }
    if picked.len() == 0 {
        return None;
    }
    let mut table_sources: Vec<TableSource> = Vec::new();
    let ghost selected = spec_selected(sources@, source_ids@);
    let mut k: usize = 0;
    assert(source_views(table_sources@) =~= selected.take(0));
    while k < picked.len()
        invariant
            k <= picked.len(),
            wanted == picked@.map_values(|i: usize| i as int),
            selected == wanted.map_values(|i: int| sources@[i]@),
            forall|j: int| 0 <= j < wanted.len() ==> 0 <= #[trigger] wanted[j] < sources@.len(),
            source_views(table_sources@) == selected.take(k as int),
        decreases picked.len() - k,
    {
        let ghost done = source_views(table_sources@);
        assert(wanted[k as int] == picked@[k as int] as int);
        table_sources.push(sources[picked[k]].duplicate());
        proof {
            assert(source_views(table_sources@) =~= done.push(sources@[wanted[k as int]]@));
            assert(selected.take(k + 1) =~= selected.take(k as int).push(selected[k as int]));
        }
        k += 1;
    }
    assert(selected.take(picked.len() as int) =~= selected);
    Some(CompositeSource { id: source_ids.to_owned(), table_sources })
}

} // verus!
