//! Copies a tile archive into an empty file, all of it or the zoom levels
//! that are asked for. The library decides what is done and in what order;
//! its caller talks to the database.

use std::collections::HashSet;
use vstd::prelude::*;
use vstd::std_specs::hash::spec_hash_keys_iter;
use vstd::std_specs::iter::IteratorSpec;
use vstd::string::*;
use crate::copy_run::{CopyAction, CopyActionView, CopyRun, CopyStage};
use crate::mbtiles::Mbtiles;

verus! {

broadcast use vstd::std_specs::hash::group_hash_axioms;

/// Which zoom levels a copy takes.
#[derive(Clone, Debug, PartialEq, Eq)]
pub enum ZoomCondition {
    /// Every zoom level.
    All,
    /// The listed zoom levels.
    OneOf(Vec<u8>),
    /// The zoom levels from the first to the second.
    Between(u8, u8),
    /// The zoom levels from this one up.
    AtLeast(u8),
    /// The zoom levels up to this one.
    AtMost(u8),
}

/// A zoom condition as a mathematical value.
pub enum ZoomConditionView {
    All,
    OneOf(Seq<u8>),
    Between(u8, u8),
    AtLeast(u8),
    AtMost(u8),
}

impl View for ZoomCondition {
    type V = ZoomConditionView;

    open spec fn view(&self) -> ZoomConditionView {
        match self {
            ZoomCondition::All => ZoomConditionView::All,
            ZoomCondition::OneOf(list) => ZoomConditionView::OneOf(list@),
            ZoomCondition::Between(min, max) => ZoomConditionView::Between(*min, *max),
            ZoomCondition::AtLeast(min) => ZoomConditionView::AtLeast(*min),
            ZoomCondition::AtMost(max) => ZoomConditionView::AtMost(*max),
        }
    }
}

/// `n` question marks separated by commas.
pub open spec fn placeholders(n: nat) -> Seq<char>
    decreases n,
{
    if n == 0 {
        Seq::empty()
    } else if n == 1 {
        "?"@
    } else {
        placeholders((n - 1) as nat) + ",?"@
    }
}

impl ZoomConditionView {
    /// Whether the condition takes the zoom level `z`.
    pub open spec fn matches(self, z: u8) -> bool {
        match self {
            ZoomConditionView::All => true,
            ZoomConditionView::OneOf(list) => list.contains(z),
            ZoomConditionView::Between(min, max) => min <= z <= max,
            ZoomConditionView::AtLeast(min) => min <= z,
            ZoomConditionView::AtMost(max) => z <= max,
        }
    }

    /// The condition as the end of an SQL statement, with a question mark
    /// in place of each zoom level.
    pub open spec fn where_sql(self) -> Seq<char> {
        match self {
            ZoomConditionView::All => Seq::empty(),
            ZoomConditionView::OneOf(list) => " WHERE zoom_level IN ("@ + placeholders(list.len())
                + ")"@,
            ZoomConditionView::Between(_, _) => " WHERE zoom_level BETWEEN ? AND ?"@,
            ZoomConditionView::AtLeast(_) => " WHERE zoom_level >= ?"@,
            ZoomConditionView::AtMost(_) => " WHERE zoom_level <= ?"@,
        }
    }

    /// The zoom levels that stand for the question marks, in their order.
    pub open spec fn zoom_params(self) -> Seq<u8> {
        match self {
            ZoomConditionView::All => Seq::empty(),
            ZoomConditionView::OneOf(list) => list,
            ZoomConditionView::Between(min, max) => seq![min, max],
            ZoomConditionView::AtLeast(min) => seq![min],
            ZoomConditionView::AtMost(max) => seq![max],
        }
    }

    /// The statement `sql` restricted by the condition.
    pub open spec fn restrict(self, sql: Seq<char>) -> StatementView {
        StatementView {
            sql: sql + self.where_sql(),
            params: self.zoom_params().map_values(|z: u8| SqlParamView::Zoom(z)),
        }
    }
}

/// The zoom levels among `zoom_levels` that a copy under `condition` takes,
/// one for each tile, in their order.
pub open spec fn spec_copied(zoom_levels: Seq<u8>, condition: ZoomConditionView) -> Seq<u8> {
    zoom_levels.filter(|z: u8| condition.matches(z))
}

/// A value bound to a question mark of an SQL statement.
#[derive(Clone, Debug, PartialEq, Eq)]
pub enum SqlParam {
    Text(String),
    Zoom(u8),
}

/// A bound value as a mathematical value.
pub enum SqlParamView {
    Text(Seq<char>),
    Zoom(u8),
}

impl View for SqlParam {
    type V = SqlParamView;

    open spec fn view(&self) -> SqlParamView {
        match self {
            SqlParam::Text(text) => SqlParamView::Text(text@),
            SqlParam::Zoom(z) => SqlParamView::Zoom(*z),
        }
    }
}

/// An SQL statement with the values bound to its question marks.
#[derive(Clone, Debug, PartialEq, Eq)]
pub struct Statement {
    pub sql: String,
    pub params: Vec<SqlParam>,
}

/// A statement as a mathematical value.
pub struct StatementView {
    pub sql: Seq<char>,
    pub params: Seq<SqlParamView>,
}

/// The bound values of a sequence as mathematical values.
pub open spec fn param_views(params: Seq<SqlParam>) -> Seq<SqlParamView> {
    params.map_values(|p: SqlParam| p@)
}

impl View for Statement {
    type V = StatementView;

    open spec fn view(&self) -> StatementView {
        StatementView { sql: self.sql@, params: param_views(self.params@) }
    }
}

/// The statements of a sequence as mathematical values.
pub open spec fn statement_views(statements: Seq<Statement>) -> Seq<StatementView> {
    statements.map_values(|s: Statement| s@)
}

/// The statement `sql` without bound values.
pub open spec fn plain(sql: Seq<char>) -> StatementView {
    StatementView { sql, params: Seq::empty() }
}

impl Statement {
    /// The statement `sql` without bound values.
    pub fn new(sql: &str) -> (statement: Statement)
        ensures
            statement@ == plain(sql@),
    {
        let statement = Statement { sql: sql.to_owned(), params: Vec::new() };
        assert(param_views(statement.params@) =~= Seq::<SqlParamView>::empty());
        statement
    }
}

impl ZoomCondition {
    /// Tests whether the condition takes the zoom level `z`.
    pub fn matches(&self, z: u8) -> (taken: bool)
        ensures
            taken == self@.matches(z),
    {
        match self {
            ZoomCondition::All => true,
            ZoomCondition::OneOf(list) => {
                let mut i: usize = 0;
                while i < list.len()
                    invariant
                        i <= list.len(),
                        self@ == ZoomConditionView::OneOf(list@),
                        forall|j: int| 0 <= j < i ==> list@[j] != z,
                    decreases list.len() - i,
                {
                    if list[i] == z {
                        assert(list@[i as int] == z);
                        return true;
                    }
                    i += 1;
                }
                false
            },
            ZoomCondition::Between(min, max) => *min <= z && z <= *max,
            ZoomCondition::AtLeast(min) => *min <= z,
            ZoomCondition::AtMost(max) => z <= *max,
        }
    }

    /// Restricts the statement `sql` to the zoom levels that the condition
    /// takes. The zoom levels are bound, never written into the statement.
    pub fn restrict(&self, sql: &str) -> (statement: Statement)
        ensures
            statement@ == self@.restrict(sql@),
    {
        let mut text: String = sql.to_owned();
        let mut params: Vec<SqlParam> = Vec::new();
        let ghost wanted = self@.zoom_params().map_values(|z: u8| SqlParamView::Zoom(z));
        match self {
            ZoomCondition::All => {
                assert(text@ =~= sql@ + self@.where_sql());
            },
            ZoomCondition::OneOf(list) => {
                text.append(" WHERE zoom_level IN (");
                let ghost head = text@;
                let mut i: usize = 0;
                while i < list.len()
                    invariant
                        i <= list.len(),
                        text@ == head + placeholders(i as nat),
                        param_views(params@) == wanted.take(i as int),
                        wanted.len() == list.len(),
                        forall|j: int| 0 <= j < list.len() ==> wanted[j] == SqlParamView::Zoom(list@[j]),
                    decreases list.len() - i,
                {
                    if i == 0 {
                        text.append("?");
                        assert(text@ =~= head + placeholders(1));
                    } else {
                        text.append(",?");
                        assert(text@ =~= head + placeholders((i + 1) as nat));
                    }
                    let ghost bound = param_views(params@);
                    params.push(SqlParam::Zoom(list[i]));
                    assert(param_views(params@) =~= bound.push(SqlParamView::Zoom(list@[i as int])));
                    assert(wanted.take(i + 1) =~= wanted.take(i as int).push(wanted[i as int]));
                    i += 1;
                }
                text.append(")");
                assert(wanted.take(list.len() as int) =~= wanted);
                assert(text@ =~= sql@ + self@.where_sql());
            },
            ZoomCondition::Between(min, max) => {
                text.append(" WHERE zoom_level BETWEEN ? AND ?");
                params.push(SqlParam::Zoom(*min));
                params.push(SqlParam::Zoom(*max));
            },
            ZoomCondition::AtLeast(min) => {
                text.append(" WHERE zoom_level >= ?");
                params.push(SqlParam::Zoom(*min));
            },
            ZoomCondition::AtMost(max) => {
                text.append(" WHERE zoom_level <= ?");
                params.push(SqlParam::Zoom(*max));
            },
        }
        assert(param_views(params@) =~= wanted);
        Statement { sql: text, params }
    }

    /// A copy of the condition.
    pub fn duplicate(&self) -> (copy: ZoomCondition)
        ensures
            copy@ == self@,
    {
        match self {
            ZoomCondition::All => ZoomCondition::All,
            ZoomCondition::OneOf(list) => ZoomCondition::OneOf(list.clone()),
            ZoomCondition::Between(min, max) => ZoomCondition::Between(*min, *max),
            ZoomCondition::AtLeast(min) => ZoomCondition::AtLeast(*min),
            ZoomCondition::AtMost(max) => ZoomCondition::AtMost(*max),
        }
    }
}

/// What to copy.
#[derive(Debug)]
pub struct TileCopierOptions {
    zooms: HashSet<u8>,
    min_zoom: Option<u8>,
    max_zoom: Option<u8>,
    verbose: bool,
}

impl TileCopierOptions {
    /// The zoom levels asked for one by one.
    pub closed spec fn spec_zooms(&self) -> Set<u8> {
        self.zooms@
    }

    /// The least zoom level asked for.
    pub closed spec fn spec_min_zoom(&self) -> Option<u8> {
        self.min_zoom
    }

    /// The largest zoom level asked for.
    pub closed spec fn spec_max_zoom(&self) -> Option<u8> {
        self.max_zoom
    }

    /// Whether the copy reports what it does.
    pub closed spec fn spec_verbose(&self) -> bool {
        self.verbose
    }

    /// Whether a copy with these options takes the tiles of zoom level `z`.
    /// Zoom levels asked for one by one go before a range; a range may be
    /// open at either end; where nothing is asked for, everything is taken.
    pub open spec fn selects(&self, z: u8) -> bool {
        if !self.spec_zooms().is_empty() {
            self.spec_zooms().contains(z)
        } else {
            match (self.spec_min_zoom(), self.spec_max_zoom()) {
                (Some(min), Some(max)) => min <= z <= max,
                (Some(min), None) => min <= z,
                (None, Some(max)) => z <= max,
                (None, None) => true,
            }
        }
    }

    /// The options say the same as the condition.
    pub open spec fn agrees_with(&self, condition: ZoomConditionView) -> bool {
        if !self.spec_zooms().is_empty() {
            &&& condition matches ZoomConditionView::OneOf(list)
            &&& list.to_set() == self.spec_zooms()
            &&& list.no_duplicates()
        } else {
            condition == match (self.spec_min_zoom(), self.spec_max_zoom()) {
                (Some(min), Some(max)) => ZoomConditionView::Between(min, max),
                (Some(min), None) => ZoomConditionView::AtLeast(min),
                (None, Some(max)) => ZoomConditionView::AtMost(max),
                (None, None) => ZoomConditionView::All,
            }
        }
    }

    /// Options that ask for everything.
    pub fn new() -> (options: TileCopierOptions)
        ensures
            options.spec_zooms() == Set::<u8>::empty(),
            options.spec_min_zoom() is None,
            options.spec_max_zoom() is None,
            !options.spec_verbose(),
    {
        TileCopierOptions { zooms: HashSet::new(), min_zoom: None, max_zoom: None, verbose: false }
    }

    /// Asks for each of the given zoom levels, besides those asked for
    /// before.
    pub fn zooms(self, zooms: Vec<u8>) -> (options: TileCopierOptions)
        ensures
            options.spec_zooms() == self.spec_zooms().union(zooms@.to_set()),
            options.spec_min_zoom() == self.spec_min_zoom(),
            options.spec_max_zoom() == self.spec_max_zoom(),
            options.spec_verbose() == self.spec_verbose(),
    {
        let mut options = self;
        let mut i: usize = 0;
        while i < zooms.len()
            invariant
                i <= zooms.len(),
                options.zooms@ == self.zooms@.union(zooms@.take(i as int).to_set()),
                options.min_zoom == self.min_zoom,
                options.max_zoom == self.max_zoom,
                options.verbose == self.verbose,
            decreases zooms.len() - i,
        {
            options.zooms.insert(zooms[i]);
            proof {
                let before = zooms@.take(i as int);
                let after = zooms@.take(i + 1);
                assert(after =~= before.push(zooms@[i as int]));
                assert(after.to_set() =~= before.to_set().insert(zooms@[i as int])) by {
                    assert forall|z: u8| after.to_set().contains(z) implies before.to_set().insert(
                        zooms@[i as int],
                    ).contains(z) by {
                        let at = choose|at: int| 0 <= at < after.len() && after[at] == z;
                        if at < i {
                            assert(before[at] == z);
                        }
                    }
                    assert forall|z: u8|
                        before.to_set().insert(zooms@[i as int]).contains(z) implies after.to_set().contains(
                        z,
                    ) by {
                        if z == zooms@[i as int] {
                            assert(after[i as int] == z);
                        } else {
                            let at = choose|at: int| 0 <= at < before.len() && before[at] == z;
                            assert(after[at] == z);
                        }
                    }
                }
                assert(options.zooms@ =~= self.zooms@.union(after.to_set()));
            }
            i += 1;
        }
        assert(zooms@.take(zooms.len() as int) =~= zooms@);
        options
    }

    /// Asks for the zoom levels from `min_zoom` up, or for no least level.
    pub fn min_zoom(self, min_zoom: Option<u8>) -> (options: TileCopierOptions)
        ensures
            options.spec_min_zoom() == min_zoom,
            options.spec_zooms() == self.spec_zooms(),
            options.spec_max_zoom() == self.spec_max_zoom(),
            options.spec_verbose() == self.spec_verbose(),
    {
        let mut options = self;
        options.min_zoom = min_zoom;
        options
    }

    /// Asks for the zoom levels up to `max_zoom`, or for no largest level.
    pub fn max_zoom(self, max_zoom: Option<u8>) -> (options: TileCopierOptions)
        ensures
            options.spec_max_zoom() == max_zoom,
            options.spec_zooms() == self.spec_zooms(),
            options.spec_min_zoom() == self.spec_min_zoom(),
            options.spec_verbose() == self.spec_verbose(),
    {
        let mut options = self;
        options.max_zoom = max_zoom;
        options
    }

    /// Says whether the copy reports what it does.
    pub fn verbose(self, verbose: bool) -> (options: TileCopierOptions)
        ensures
            options.spec_verbose() == verbose,
            options.spec_zooms() == self.spec_zooms(),
            options.spec_min_zoom() == self.spec_min_zoom(),
            options.spec_max_zoom() == self.spec_max_zoom(),
    {
        let mut options = self;
        options.verbose = verbose;
        options
    }

    /// Whether the copy reports what it does.
    pub fn is_verbose(&self) -> (verbose: bool)
        ensures
            verbose == self.spec_verbose(),
    {
        self.verbose
    }

    /// The condition that the options amount to. The zoom levels asked for
    /// one by one are listed once each, in no order that can be relied on.
    pub fn condition(&self) -> (condition: ZoomCondition)
        ensures
            self.agrees_with(condition@),
            forall|z: u8| condition@.matches(z) == self.selects(z),
    {
        if !self.zooms.is_empty() {
            let mut list: Vec<u8> = Vec::new();
            for z in it: self.zooms.iter()
                invariant
                    it.seq() == spec_hash_keys_iter(&self.zooms).remaining(),
                    list@ == it.seq().take(it.index()).unref(),
            {
                list.push(*z);
            }
            assert(list@ =~= spec_hash_keys_iter(&self.zooms).remaining().unref());
            assert(list@.no_duplicates()) by {
                let keys = spec_hash_keys_iter(&self.zooms).remaining();
                assert forall|i: int, j: int| 0 <= i < j < list@.len() implies list@[i] != list@[j] by {
                    assert(keys[i] != keys[j]);
                }
            }
            ZoomCondition::OneOf(list)
        } else {
            match (self.min_zoom, self.max_zoom) {
                (Some(min), Some(max)) => ZoomCondition::Between(min, max),
                (Some(min), None) => ZoomCondition::AtLeast(min),
                (None, Some(max)) => ZoomCondition::AtMost(max),
                (None, None) => ZoomCondition::All,
            }
        }
    }
}

impl Clone for TileCopierOptions {
    fn clone(&self) -> (copy: TileCopierOptions)
        ensures
            copy.spec_zooms() == self.spec_zooms(),
            copy.spec_min_zoom() == self.spec_min_zoom(),
            copy.spec_max_zoom() == self.spec_max_zoom(),
            copy.spec_verbose() == self.spec_verbose(),
    {
        let mut zooms: HashSet<u8> = HashSet::new();
        for z in it: self.zooms.iter()
            invariant
                it.seq() == spec_hash_keys_iter(&self.zooms).remaining(),
                zooms@ == it.seq().take(it.index()).unref().to_set(),
        {
            let ghost before = it.seq().take(it.index()).unref();
            zooms.insert(*z);
            proof {
                let after = it.seq().take(it.index() + 1).unref();
                assert(after =~= before.push(*z));
                assert(after.to_set() =~= before.to_set().insert(*z)) by {
                    assert forall|v: u8| after.to_set().contains(v) implies before.to_set().insert(
                        *z,
                    ).contains(v) by {
                        let at = choose|at: int| 0 <= at < after.len() && after[at] == v;
                        if at < before.len() {
                            assert(before[at] == v);
                        }
                    }
                    assert forall|v: u8| before.to_set().insert(*z).contains(v) implies after.to_set().contains(
                        v,
                    ) by {
                        if v == *z {
                            assert(after[before.len() as int] == v);
                        } else {
                            let at = choose|at: int| 0 <= at < before.len() && before[at] == v;
                            assert(after[at] == v);
                        }
                    }
                }
            }
        }
        assert(zooms@ =~= self.zooms@) by {
            let keys = spec_hash_keys_iter(&self.zooms).remaining();
            assert(keys.take(keys.len() as int) =~= keys);
        }
        TileCopierOptions {
            zooms,
            min_zoom: self.min_zoom,
            max_zoom: self.max_zoom,
            verbose: self.verbose,
        }
    }
}

impl Default for TileCopierOptions {
    fn default() -> (options: TileCopierOptions)
        ensures
            options.spec_zooms() == Set::<u8>::empty(),
            options.spec_min_zoom() is None,
            options.spec_max_zoom() is None,
            !options.spec_verbose(),
    {
        TileCopierOptions::new()
    }
}

/// Copies a tile archive into a file.
#[derive(Debug)]
pub struct TileCopier {
    src_mbtiles: Mbtiles,
    dst_filepath: String,
    options: TileCopierOptions,
}

impl TileCopier {
    /// Path of the archive to copy.
    pub closed spec fn spec_src(&self) -> Seq<char> {
        self.src_mbtiles.spec_filepath()
    }

    /// Path of the file to copy into.
    pub closed spec fn spec_dst(&self) -> Seq<char> {
        self.dst_filepath@
    }

    /// What to copy.
    pub closed spec fn spec_options(&self) -> TileCopierOptions {
        self.options
    }

    /// A copier of the archive at `src_filepath` into the file at
    /// `dst_filepath`.
    pub fn new(src_filepath: &str, dst_filepath: &str, options: TileCopierOptions) -> (copier:
        TileCopier)
        ensures
            copier.spec_src() == src_filepath@,
            copier.spec_dst() == dst_filepath@,
            copier.spec_options() == options,
    {
        TileCopier {
            src_mbtiles: Mbtiles::new(src_filepath),
            dst_filepath: dst_filepath.to_owned(),
            options,
        }
    }

    /// Starts the copy: gives the run and the action that it starts with.
    /// The run takes the zoom levels that the options select.
    pub fn start(self) -> (started: (CopyRun, CopyAction))
        ensures
            started.0@.src == self.spec_src(),
            started.0@.dst == self.spec_dst(),
            started.0@.stage == CopyStage::ReadingSource,
            started.0@.queue == Seq::<StatementView>::empty(),
            self.spec_options().agrees_with(started.0@.condition),
            forall|z: u8| started.0@.condition.matches(z) == self.spec_options().selects(z),
            started.1@ == CopyActionView::ReadSourceSchema(self.spec_src()),
    {
        let condition = self.options.condition();
        CopyRun::new(self.src_mbtiles.filepath(), self.dst_filepath.as_str(), condition)
    }
}

/// A copy that asks for no zoom level takes every tile.
pub proof fn lemma_copy_without_filter(options: TileCopierOptions, condition: ZoomConditionView, zoom_levels: Seq<u8>)
    requires
        options.spec_zooms().is_empty(),
        options.spec_min_zoom() is None,
        options.spec_max_zoom() is None,
        options.agrees_with(condition),
    ensures
        forall|z: u8| options.selects(z),
        spec_copied(zoom_levels, condition) == zoom_levels,
        spec_copied(zoom_levels, condition).len() == zoom_levels.len(),
{
    lemma_filter_all(zoom_levels, condition);
}

/// A filter that takes everything changes nothing.
proof fn lemma_filter_all(zoom_levels: Seq<u8>, condition: ZoomConditionView)
    requires
        condition == ZoomConditionView::All,
    ensures
        spec_copied(zoom_levels, condition) == zoom_levels,
    decreases zoom_levels.len(),
{
    reveal(Seq::filter);
    if zoom_levels.len() > 0 {
        lemma_filter_all(zoom_levels.drop_last(), condition);
        assert(zoom_levels.drop_last().push(zoom_levels.last()) =~= zoom_levels);
    }
}

/// A copy that asks for the zoom levels from `min` to `max`, and for none
/// one by one, takes the tiles of those zoom levels and no others.
pub proof fn lemma_copy_between(
    options: TileCopierOptions,
    condition: ZoomConditionView,
    zoom_levels: Seq<u8>,
    min: u8,
    max: u8,
)
    requires
        options.spec_zooms().is_empty(),
        options.spec_min_zoom() == Some(min),
        options.spec_max_zoom() == Some(max),
        options.agrees_with(condition),
    ensures
        forall|z: u8| options.selects(z) <==> min <= z <= max,
        forall|i: int|
            0 <= i < spec_copied(zoom_levels, condition).len() ==> min <= #[trigger] spec_copied(
                zoom_levels,
                condition,
            )[i] <= max,
        forall|i: int|
            0 <= i < zoom_levels.len() && min <= zoom_levels[i] <= max ==> spec_copied(
                zoom_levels,
                condition,
            ).contains(#[trigger] zoom_levels[i]),
{
    let taken = |z: u8| condition.matches(z);
    assert forall|i: int| 0 <= i < spec_copied(zoom_levels, condition).len() implies min
        <= #[trigger] spec_copied(zoom_levels, condition)[i] <= max by {
        zoom_levels.lemma_filter_pred(taken, i);
    }
    assert forall|i: int| 0 <= i < zoom_levels.len() && min <= zoom_levels[i] <= max implies spec_copied(
        zoom_levels,
        condition,
    ).contains(#[trigger] zoom_levels[i]) by {
        zoom_levels.lemma_filter_contains_rev(taken, zoom_levels[i]);
    }
}

/// Zoom levels asked for one by one go before a range: the copy takes the
/// tiles of the listed zoom levels and no others, whatever range is set.
pub proof fn lemma_copy_listed(options: TileCopierOptions, condition: ZoomConditionView, zoom_levels: Seq<u8>)
    requires
        !options.spec_zooms().is_empty(),
        options.agrees_with(condition),
    ensures
        forall|z: u8| options.selects(z) <==> options.spec_zooms().contains(z),
        forall|z: u8| condition.matches(z) <==> options.spec_zooms().contains(z),
        forall|i: int|
            0 <= i < spec_copied(zoom_levels, condition).len() ==> options.spec_zooms().contains(
                #[trigger] spec_copied(zoom_levels, condition)[i],
            ),
{
    let taken = |z: u8| condition.matches(z);
    assert forall|z: u8| condition.matches(z) <==> options.spec_zooms().contains(z) by {
        let list = condition->OneOf_0;
        assert(list.to_set().contains(z) <==> list.contains(z));
    }
    assert forall|i: int| 0 <= i < spec_copied(zoom_levels, condition).len() implies options.spec_zooms().contains(
        #[trigger] spec_copied(zoom_levels, condition)[i],
    ) by {
        zoom_levels.lemma_filter_pred(taken, i);
    }
}

} // verus!
