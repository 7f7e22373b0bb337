//! The steps of one copy of a tile archive. The run names an action; its
//! caller performs it on the database and reports what came of it; the run
//! then names the next action, until the copy is done or has failed.

use vstd::prelude::*;
use vstd::string::*;
use crate::mbtiles::{
    detect_type, schema_view, spec_detect_type, MbtError, MbtErrorView, MbtType, TableSchema,
    TableSchemaView,
};
use crate::text::views;
use crate::tile_copier::{
    param_views, plain, statement_views, SqlParam, SqlParamView, Statement, StatementView,
    ZoomCondition, ZoomConditionView,
};

verus! {

/// How far a copy has come.
#[derive(Clone, Copy, Debug, PartialEq, Eq, Hash, Structural)]
pub enum CopyStage {
    /// The schema of the source is being read.
    ReadingSource,
    /// The target is being tested for content. The source has this layout.
    ProbingTarget(MbtType),
    /// The target is being prepared and the source attached to it.
    Preparing(MbtType),
    /// The statements that made the tables of the source are being read.
    ReadingSchema(MbtType),
    /// Tables are being made in the target and filled.
    Copying,
    /// Nothing is left to do.
    Finished,
}

/// What the caller is to do next.
#[derive(Clone, Debug, PartialEq, Eq)]
pub enum CopyAction {
    /// Open the file at this path for reading only, and report the tables
    /// and views of its schema.
    ReadSourceSchema(String),
    /// Open the file at this path, making it where there is none, run the
    /// query on it and report whether it gave a row. All later statements
    /// run on this file.
    ProbeTarget(String, Statement),
    /// Run the statement and report that it ran.
    Execute(Statement),
    /// Run the query and report the first column of each of its rows.
    ReadSchema(Statement),
    /// Nothing: the copy is done.
    Done,
    /// Nothing: the copy has failed.
    Failed(MbtError),
    /// Nothing: what was reported answers no action of this run. The run
    /// has ended.
    Unexpected,
}

/// An action as a mathematical value.
pub enum CopyActionView {
    ReadSourceSchema(Seq<char>),
    ProbeTarget(Seq<char>, StatementView),
    Execute(StatementView),
    ReadSchema(StatementView),
    Done,
    Failed(MbtErrorView),
    Unexpected,
}

impl View for CopyAction {
    type V = CopyActionView;

    open spec fn view(&self) -> CopyActionView {
        match self {
            CopyAction::ReadSourceSchema(path) => CopyActionView::ReadSourceSchema(path@),
            CopyAction::ProbeTarget(path, query) => CopyActionView::ProbeTarget(path@, query@),
            CopyAction::Execute(statement) => CopyActionView::Execute(statement@),
            CopyAction::ReadSchema(query) => CopyActionView::ReadSchema(query@),
            CopyAction::Done => CopyActionView::Done,
            CopyAction::Failed(error) => CopyActionView::Failed(error@),
            CopyAction::Unexpected => CopyActionView::Unexpected,
        }
    }
}

/// What came of an action.
#[derive(Clone, Debug, PartialEq, Eq)]
pub enum CopyEvent {
    /// The tables and views of the source.
    SourceSchema(Vec<TableSchema>),
    /// Whether the probe of the target gave a row.
    TargetProbed(bool),
    /// The statement ran.
    Executed,
    /// The statements that made the tables of the source.
    SchemaRead(Vec<String>),
}

/// An event as a mathematical value.
pub enum CopyEventView {
    SourceSchema(Seq<TableSchemaView>),
    TargetProbed(bool),
    Executed,
    SchemaRead(Seq<Seq<char>>),
}

impl View for CopyEvent {
    type V = CopyEventView;

    open spec fn view(&self) -> CopyEventView {
        match self {
            CopyEvent::SourceSchema(schema) => CopyEventView::SourceSchema(schema_view(schema@)),
            CopyEvent::TargetProbed(has_rows) => CopyEventView::TargetProbed(*has_rows),
            CopyEvent::Executed => CopyEventView::Executed,
            CopyEvent::SchemaRead(ddl) => CopyEventView::SchemaRead(views(ddl@)),
        }
    }
}

/// The query that gives a row exactly where the schema of a database holds
/// anything.
pub open spec fn probe_statement() -> StatementView {
    plain("SELECT 1 FROM sqlite_schema LIMIT 1"@)
}

/// The statements that prepare the target and attach the source to it under
/// the name `sourceDb`.
pub open spec fn setup_statements(src: Seq<char>) -> Seq<StatementView> {
    seq![
        plain("PRAGMA page_size = 512"@),
        plain("VACUUM"@),
        StatementView {
            sql: "ATTACH DATABASE ? AS sourceDb"@,
            params: seq![SqlParamView::Text(src)],
        },
    ]
}

/// The query for the statements that made the tables of the source.
pub open spec fn schema_statement() -> StatementView {
    plain(
        "SELECT sql FROM sourceDb.sqlite_schema WHERE tbl_name IN ('metadata', 'tiles', 'map', 'images')"@,
    )
}

/// The statements that made the tables of the source, as statements to run.
pub open spec fn ddl_statements(ddl: Seq<Seq<char>>) -> Seq<StatementView> {
    ddl.map_values(|sql: Seq<char>| plain(sql))
}

/// The statements that fill the tables of the target: the metadata as it
/// is, then the tiles that the condition takes. In a deduplicated archive
/// those are the rows of `map` that the condition takes, and then each
/// content that a row of the target's `map` names, once, however many rows
/// name it.
pub open spec fn copy_statements(layout: MbtType, condition: ZoomConditionView) -> Seq<StatementView> {
    match layout {
        MbtType::TileTables => seq![
            plain("INSERT INTO metadata SELECT * FROM sourceDb.metadata"@),
            condition.restrict("INSERT INTO tiles SELECT * FROM sourceDb.tiles"@),
        ],
        MbtType::DeDuplicated => seq![
            plain("INSERT INTO metadata SELECT * FROM sourceDb.metadata"@),
            condition.restrict("INSERT INTO map SELECT * FROM sourceDb.map"@),
            plain(
                "INSERT INTO images (tile_id, tile_data) SELECT tile_id, tile_data FROM sourceDb.images WHERE tile_id IN (SELECT tile_id FROM map)"@,
            ),
        ],
    }
}

/// A run of a copy as a mathematical value.
pub struct CopyRunView {
    /// Path of the source.
    pub src: Seq<char>,
    /// Path of the target.
    pub dst: Seq<char>,
    pub condition: ZoomConditionView,
    pub stage: CopyStage,
    /// The statements of this stage that are still to run, the next first.
    pub queue: Seq<StatementView>,
}

impl CopyRunView {
    /// The run as it ends, with the action that tells why.
    pub open spec fn end(self, action: CopyActionView) -> (CopyRunView, CopyActionView) {
        (CopyRunView { stage: CopyStage::Finished, queue: Seq::empty(), ..self }, action)
    }

    /// Goes on with the stage: runs the next statement of the queue, or
    /// leaves the stage where the queue is empty.
    pub open spec fn advance(self) -> (CopyRunView, CopyActionView) {
        if self.queue.len() > 0 {
            (
                CopyRunView { queue: self.queue.drop_first(), ..self },
                CopyActionView::Execute(self.queue[0]),
            )
        } else {
            match self.stage {
                CopyStage::Preparing(layout) => (
                    CopyRunView { stage: CopyStage::ReadingSchema(layout), ..self },
                    CopyActionView::ReadSchema(schema_statement()),
                ),
                _ => self.end(CopyActionView::Done),
            }
        }
    }

    /// The run after an event, and the action that it names then.
    ///
    /// The source must show one of the two layouts and the target must be
    /// empty; else the copy fails. The target is then prepared, the tables
    /// of the source are made in it, and they are filled.
    pub open spec fn step(self, event: CopyEventView) -> (CopyRunView, CopyActionView) {
        match (self.stage, event) {
            (CopyStage::ReadingSource, CopyEventView::SourceSchema(schema)) => match spec_detect_type(
                schema,
            ) {
                Some(layout) => (
                    CopyRunView { stage: CopyStage::ProbingTarget(layout), ..self },
                    CopyActionView::ProbeTarget(self.dst, probe_statement()),
                ),
                None => self.end(CopyActionView::Failed(MbtErrorView::InvalidDataFormat(self.src))),
            },
            (CopyStage::ProbingTarget(layout), CopyEventView::TargetProbed(has_rows)) => if has_rows {
                self.end(CopyActionView::Failed(MbtErrorView::NonEmptyTargetFile(self.dst)))
            } else {
                (CopyRunView {
                    stage: CopyStage::Preparing(layout),
                    queue: setup_statements(self.src),
                    ..self
                }).advance()
            },
            (CopyStage::Preparing(_), CopyEventView::Executed) => self.advance(),
            (CopyStage::ReadingSchema(layout), CopyEventView::SchemaRead(ddl)) => (CopyRunView {
                stage: CopyStage::Copying,
                queue: ddl_statements(ddl) + copy_statements(layout, self.condition),
                ..self
            }).advance(),
            (CopyStage::Copying, CopyEventView::Executed) => self.advance(),
            _ => self.end(CopyActionView::Unexpected),
        }
    }

    /// The run after `n` statements have run.
    pub open spec fn after_executed(self, n: nat) -> CopyRunView
        decreases n,
    {
        if n == 0 {
            self
        } else {
            self.after_executed((n - 1) as nat).step(CopyEventView::Executed).0
        }
    }
}

/// While statements run, the run names the statements of its queue one
/// after the other, each once, and leaves the stage after the last.
pub proof fn lemma_queue_runs_in_order(run: CopyRunView, n: nat)
    requires
        run.stage is Preparing || run.stage is Copying,
        n <= run.queue.len(),
    ensures
        run.after_executed(n).stage == run.stage,
        run.after_executed(n).queue == run.queue.skip(n as int),
        run.after_executed(n).src == run.src,
        run.after_executed(n).dst == run.dst,
        run.after_executed(n).condition == run.condition,
        n < run.queue.len() ==> run.after_executed(n).step(CopyEventView::Executed).1
            == CopyActionView::Execute(run.queue[n as int]),
        n == run.queue.len() ==> run.after_executed(n).step(CopyEventView::Executed).1 == match run.stage {
            CopyStage::Preparing(_) => CopyActionView::ReadSchema(schema_statement()),
            _ => CopyActionView::Done,
        },
    decreases n,
{
    if n > 0 {
        lemma_queue_runs_in_order(run, (n - 1) as nat);
        let before = run.after_executed((n - 1) as nat);
        assert(before.queue.drop_first() =~= run.queue.skip(n as int));
    } else {
        assert(run.queue.skip(0) =~= run.queue);
    }
}

/// A copy into a target that holds anything fails, and runs no statement.
pub proof fn lemma_target_must_be_empty(run: CopyRunView, layout: MbtType)
    requires
        run.stage == CopyStage::ProbingTarget(layout),
    ensures
        run.step(CopyEventView::TargetProbed(true)).1 == CopyActionView::Failed(
            MbtErrorView::NonEmptyTargetFile(run.dst),
        ),
        run.step(CopyEventView::TargetProbed(true)).0.stage == CopyStage::Finished,
        run.step(CopyEventView::TargetProbed(false)).1 == CopyActionView::Execute(
            setup_statements(run.src)[0],
        ),
{
}

/// A run of a copy.
#[derive(Debug)]
pub struct CopyRun {
    src: String,
    dst: String,
    condition: ZoomCondition,
    stage: CopyStage,
    queue: Vec<Statement>,
}

impl View for CopyRun {
    type V = CopyRunView;

    closed spec fn view(&self) -> CopyRunView {
        CopyRunView {
            src: self.src@,
            dst: self.dst@,
            condition: self.condition@,
            stage: self.stage,
            queue: statement_views(self.queue@),
        }
    }
}

/// The statements that prepare the target.
fn make_setup_statements(src: &str) -> (statements: Vec<Statement>)
    ensures
        statement_views(statements@) == setup_statements(src@),
{
    let mut statements: Vec<Statement> = Vec::new();
    statements.push(Statement::new("PRAGMA page_size = 512"));
    statements.push(Statement::new("VACUUM"));
    let mut params: Vec<SqlParam> = Vec::new();
    params.push(SqlParam::Text(src.to_owned()));
    let attach = Statement { sql: "ATTACH DATABASE ? AS sourceDb".to_owned(), params };
    assert(param_views(attach.params@) =~= seq![SqlParamView::Text(src@)]);
    statements.push(attach);
    assert(statement_views(statements@) =~= setup_statements(src@));
    statements
}

/// The statements that make the tables of the target and fill them.
fn make_copy_queue(ddl: &Vec<String>, layout: MbtType, condition: &ZoomCondition) -> (statements: Vec<
    Statement,
>)
    ensures
        statement_views(statements@) == ddl_statements(views(ddl@)) + copy_statements(
            layout,
            condition@,
        ),
{
    let mut statements: Vec<Statement> = Vec::new();
    let ghost made = ddl_statements(views(ddl@));
    let mut i: usize = 0;
    while i < ddl.len()
        invariant
            i <= ddl.len(),
            made == ddl_statements(views(ddl@)),
            statement_views(statements@) == made.take(i as int),
        decreases ddl.len() - i,
    {
        let ghost so_far = statement_views(statements@);
        statements.push(Statement::new(ddl[i].as_str()));
        assert(statement_views(statements@) =~= so_far.push(plain(ddl@[i as int]@)));
        assert(made.take(i + 1) =~= made.take(i as int).push(made[i as int]));
        i += 1;
    }
    assert(made.take(ddl.len() as int) =~= made);
    let ghost tables = statement_views(statements@);
    statements.push(Statement::new("INSERT INTO metadata SELECT * FROM sourceDb.metadata"));
    match layout {
        MbtType::TileTables => {
            statements.push(condition.restrict("INSERT INTO tiles SELECT * FROM sourceDb.tiles"));
        },
        MbtType::DeDuplicated => {
            statements.push(condition.restrict("INSERT INTO map SELECT * FROM sourceDb.map"));
            statements.push(
                Statement::new(
                    "INSERT INTO images (tile_id, tile_data) SELECT tile_id, tile_data FROM sourceDb.images WHERE tile_id IN (SELECT tile_id FROM map)",
                ),
            );
        },
    }
    assert(statement_views(statements@) =~= tables + copy_statements(layout, condition@));
    statements
}

impl CopyRun {
    /// A run that copies the archive at `src` into the file at `dst`, with
    /// the action that it starts with.
    pub fn new(src: &str, dst: &str, condition: ZoomCondition) -> (started: (CopyRun, CopyAction))
        ensures
            started.0@ == (CopyRunView {
                src: src@,
                dst: dst@,
                condition: condition@,
                stage: CopyStage::ReadingSource,
                queue: Seq::empty(),
            }),
            started.1@ == CopyActionView::ReadSourceSchema(src@),
    {
        let run = CopyRun {
            src: src.to_owned(),
            dst: dst.to_owned(),
            condition,
            stage: CopyStage::ReadingSource,
            queue: Vec::new(),
        };
        assert(statement_views(run.queue@) =~= Seq::<StatementView>::empty());
        (run, CopyAction::ReadSourceSchema(src.to_owned()))
    }

    /// Whether the run has ended.
    pub fn is_finished(&self) -> (finished: bool)
        ensures
            finished == (self@.stage == CopyStage::Finished),
    {
        match self.stage {
            CopyStage::Finished => true,
            _ => false,
        }
    }

    /// Ends the run.
    fn end(&mut self, action: CopyAction) -> (named: CopyAction)
        ensures
            (final(self)@, named@) == old(self)@.end(action@),
    {
        self.stage = CopyStage::Finished;
        self.queue = Vec::new();
        assert(statement_views(self.queue@) =~= Seq::<StatementView>::empty());
        action
    }

    /// Goes on with the stage.
    fn advance(&mut self) -> (action: CopyAction)
        ensures
            (final(self)@, action@) == old(self)@.advance(),
    {
        if self.queue.len() > 0 {
            let ghost queued = statement_views(self.queue@);
            let statement = self.queue.remove(0);
            assert(statement_views(self.queue@) =~= queued.drop_first());
            assert(statement@ == queued[0]);
            CopyAction::Execute(statement)
        } else {
            assert(statement_views(self.queue@) =~= Seq::<StatementView>::empty());
            match self.stage {
                CopyStage::Preparing(layout) => {
                    self.stage = CopyStage::ReadingSchema(layout);
                    CopyAction::ReadSchema(
                        Statement::new(
                            "SELECT sql FROM sourceDb.sqlite_schema WHERE tbl_name IN ('metadata', 'tiles', 'map', 'images')",
                        ),
                    )
                },
                _ => self.end(CopyAction::Done),
            }
        }
    }

    /// Takes what came of the last action, and names the next action.
    pub fn step(&mut self, event: CopyEvent) -> (action: CopyAction)
        ensures
            (final(self)@, action@) == old(self)@.step(event@),
    {
        match (self.stage, event) {
            (CopyStage::ReadingSource, CopyEvent::SourceSchema(schema)) => {
                match detect_type(&schema) {
                    Some(layout) => {
                        self.stage = CopyStage::ProbingTarget(layout);
                        CopyAction::ProbeTarget(
                            self.dst.clone(),
                            Statement::new("SELECT 1 FROM sqlite_schema LIMIT 1"),
                        )
                    },
                    None => {
                        let error = MbtError::InvalidDataFormat(self.src.clone());
                        self.end(CopyAction::Failed(error))
                    },
                }
            },
            (CopyStage::ProbingTarget(layout), CopyEvent::TargetProbed(has_rows)) => {
                if has_rows {
                    let error = MbtError::NonEmptyTargetFile(self.dst.clone());
                    self.end(CopyAction::Failed(error))
                } else {
                    self.stage = CopyStage::Preparing(layout);
                    self.queue = make_setup_statements(self.src.as_str());
                    self.advance()
                }
            },
            (CopyStage::Preparing(_), CopyEvent::Executed) => self.advance(),
            (CopyStage::ReadingSchema(layout), CopyEvent::SchemaRead(ddl)) => {
                self.stage = CopyStage::Copying;
                self.queue = make_copy_queue(&ddl, layout, &self.condition);
                self.advance()
            },
            (CopyStage::Copying, CopyEvent::Executed) => self.advance(),
            _ => self.end(CopyAction::Unexpected),
        }
    }
}

} // verus!
