use martin::copy_run::{CopyAction, CopyEvent, CopyRun};
use martin::mbtiles::{MbtError, TableSchema};
use martin::tile_copier::{SqlParam, Statement, TileCopier, TileCopierOptions, ZoomCondition};

const TILES_DDL: &str = "CREATE TABLE tiles (zoom_level integer, tile_column integer, tile_row integer, tile_data blob)";
const METADATA_DDL: &str = "CREATE TABLE metadata (name text, value text)";
const IMAGES_COPY: &str = "INSERT INTO images (tile_id, tile_data) SELECT tile_id, tile_data FROM sourceDb.images WHERE tile_id IN (SELECT tile_id FROM map)";

fn relation(name: &str, columns: &[&str]) -> TableSchema {
    TableSchema {
        name: name.to_string(),
        is_view: false,
        columns: columns.iter().map(|c| c.to_string()).collect(),
    }
}

fn tile_tables() -> Vec<TableSchema> {
    vec![
        relation("metadata", &["name", "value"]),
        relation("tiles", &["zoom_level", "tile_column", "tile_row", "tile_data"]),
    ]
}

fn deduplicated() -> Vec<TableSchema> {
    vec![
        relation("metadata", &["name", "value"]),
        relation("map", &["zoom_level", "tile_column", "tile_row", "tile_id"]),
        relation("images", &["tile_data", "tile_id"]),
    ]
}

fn plain(sql: &str) -> Statement {
    Statement { sql: sql.to_string(), params: Vec::new() }
}

fn zooms(sql: &str, levels: &[u8]) -> Statement {
    Statement { sql: sql.to_string(), params: levels.iter().map(|z| SqlParam::Zoom(*z)).collect() }
}

/// Runs a copy into an empty target and gives the statements that it runs.
fn statements_of(copier: TileCopier, schema: Vec<TableSchema>, ddl: &[&str]) -> Vec<Statement> {
    let (mut run, first) = copier.start();
    assert!(matches!(first, CopyAction::ReadSourceSchema(_)));
    let mut action = run.step(CopyEvent::SourceSchema(schema));
    let mut executed = Vec::new();
    loop {
        assert!(executed.len() < 100);
        action = match action {
            CopyAction::ProbeTarget(path, probe) => {
                assert_eq!(path, "dst.mbtiles");
                assert_eq!(probe, plain("SELECT 1 FROM sqlite_schema LIMIT 1"));
                run.step(CopyEvent::TargetProbed(false))
            }
            CopyAction::Execute(statement) => {
                executed.push(statement);
                run.step(CopyEvent::Executed)
            }
            CopyAction::ReadSchema(query) => {
                assert_eq!(query, plain("SELECT sql FROM sourceDb.sqlite_schema WHERE tbl_name IN ('metadata', 'tiles', 'map', 'images')"));
                run.step(CopyEvent::SchemaRead(ddl.iter().map(|s| s.to_string()).collect()))
            }
            CopyAction::Done => {
                assert!(run.is_finished());
                return executed;
            }
            other => panic!("{other:?}"),
        };
    }
}

fn setup() -> Vec<Statement> {
    vec![
        plain("PRAGMA page_size = 512"),
        plain("VACUUM"),
        Statement {
            sql: "ATTACH DATABASE ? AS sourceDb".to_string(),
            params: vec![SqlParam::Text("src.mbtiles".to_string())],
        },
    ]
}

#[test]
fn copy_tile_tables() {
    let copier = TileCopier::new("src.mbtiles", "dst.mbtiles", TileCopierOptions::new());
    let executed = statements_of(copier, tile_tables(), &[METADATA_DDL, TILES_DDL]);
    let mut expected = setup();
    expected.extend([
        plain(METADATA_DDL),
        plain(TILES_DDL),
        plain("INSERT INTO metadata SELECT * FROM sourceDb.metadata"),
        plain("INSERT INTO tiles SELECT * FROM sourceDb.tiles"),
    ]);
    assert_eq!(executed, expected);
}

#[test]
fn copy_deduplicated() {
    let copier = TileCopier::new("src.mbtiles", "dst.mbtiles", TileCopierOptions::new());
    let executed = statements_of(copier, deduplicated(), &[]);
    let mut expected = setup();
    expected.extend([
        plain("INSERT INTO metadata SELECT * FROM sourceDb.metadata"),
        plain("INSERT INTO map SELECT * FROM sourceDb.map"),
        plain(IMAGES_COPY),
    ]);
    assert_eq!(executed, expected);
}

#[test]
fn non_empty_target_file() {
    let copier = TileCopier::new("src.mbtiles", "json.mbtiles", TileCopierOptions::new());
    let (mut run, _) = copier.start();
    let action = run.step(CopyEvent::SourceSchema(tile_tables()));
    assert!(matches!(action, CopyAction::ProbeTarget(_, _)));
    let action = run.step(CopyEvent::TargetProbed(true));
    assert!(matches!(action, CopyAction::Failed(MbtError::NonEmptyTargetFile(_))));
    assert_eq!(action, CopyAction::Failed(MbtError::NonEmptyTargetFile("json.mbtiles".to_string())));
    assert!(run.is_finished());
    assert_eq!(run.step(CopyEvent::Executed), CopyAction::Unexpected);
}

#[test]
fn copy_with_min_max_zoom() {
    let opt = TileCopierOptions::new().min_zoom(Some(2)).max_zoom(Some(4));
    let condition = opt.condition();
    assert_eq!(condition, ZoomCondition::Between(2, 4));
    let copied: Vec<u8> = (0u8..=6).filter(|z| condition.matches(*z)).collect();
    assert_eq!(copied.len(), 3);
    assert_eq!(copied, vec![2, 3, 4]);

    let copier = TileCopier::new("src.mbtiles", "dst.mbtiles", opt);
    let executed = statements_of(copier, tile_tables(), &[TILES_DDL]);
    assert_eq!(
        executed.last().unwrap(),
        &zooms("INSERT INTO tiles SELECT * FROM sourceDb.tiles WHERE zoom_level BETWEEN ? AND ?", &[2, 4])
    );
}

#[test]
fn copy_with_zoom_levels() {
    let opt = TileCopierOptions::new().min_zoom(Some(2)).max_zoom(Some(4)).zooms(vec![1, 6]);
    let condition = opt.condition();
    let copied: Vec<u8> = (0u8..=6).filter(|z| condition.matches(*z)).collect();
    assert_eq!(copied.len(), 2);
    assert_eq!(copied, vec![1, 6]);

    let copier = TileCopier::new("src.mbtiles", "dst.mbtiles", opt);
    let executed = statements_of(copier, deduplicated(), &[]);
    let n = executed.len();
    let map_copy = &executed[n - 2];
    assert_eq!(map_copy.sql, "INSERT INTO map SELECT * FROM sourceDb.map WHERE zoom_level IN (?,?)");
    let mut params = map_copy.params.clone();
    if params[0] == SqlParam::Zoom(6) {
        params.reverse();
    }
    assert_eq!(params, vec![SqlParam::Zoom(1), SqlParam::Zoom(6)]);
    assert_eq!(executed[n - 1], plain(IMAGES_COPY));
    assert_eq!(executed[n - 3], plain("INSERT INTO metadata SELECT * FROM sourceDb.metadata"));
}

#[test]
fn copy_source_that_is_no_archive() {
    let copier = TileCopier::new("src.mbtiles", "dst.mbtiles", TileCopierOptions::new());
    let (mut run, _) = copier.start();
    let action = run.step(CopyEvent::SourceSchema(vec![relation("metadata", &["name", "value"])]));
    assert_eq!(action, CopyAction::Failed(MbtError::InvalidDataFormat("src.mbtiles".to_string())));
    assert!(run.is_finished());
}

#[test]
fn copy_event_out_of_turn() {
    let (mut run, first) = CopyRun::new("a", "b", ZoomCondition::All);
    assert_eq!(first, CopyAction::ReadSourceSchema("a".to_string()));
    assert!(!run.is_finished());
    assert_eq!(run.step(CopyEvent::Executed), CopyAction::Unexpected);
    assert!(run.is_finished());
    assert_eq!(run.step(CopyEvent::SourceSchema(tile_tables())), CopyAction::Unexpected);
}

#[test]
fn options_builders() {
    let opt = TileCopierOptions::new();
    assert!(!opt.is_verbose());
    assert_eq!(opt.condition(), ZoomCondition::All);
    assert!(TileCopierOptions::default().verbose(true).is_verbose());
    assert_eq!(TileCopierOptions::new().min_zoom(Some(3)).condition(), ZoomCondition::AtLeast(3));
    assert_eq!(TileCopierOptions::new().max_zoom(Some(3)).condition(), ZoomCondition::AtMost(3));
    assert_eq!(
        TileCopierOptions::new().min_zoom(Some(3)).min_zoom(None).condition(),
        ZoomCondition::All
    );
    let opt = TileCopierOptions::new().zooms(vec![5, 5, 5]).zooms(Vec::new());
    assert_eq!(opt.condition(), ZoomCondition::OneOf(vec![5]));
    assert_eq!(TileCopierOptions::new().zooms(Vec::new()).condition(), ZoomCondition::All);
    let opt = TileCopierOptions::new().zooms(vec![1, 2]).zooms(vec![2, 3]);
    match opt.condition() {
        ZoomCondition::OneOf(mut list) => {
            list.sort();
            assert_eq!(list, vec![1, 2, 3]);
        }
        other => panic!("{other:?}"),
    }
}

#[test]
fn condition_matches() {
    assert!(ZoomCondition::All.matches(0) && ZoomCondition::All.matches(255));
    let c = ZoomCondition::Between(2, 4);
    assert!(!c.matches(1) && c.matches(2) && c.matches(4) && !c.matches(5));
    let c = ZoomCondition::Between(4, 2);
    assert!(!c.matches(2) && !c.matches(3) && !c.matches(4));
    let c = ZoomCondition::AtLeast(3);
    assert!(!c.matches(2) && c.matches(3) && c.matches(255));
    let c = ZoomCondition::AtMost(3);
    assert!(c.matches(0) && c.matches(3) && !c.matches(4));
    let c = ZoomCondition::OneOf(vec![1, 6]);
    assert!(c.matches(1) && c.matches(6) && !c.matches(2));
    assert!(!ZoomCondition::OneOf(Vec::new()).matches(0));
    assert_eq!(c.duplicate(), c);
}

#[test]
fn condition_restricts_statement() {
    assert_eq!(ZoomCondition::All.restrict("S"), plain("S"));
    assert_eq!(ZoomCondition::AtLeast(3).restrict("S"), zooms("S WHERE zoom_level >= ?", &[3]));
    assert_eq!(ZoomCondition::AtMost(9).restrict("S"), zooms("S WHERE zoom_level <= ?", &[9]));
    assert_eq!(
        ZoomCondition::Between(4, 2).restrict("S"),
        zooms("S WHERE zoom_level BETWEEN ? AND ?", &[4, 2])
    );
    assert_eq!(
        ZoomCondition::OneOf(vec![7]).restrict("S"),
        zooms("S WHERE zoom_level IN (?)", &[7])
    );
    assert_eq!(
        ZoomCondition::OneOf(vec![3, 1, 2]).restrict("S"),
        zooms("S WHERE zoom_level IN (?,?,?)", &[3, 1, 2])
    );
    assert_eq!(
        ZoomCondition::OneOf(Vec::new()).restrict("S"),
        plain("S WHERE zoom_level IN ()")
    );
    assert_eq!(Statement::new("VACUUM"), plain("VACUUM"));
}

#[test]
fn options_clone() {
    let opt = TileCopierOptions::new().zooms(vec![3, 9]).min_zoom(Some(1)).verbose(true);
    let copy = opt.clone();
    assert!(copy.is_verbose());
    let condition = copy.condition();
    assert!(condition.matches(3) && condition.matches(9) && !condition.matches(1));
    let ranged = TileCopierOptions::new().min_zoom(Some(1)).max_zoom(Some(2)).clone();
    assert_eq!(ranged.condition(), ZoomCondition::Between(1, 2));
}
