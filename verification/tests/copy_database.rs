use actix_web::rt::System;
use martin::copy_run::{CopyAction, CopyEvent};
use martin::mbtiles::{MbtError, TableSchema};
use martin::tile_copier::{SqlParam, Statement, TileCopier, TileCopierOptions};
use sqlx::sqlite::SqliteConnectOptions;
use sqlx::{Connection, Row, SqliteConnection};

/// The address of a database that lives in memory for as long as one
/// connection to it is open.
fn memory(name: &str) -> String {
    format!("file:martin_{name}?mode=memory&cache=shared")
}

async fn open(address: &str) -> SqliteConnection {
    let options = SqliteConnectOptions::new().filename(address).shared_cache(true);
    SqliteConnection::connect_with(&options).await.unwrap()
}

async fn run(conn: &mut SqliteConnection, statement: &Statement) -> Vec<sqlx::sqlite::SqliteRow> {
    let mut query = sqlx::query(statement.sql.as_str());
    for param in &statement.params {
        query = match param {
            SqlParam::Text(text) => query.bind(text.as_str()),
            SqlParam::Zoom(zoom) => query.bind(i64::from(*zoom)),
        };
    }
    query.fetch_all(conn).await.unwrap()
}

async fn script(conn: &mut SqliteConnection, statements: &[&str]) {
    for sql in statements {
        sqlx::query(sql).execute(&mut *conn).await.unwrap();
    }
}

async fn number(conn: &mut SqliteConnection, sql: &str) -> i64 {
    sqlx::query(sql).fetch_one(conn).await.unwrap().get::<i64, _>(0)
}

async fn read_schema(conn: &mut SqliteConnection) -> Vec<TableSchema> {
    let relations = sqlx::query("SELECT name, type FROM sqlite_schema WHERE type IN ('table', 'view')")
        .fetch_all(&mut *conn)
        .await
        .unwrap();
    let mut schema = Vec::new();
    for relation in relations {
        let name: String = relation.get(0);
        let kind: String = relation.get(1);
        let columns = sqlx::query("SELECT name FROM pragma_table_info(?)")
            .bind(name.as_str())
            .fetch_all(&mut *conn)
            .await
            .unwrap();
        schema.push(TableSchema {
            name,
            is_view: kind == "view",
            columns: columns.iter().map(|c| c.get::<String, _>(0)).collect(),
        });
    }
    schema
}

/// Does on the databases what the copy asks for, until it ends.
async fn copy(source: &mut SqliteConnection, copier: TileCopier) -> Result<(), MbtError> {
    let (mut run_of_copy, mut action) = copier.start();
    let mut target: Option<SqliteConnection> = None;
    loop {
        let event = match action {
            CopyAction::ReadSourceSchema(_) => CopyEvent::SourceSchema(read_schema(source).await),
            CopyAction::ProbeTarget(path, probe) => {
                let mut conn = open(&path).await;
                let found = !run(&mut conn, &probe).await.is_empty();
                target = Some(conn);
                CopyEvent::TargetProbed(found)
            }
            CopyAction::Execute(statement) => {
                run(target.as_mut().unwrap(), &statement).await;
                CopyEvent::Executed
            }
            CopyAction::ReadSchema(statement) => {
                let rows = run(target.as_mut().unwrap(), &statement).await;
                CopyEvent::SchemaRead(rows.iter().map(|row| row.get::<String, _>(0)).collect())
            }
            CopyAction::Done => return Ok(()),
            CopyAction::Failed(error) => return Err(error),
            CopyAction::Unexpected => panic!("the copy got an answer that it did not ask for"),
        };
        action = run_of_copy.step(event);
    }
}

/// An archive with one table of tiles: at each zoom level from 0 to 6, one
/// tile for each column up to the zoom level.
async fn world_cities(name: &str) -> SqliteConnection {
    let mut conn = open(&memory(name)).await;
    script(
        &mut conn,
        &[
            "CREATE TABLE metadata (name text, value text)",
            "CREATE TABLE tiles (zoom_level integer, tile_column integer, tile_row integer, tile_data blob)",
            "INSERT INTO metadata VALUES ('name', 'Major cities from Natural Earth data'), ('maxzoom', '6')",
        ],
    )
    .await;
    for z in 0..=6 {
        for x in 0..=z {
            sqlx::query("INSERT INTO tiles VALUES (?, ?, 0, x'1f8b08')")
                .bind(z)
                .bind(x)
                .execute(&mut conn)
                .await
                .unwrap();
        }
    }
    conn
}

/// A deduplicated archive: every position of a zoom level names the one
/// image of that zoom level, and one image is named by no position.
async fn geography_class(name: &str) -> SqliteConnection {
    let mut conn = open(&memory(name)).await;
    script(
        &mut conn,
        &[
            "CREATE TABLE metadata (name text, value text)",
            "CREATE TABLE map (zoom_level integer, tile_column integer, tile_row integer, tile_id text)",
            "CREATE TABLE images (tile_id text, tile_data blob)",
            "CREATE UNIQUE INDEX images_id ON images (tile_id)",
            "CREATE VIEW tiles AS SELECT map.zoom_level AS zoom_level, map.tile_column AS tile_column, map.tile_row AS tile_row, images.tile_data AS tile_data FROM map JOIN images ON images.tile_id = map.tile_id",
            "INSERT INTO metadata VALUES ('name', 'Geography Class')",
            "INSERT INTO images VALUES ('unused', x'00')",
        ],
    )
    .await;
    for z in 0..=3 {
        sqlx::query("INSERT INTO images VALUES (?, x'89504e47')")
            .bind(format!("image{z}"))
            .execute(&mut conn)
            .await
            .unwrap();
        for x in 0..(1 << z) {
            sqlx::query("INSERT INTO map VALUES (?, ?, 0, ?)")
                .bind(z)
                .bind(x)
                .bind(format!("image{z}"))
                .execute(&mut conn)
                .await
                .unwrap();
        }
    }
    conn
}

#[test]
fn database_copy_keeps_every_tile() {
    System::new().block_on(async {
        let mut source = world_cities("all_src").await;
        let target = memory("all_dst");
        let mut keep = open(&target).await;
        let copier = TileCopier::new(&memory("all_src"), &target, TileCopierOptions::new());
        copy(&mut source, copier).await.unwrap();
        assert_eq!(number(&mut source, "SELECT COUNT(*) FROM tiles").await, 28);
        assert_eq!(number(&mut keep, "SELECT COUNT(*) FROM tiles").await, 28);
        assert_eq!(number(&mut keep, "SELECT COUNT(*) FROM metadata").await, 2);
        assert_eq!(
            number(&mut keep, "SELECT COUNT(*) FROM tiles WHERE tile_data = x'1f8b08'").await,
            28
        );

        let again = TileCopier::new(&memory("all_src"), &target, TileCopierOptions::new());
        assert_eq!(
            copy(&mut source, again).await,
            Err(MbtError::NonEmptyTargetFile(target.clone()))
        );
        assert_eq!(number(&mut keep, "SELECT COUNT(*) FROM tiles").await, 28);
    });
}

#[test]
fn database_copy_between_zoom_levels() {
    System::new().block_on(async {
        let mut source = world_cities("range_src").await;
        let target = memory("range_dst");
        let mut keep = open(&target).await;
        let options = TileCopierOptions::new().min_zoom(Some(2)).max_zoom(Some(4));
        copy(&mut source, TileCopier::new(&memory("range_src"), &target, options)).await.unwrap();
        assert_eq!(number(&mut keep, "SELECT COUNT(DISTINCT zoom_level) FROM tiles").await, 3);
        assert_eq!(number(&mut keep, "SELECT MIN(zoom_level) FROM tiles").await, 2);
        assert_eq!(number(&mut keep, "SELECT MAX(zoom_level) FROM tiles").await, 4);
        assert_eq!(number(&mut keep, "SELECT COUNT(*) FROM tiles").await, 12);
    });
}

#[test]
fn database_copy_of_listed_zoom_levels() {
    System::new().block_on(async {
        let mut source = world_cities("list_src").await;
        let target = memory("list_dst");
        let mut keep = open(&target).await;
        let options =
            TileCopierOptions::new().min_zoom(Some(2)).max_zoom(Some(4)).zooms(vec![1, 6]);
        copy(&mut source, TileCopier::new(&memory("list_src"), &target, options)).await.unwrap();
        assert_eq!(number(&mut keep, "SELECT COUNT(DISTINCT zoom_level) FROM tiles").await, 2);
        assert_eq!(
            number(&mut keep, "SELECT COUNT(*) FROM tiles WHERE zoom_level IN (1, 6)").await,
            9
        );
        assert_eq!(number(&mut keep, "SELECT COUNT(*) FROM tiles").await, 9);
    });
}

#[test]
fn database_copy_of_deduplicated_archive() {
    System::new().block_on(async {
        let mut source = geography_class("dedup_src").await;
        let target = memory("dedup_dst");
        let mut keep = open(&target).await;
        let copier = TileCopier::new(&memory("dedup_src"), &target, TileCopierOptions::new());
        copy(&mut source, copier).await.unwrap();
        assert_eq!(number(&mut source, "SELECT COUNT(*) FROM tiles").await, 15);
        assert_eq!(number(&mut keep, "SELECT COUNT(*) FROM tiles").await, 15);
        assert_eq!(number(&mut keep, "SELECT COUNT(*) FROM map").await, 15);
        assert_eq!(number(&mut keep, "SELECT COUNT(*) FROM images").await, 4);
        assert_eq!(number(&mut keep, "SELECT COUNT(DISTINCT tile_id) FROM images").await, 4);
        assert_eq!(
            number(&mut keep, "SELECT COUNT(*) FROM images WHERE tile_id = 'unused'").await,
            0
        );
        assert_eq!(
            number(&mut keep, "SELECT COUNT(*) FROM images WHERE tile_data = x'89504e47'").await,
            4
        );
    });
}

#[test]
fn database_copy_of_deduplicated_archive_between_zoom_levels() {
    System::new().block_on(async {
        let mut source = geography_class("dedup_range_src").await;
        let target = memory("dedup_range_dst");
        let mut keep = open(&target).await;
        let options = TileCopierOptions::new().min_zoom(Some(1)).max_zoom(Some(2));
        let copier = TileCopier::new(&memory("dedup_range_src"), &target, options);
        copy(&mut source, copier).await.unwrap();
        assert_eq!(number(&mut keep, "SELECT COUNT(*) FROM map").await, 6);
        assert_eq!(number(&mut keep, "SELECT COUNT(*) FROM tiles").await, 6);
        assert_eq!(number(&mut keep, "SELECT COUNT(*) FROM images").await, 2);
        assert_eq!(
            number(
                &mut keep,
                "SELECT COUNT(*) FROM images WHERE tile_id IN ('image1', 'image2')"
            )
            .await,
            2
        );
    });
}
