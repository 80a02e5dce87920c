use league_archive::archive::{Archiver, Step};
use league_archive::error::Error;
use league_archive::tables::{self, Table};

fn table(name: &'static str) -> Table {
    Table { name, definition: "CREATE", select_sql: "SELECT", insert_sql: "INSERT", columns: 1 }
}

/// Runs the archive over `tables` with a source that records which tables it
/// was asked for and answers from `outcomes`.
fn run(tables: Vec<Table>, outcomes: Vec<Result<u64, Error>>) -> (Result<u64, Error>, Vec<&'static str>) {
    let mut outcomes = outcomes.into_iter();
    let mut visited = Vec::new();
    let mut archiver = Archiver::new(tables);
    let mut step = archiver.start();
    loop {
        match step {
            Step::Copy(table) => {
                visited.push(table.name);
                let outcome = outcomes.next().expect("an outcome for each table asked for");
                assert!(archiver.takes(&outcome));
                step = archiver.record(outcome);
            }
            Step::Finish(total) => return (Ok(total), visited),
            Step::Abort(error) => return (Err(error), visited),
        }
    }
}

#[test]
fn archive_sums_the_rows_of_its_tables_in_list_order() {
    let (total, visited) =
        run(vec![table("a"), table("b"), table("c"), table("d")], vec![Ok(3), Ok(0), Ok(40), Ok(500)]);
    assert_eq!(total, Ok(543));
    assert_eq!(visited, vec!["a", "b", "c", "d"]);
}

#[test]
fn archive_of_one_table_returns_its_rows() {
    let (total, visited) = run(vec![table("only")], vec![Ok(7)]);
    assert_eq!(total, Ok(7));
    assert_eq!(visited, vec!["only"]);
}

#[test]
fn archive_of_no_table_finishes_at_once() {
    let (total, visited) = run(Vec::new(), Vec::new());
    assert_eq!(total, Ok(0));
    assert!(visited.is_empty());
    let archiver = Archiver::new(Vec::new());
    assert!(!archiver.takes(&Ok(0)));
}

#[test]
fn archive_stops_at_the_first_failure() {
    let (total, visited) = run(
        vec![table("a"), table("b"), table("c")],
        vec![Ok(3), Err(Error::MySqlError("gone".to_string())), Ok(5)],
    );
    assert_eq!(total, Err(Error::MySqlError("gone".to_string())));
    assert_eq!(visited, vec!["a", "b"]);
}

#[test]
fn archiver_takes_nothing_after_the_end() {
    let mut archiver = Archiver::new(vec![table("a")]);
    assert_eq!(archiver.start(), Step::Copy(table("a")));
    assert_eq!(archiver.record(Ok(2)), Step::Finish(2));
    assert!(!archiver.takes(&Ok(1)));
    assert!(!archiver.takes(&Err(Error::SqliteError(String::new()))));

    let mut archiver = Archiver::new(vec![table("a"), table("b")]);
    assert_eq!(
        archiver.record(Err(Error::SqliteError("no".to_string()))),
        Step::Abort(Error::SqliteError("no".to_string()))
    );
    assert!(archiver.aborted);
    assert!(!archiver.takes(&Ok(1)));
}

#[test]
fn archiver_refuses_rows_that_overflow_the_counter() {
    let mut archiver = Archiver::new(vec![table("a"), table("b")]);
    assert_eq!(archiver.record(Ok(u64::MAX - 1)), Step::Copy(table("b")));
    assert!(archiver.takes(&Ok(1)));
    assert!(!archiver.takes(&Ok(2)));
    assert_eq!(archiver.record(Ok(1)), Step::Finish(u64::MAX));
}

#[test]
fn the_archive_holds_nine_tables_in_their_order() {
    let all = tables::all();
    let names: Vec<&str> = all.iter().map(|table| table.name).collect();
    assert_eq!(
        names,
        vec![
            "users",
            "clans",
            "clan_scores",
            "games",
            "game_players",
            "game_scores",
            "game_teams",
            "leagues",
            "scores"
        ]
    );
    let (total, visited) = run(all, (1..=9).map(Ok).collect());
    assert_eq!(total, Ok(45));
    assert_eq!(visited, names);
}

#[test]
fn each_table_inserts_as_many_values_as_it_has_columns() {
    for table in tables::all() {
        assert_eq!(table.insert_sql.matches('?').count(), table.columns, "{}", table.name);
        assert!(table.definition.starts_with(&format!("CREATE TABLE {} (", table.name)));
        assert!(table.insert_sql.starts_with(&format!("INSERT INTO {} VALUES", table.name)));
        assert!(table.select_sql.starts_with("SELECT"));
    }
    assert_eq!(tables::USERS_INSERT, "INSERT INTO users VALUES (?, ?, ?, ?, ?, ?, ?, ?, ?, ?)");
}
