use league_archive::copy::{Command, Phase, Reply, TableCopy};
use league_archive::error::{Error, Unsupported};
use league_archive::tables::Table;
use league_archive::value::{SinkParam, SourceValue};

const PLAYERS: Table = Table {
    name: "players",
    definition: "CREATE TABLE players (id INTEGER PRIMARY KEY, name TEXT NOT NULL)",
    select_sql: "SELECT id, name FROM lg_players",
    insert_sql: "INSERT INTO players VALUES (?, ?)",
    columns: 2,
};

/// A source and a sink that hold their tables in memory and note what they
/// are asked to do.
struct Databases {
    source_rows: Vec<Vec<SourceValue>>,
    fetched: usize,
    fail_fetch_at: Option<usize>,
    sink_tables: Vec<String>,
    uncommitted: Vec<Vec<SinkParam>>,
    committed: Vec<Vec<SinkParam>>,
    fail_commit: bool,
    log: Vec<String>,
}

impl Databases {
    fn new(source_rows: Vec<Vec<SourceValue>>) -> Databases {
        Databases {
            source_rows,
            fetched: 0,
            fail_fetch_at: None,
            sink_tables: Vec::new(),
            uncommitted: Vec::new(),
            committed: Vec::new(),
            fail_commit: false,
            log: Vec::new(),
        }
    }

    fn perform(&mut self, table: &Table, command: Command) -> Reply {
        match command {
            Command::Begin => {
                self.log.push("begin".to_string());
                Reply::Done
            }
            Command::Define(sql) => {
                self.log.push(format!("define {sql}"));
                if self.sink_tables.iter().any(|name| name == table.name) {
                    Reply::Failed(Error::SqliteError(format!("table {} already exists", table.name)))
                } else {
                    self.sink_tables.push(table.name.to_string());
                    Reply::Done
                }
            }
            Command::Prepare(sql) => {
                self.log.push(format!("prepare {sql}"));
                Reply::Done
            }
            Command::Select(sql) => {
                self.log.push(format!("select {sql}"));
                Reply::Done
            }
            Command::Fetch => {
                self.log.push("fetch".to_string());
                if self.fail_fetch_at == Some(self.fetched) {
                    return Reply::Failed(Error::MySqlError("connection lost".to_string()));
                }
                if self.fetched < self.source_rows.len() {
                    let row = std::mem::take(&mut self.source_rows[self.fetched]);
                    self.fetched += 1;
                    Reply::Row(row)
                } else {
                    Reply::End
                }
            }
            Command::Insert(params) => {
                self.log.push("insert".to_string());
                self.uncommitted.push(params);
                Reply::Done
            }
            Command::Commit => {
                self.log.push("commit".to_string());
                if self.fail_commit {
                    Reply::Failed(Error::SqliteError("disk full".to_string()))
                } else {
                    self.committed.append(&mut self.uncommitted);
                    Reply::Done
                }
            }
            Command::Finish(_) | Command::Abort(_) => unreachable!(),
        }
    }

    /// Runs the copy of `table` as the holder of real connections would.
    fn copy(&mut self, table: Table) -> Result<u64, Error> {
        let (mut machine, mut command) = TableCopy::begin(table);
        loop {
            let reply = match command {
                Command::Finish(rows) => return Ok(rows),
                Command::Abort(error) => {
                    self.log.push("rollback".to_string());
                    self.uncommitted.clear();
                    return Err(error);
                }
                other => self.perform(&table, other),
            };
            assert!(machine.takes(&reply));
            command = machine.step(reply);
        }
    }
}

fn player(id: u64, name: &str) -> Vec<SourceValue> {
    vec![SourceValue::UnsignedInt(id), SourceValue::Bytes(name.as_bytes().to_vec())]
}

#[test]
fn copy_of_an_empty_source_creates_the_table_and_commits() {
    let mut dbs = Databases::new(Vec::new());
    assert_eq!(dbs.copy(PLAYERS), Ok(0));
    assert_eq!(
        dbs.log,
        vec![
            "begin".to_string(),
            format!("define {}", PLAYERS.definition),
            format!("prepare {}", PLAYERS.insert_sql),
            format!("select {}", PLAYERS.select_sql),
            "fetch".to_string(),
            "commit".to_string(),
        ]
    );
    assert_eq!(dbs.sink_tables, vec!["players".to_string()]);
    assert!(dbs.committed.is_empty());
}

#[test]
fn copy_returns_the_number_of_rows_of_the_source() {
    for n in [1u64, 2, 3, 17, 100] {
        let rows = (0..n).map(|i| player(i, "someone")).collect();
        let mut dbs = Databases::new(rows);
        assert_eq!(dbs.copy(PLAYERS), Ok(n));
        assert_eq!(dbs.committed.len() as u64, n);
        assert_eq!(dbs.log.iter().filter(|entry| entry.as_str() == "insert").count() as u64, n);
        assert_eq!(dbs.log.iter().filter(|entry| entry.as_str() == "commit").count(), 1);
        assert_eq!(dbs.log.iter().filter(|entry| entry.starts_with("prepare")).count(), 1);
    }
}

#[test]
fn rows_are_inserted_adapted_and_in_source_order() {
    let mut dbs = Databases::new(vec![
        player(3, r"Abw\344rts"),
        player(1, "Clonk"),
        player(u64::MAX, r"\344\366\374\337"),
    ]);
    assert_eq!(dbs.copy(PLAYERS), Ok(3));
    assert_eq!(
        dbs.committed,
        vec![
            vec![SinkParam::Integer(3), SinkParam::Text("Abwärts".to_string())],
            vec![SinkParam::Integer(1), SinkParam::Text("Clonk".to_string())],
            vec![SinkParam::Integer(-1), SinkParam::Text("äöüß".to_string())],
        ]
    );
}

#[test]
fn copy_into_an_existing_table_fails_before_any_row_is_inserted() {
    let mut dbs = Databases::new(vec![player(1, "a"), player(2, "b")]);
    dbs.sink_tables.push("players".to_string());
    dbs.committed.push(vec![SinkParam::Integer(99), SinkParam::Text("before".to_string())]);
    assert_eq!(
        dbs.copy(PLAYERS),
        Err(Error::SqliteError("table players already exists".to_string()))
    );
    assert_eq!(
        dbs.log,
        vec!["begin".to_string(), format!("define {}", PLAYERS.definition), "rollback".to_string()]
    );
    assert_eq!(dbs.sink_tables, vec!["players".to_string()]);
    assert_eq!(
        dbs.committed,
        vec![vec![SinkParam::Integer(99), SinkParam::Text("before".to_string())]]
    );
    assert_eq!(dbs.fetched, 0);
}

#[test]
fn source_failure_while_streaming_commits_nothing() {
    let mut dbs = Databases::new(vec![player(1, "a"), player(2, "b"), player(3, "c")]);
    dbs.fail_fetch_at = Some(2);
    assert_eq!(dbs.copy(PLAYERS), Err(Error::MySqlError("connection lost".to_string())));
    assert!(dbs.committed.is_empty());
    assert!(!dbs.log.contains(&"commit".to_string()));
    assert_eq!(dbs.log.last(), Some(&"rollback".to_string()));
}

#[test]
fn unsupported_value_gives_the_copy_up() {
    let date = SourceValue::Date { year: 2016, month: 1, day: 2, hour: 3, minute: 4, second: 5, micros: 6 };
    let mut dbs = Databases::new(vec![player(1, "a"), vec![SourceValue::UnsignedInt(2), date]]);
    assert_eq!(dbs.copy(PLAYERS), Err(Error::UnsupportedValue(Unsupported::Date)));
    assert!(dbs.committed.is_empty());
    assert_eq!(dbs.log.iter().filter(|entry| entry.as_str() == "insert").count(), 1);
    assert!(!dbs.log.contains(&"commit".to_string()));
}

#[test]
fn failed_commit_is_reported() {
    let mut dbs = Databases::new(vec![player(1, "a")]);
    dbs.fail_commit = true;
    assert_eq!(dbs.copy(PLAYERS), Err(Error::SqliteError("disk full".to_string())));
    assert!(dbs.committed.is_empty());
}

#[test]
fn each_setup_failure_aborts_with_its_error() {
    for failing in 0..4 {
        let (mut machine, command) = TableCopy::begin(PLAYERS);
        assert_eq!(command, Command::Begin);
        for _ in 0..failing {
            assert!(machine.takes(&Reply::Done));
            machine.step(Reply::Done);
        }
        let reply = Reply::Failed(Error::SqliteError(format!("step {failing}")));
        assert!(machine.takes(&reply));
        assert_eq!(machine.step(reply), Command::Abort(Error::SqliteError(format!("step {failing}"))));
        assert_eq!(machine.phase, Phase::Aborted);
        assert!(!machine.takes(&Reply::Done));
        assert!(!machine.takes(&Reply::End));
        assert!(!machine.takes(&Reply::Failed(Error::SqliteError(String::new()))));
    }
}

#[test]
fn machine_walks_through_its_phases() {
    let (mut machine, command) = TableCopy::begin(PLAYERS);
    assert_eq!(command, Command::Begin);
    assert_eq!(machine.phase, Phase::Beginning);
    assert_eq!(machine.step(Reply::Done), Command::Define(PLAYERS.definition));
    assert_eq!(machine.phase, Phase::Defining);
    assert_eq!(machine.step(Reply::Done), Command::Prepare(PLAYERS.insert_sql));
    assert_eq!(machine.phase, Phase::Preparing);
    assert_eq!(machine.step(Reply::Done), Command::Select(PLAYERS.select_sql));
    assert_eq!(machine.phase, Phase::Selecting);
    assert_eq!(machine.step(Reply::Done), Command::Fetch);
    assert_eq!(machine.phase, Phase::Fetching);
    assert_eq!(
        machine.step(Reply::Row(player(5, "x"))),
        Command::Insert(vec![SinkParam::Integer(5), SinkParam::Text("x".to_string())])
    );
    assert_eq!(machine.phase, Phase::Inserting);
    assert_eq!(machine.rows, 0);
    assert_eq!(machine.step(Reply::Done), Command::Fetch);
    assert_eq!(machine.rows, 1);
    assert_eq!(machine.step(Reply::End), Command::Commit);
    assert_eq!(machine.phase, Phase::Committing);
    assert_eq!(machine.step(Reply::Done), Command::Finish(1));
    assert_eq!(machine.phase, Phase::Finished);
    assert!(!machine.takes(&Reply::Done));
}

#[test]
fn machine_takes_only_replies_that_fit_its_phase() {
    let (mut machine, _) = TableCopy::begin(PLAYERS);
    assert!(!machine.takes(&Reply::End));
    assert!(!machine.takes(&Reply::Row(player(1, "a"))));
    for _ in 0..4 {
        machine.step(Reply::Done);
    }
    assert_eq!(machine.phase, Phase::Fetching);
    assert!(!machine.takes(&Reply::Done));
    assert!(machine.takes(&Reply::End));
    assert!(machine.takes(&Reply::Row(player(1, "a"))));
    assert!(!machine.takes(&Reply::Row(vec![SourceValue::Null])));
    assert!(!machine.takes(&Reply::Row(vec![SourceValue::Null, SourceValue::Null, SourceValue::Null])));
    machine.step(Reply::Row(player(1, "a")));
    assert!(machine.takes(&Reply::Done));
    assert!(!machine.takes(&Reply::End));
    machine.rows = u64::MAX;
    assert!(!machine.takes(&Reply::Done));
    assert!(machine.takes(&Reply::Failed(Error::SqliteError(String::new()))));
}
