use rusqlite::Connection;
use serdo::cmd::{Cmd, EncodedBytes, SerializableCmd};
use serdo::persister_server::{PersisterServer, PersisterServerState, ServerAction};
use serdo::protocol::{PersistCmd, PersistResp};
use serdo::tables::{DbWrite, Row, Tables};

/// Appends its digit to the model, a number written in decimal.
#[derive(Debug, PartialEq)]
struct Digit(u8);

impl Cmd for Digit {
    type Model = u64;

    fn redone(&self, model: u64) -> u64 {
        model * 10 + self.0 as u64
    }

    fn undone(&self, model: u64) -> u64 {
        model / 10
    }

    fn undo(&self, model: &mut u64) {
        *model /= 10;
    }

    fn redo(&self, model: &mut u64) {
        *model = *model * 10 + self.0 as u64;
    }
}

impl SerializableCmd for Digit {
    fn encoded(&self) -> Option<EncodedBytes> {
        panic!("stands in contracts only")
    }

    fn decoded(_bytes: EncodedBytes) -> Option<Self> {
        panic!("stands in contracts only")
    }

    fn encoded_model(_model: &u64) -> Option<EncodedBytes> {
        panic!("stands in contracts only")
    }

    fn decoded_model(_bytes: EncodedBytes) -> Option<u64> {
        panic!("stands in contracts only")
    }

    fn encode(&self) -> Result<Vec<u8>, String> {
        Ok(vec![self.0])
    }

    fn decode(bytes: &Vec<u8>) -> Result<Self, String> {
        match bytes.as_slice() {
            [digit] if *digit < 10 => Ok(Digit(*digit)),
            _ => Err("no digit".to_string()),
        }
    }

    fn encode_model(model: &u64) -> Result<Vec<u8>, String> {
        Ok(model.to_le_bytes().to_vec())
    }

    fn decode_model(bytes: &Vec<u8>) -> Result<u64, String> {
        match bytes.as_slice().try_into() {
            Ok(bytes) => Ok(u64::from_le_bytes(bytes)),
            Err(_) => Err("no model".to_string()),
        }
    }
}

fn create() -> Connection {
    let conn = Connection::open_in_memory().unwrap();
    create_tables(&conn);
    conn
}

fn create_tables(conn: &Connection) {
    conn.execute_batch(
        "begin;
        create table command(command_id integer primary key not null, serialized blob not null);
        create table snapshot(snapshot_id integer primary key not null, serialized blob not null);
        create table cmd_seq_no(cur_cmd_seq_no integer);
        create table version(version integer not null);
        insert into version (version) values (1);
        commit;",
    )
    .unwrap();
}

fn execute(conn: &Connection, write: &DbWrite) {
    match write {
        DbWrite::InsertSeqNo(seq_no) => {
            conn.execute("insert into cmd_seq_no (cur_cmd_seq_no) values (?1)", [seq_no])
        }
        DbWrite::UpdateSeqNo(seq_no) => {
            conn.execute("update cmd_seq_no set cur_cmd_seq_no = ?1", [seq_no])
        }
        DbWrite::DeleteCommandsFrom(seq_no) => {
            conn.execute("delete from command where ?1 <= command_id", [seq_no])
        }
        DbWrite::InsertCommand(id, serialized) => conn.execute(
            "insert into command (command_id, serialized) values (?1, ?2)",
            (id, serialized),
        ),
        DbWrite::TrimCommands(undo_limit) => conn.execute(
            "delete from command as c0 where c0.command_id not in (
                select command_id from command as c1 order by command_id desc limit ?1
            )",
            [undo_limit],
        ),
        DbWrite::InsertSnapshot(id, serialized) => conn.execute(
            "insert into snapshot (snapshot_id, serialized) values (?1, ?2)",
            (id, serialized),
        ),
        DbWrite::DeleteSnapshots => conn.execute("delete from snapshot", ()),
        DbWrite::TrimSnapshots => conn.execute(
            "delete from snapshot where snapshot_id < (select max(snapshot_id) from snapshot)",
            (),
        ),
    }
    .unwrap();
}

fn rows(conn: &Connection, sql: &str) -> Vec<Row> {
    let mut stmt = conn.prepare(sql).unwrap();
    let found = stmt
        .query_map([], |row| Ok(Row { id: row.get(0)?, serialized: row.get(1)? }))
        .unwrap();
    found.map(|row| row.unwrap()).collect()
}

fn load(conn: &Connection) -> Tables {
    let commands = rows(conn, "select command_id, serialized from command order by command_id asc");
    let snapshots =
        rows(conn, "select snapshot_id, serialized from snapshot order by snapshot_id asc");
    let mut stmt = conn.prepare("select cur_cmd_seq_no from cmd_seq_no").unwrap();
    let seq_nos: Vec<i64> = stmt.query_map([], |row| row.get(0)).unwrap().map(|n| n.unwrap()).collect();
    assert!(seq_nos.len() <= 1);
    Tables::from_rows(commands, snapshots, seq_nos.first().copied()).unwrap()
}

fn open(conn: &Connection, undo_limit: usize) -> (PersisterServer<Digit>, u64, i64) {
    let mut server: PersisterServer<Digit> = PersisterServer::new(undo_limit);
    match server.opened("dir".to_string(), "dir/db.sqlite".to_string(), Ok(load(conn))) {
        ServerAction::Reply(PersistResp::OpenOk { serialized_model, seq_no, .. }) => {
            write_through(&mut server, conn);
            (server, Digit::decode_model(&serialized_model).unwrap(), seq_no)
        }
        other => panic!("unexpected {:?}", other),
    }
}

/// Writes the journal through and holds the file against the tables.
fn write_through(server: &mut PersisterServer<Digit>, conn: &Connection) {
    for write in server.take_writes() {
        execute(conn, &write);
    }
    let file = load(conn);
    match &server.state {
        PersisterServerState::Loaded { tables, cur_cmd_seq_no, .. } => {
            assert_eq!(file.commands(), tables.commands());
            assert_eq!(file.snapshots(), tables.snapshots());
            assert_eq!(file.cur_cmd_seq_no(), tables.cur_cmd_seq_no());
            assert_eq!(file.cur_cmd_seq_no(), Some(*cur_cmd_seq_no));
            // The ids are consecutive, and at most one snapshot is kept.
            let ids = file.command_ids();
            for pair in ids.windows(2) {
                assert_eq!(pair[0] + 1, pair[1]);
            }
            assert!(file.snapshot_ids().len() <= 1);
        }
        PersisterServerState::Idle => panic!("not open"),
    }
}

fn serve(server: &mut PersisterServer<Digit>, conn: &Connection, cmd: PersistCmd) -> PersistResp {
    match server.serve(cmd) {
        ServerAction::Reply(resp) => {
            write_through(server, conn);
            resp
        }
        other => panic!("unexpected {:?}", other),
    }
}

fn model(server: &PersisterServer<Digit>) -> (i64, u64) {
    match &server.state {
        PersisterServerState::Loaded { cur_cmd_seq_no, model, .. } => (*cur_cmd_seq_no, *model),
        PersisterServerState::Idle => panic!("not open"),
    }
}

#[test]
fn the_journal_written_to_sqlite_gives_the_tables() {
    let conn = create();
    let (mut server, restored, seq_no) = open(&conn, 3);
    assert_eq!((restored, seq_no), (0, 0));

    for digit in 1..=5u8 {
        let resp = serve(
            &mut server,
            &conn,
            PersistCmd::AddCmd { seq_no: digit as i64 - 1, ser_cmd: vec![digit] },
        );
        assert_eq!(resp, PersistResp::AddCmdOk { seq_no: digit as i64 });
    }
    assert_eq!(model(&server), (5, 12345));
    assert_eq!(load(&conn).command_ids(), [3, 4, 5]);
    assert_eq!(load(&conn).snapshot_ids(), [4]);

    assert_eq!(
        serve(&mut server, &conn, PersistCmd::Undo),
        PersistResp::UndoOk { seq_no: 5, serialized_command: vec![5] }
    );
    assert_eq!(
        serve(&mut server, &conn, PersistCmd::Undo),
        PersistResp::UndoOk { seq_no: 4, serialized_command: vec![4] }
    );
    assert_eq!(model(&server), (3, 123));

    // Branch: 4 and 5 are cut off, the snapshot at 4 goes with them.
    assert_eq!(
        serve(&mut server, &conn, PersistCmd::AddCmd { seq_no: 3, ser_cmd: vec![7] }),
        PersistResp::AddCmdOk { seq_no: 4 }
    );
    assert_eq!(model(&server), (4, 1237));
    assert_eq!(load(&conn).command_ids(), [3, 4]);
    assert_eq!(load(&conn).snapshot_ids(), [4]);

    assert_eq!(
        serve(&mut server, &conn, PersistCmd::Undo),
        PersistResp::UndoOk { seq_no: 4, serialized_command: vec![7] }
    );
    assert_eq!(
        serve(&mut server, &conn, PersistCmd::Redo),
        PersistResp::RedoOk { seq_no: 3, serialized_command: vec![7] }
    );
    assert_eq!(model(&server), (4, 1237));
}

#[test]
fn a_store_opened_again_on_sqlite_restores_every_position() {
    let conn = create();
    let (mut server, _, _) = open(&conn, 4);
    for digit in 1..=7u8 {
        serve(&mut server, &conn, PersistCmd::AddCmd { seq_no: digit as i64 - 1, ser_cmd: vec![digit] });
    }
    let mut expected = 1234567;
    for position in (3..=7).rev() {
        assert_eq!(model(&server), (position, expected));
        // Open the file again with another limit: the same position and model.
        let (_, restored, seq_no) = open(&conn, 100);
        assert_eq!((seq_no, restored), (position, expected));
        if position > 3 {
            assert!(matches!(serve(&mut server, &conn, PersistCmd::Undo), PersistResp::UndoOk { .. }));
            expected /= 10;
        }
    }
    assert!(matches!(serve(&mut server, &conn, PersistCmd::Undo), PersistResp::UndoErr(_)));
    for position in 4..=7 {
        assert!(matches!(serve(&mut server, &conn, PersistCmd::Redo), PersistResp::RedoOk { .. }));
        expected = expected * 10 + position as u64;
        let (_, restored, seq_no) = open(&conn, 4);
        assert_eq!((seq_no, restored), (position, expected));
    }
    assert!(matches!(serve(&mut server, &conn, PersistCmd::Redo), PersistResp::RedoErr(_)));
}

#[test]
fn a_smaller_limit_trims_an_older_file() {
    let conn = create();
    let (mut server, _, _) = open(&conn, 5);
    for digit in 1..=5u8 {
        serve(&mut server, &conn, PersistCmd::AddCmd { seq_no: digit as i64 - 1, ser_cmd: vec![digit] });
    }
    assert_eq!(load(&conn).command_ids(), [1, 2, 3, 4, 5]);
    assert!(load(&conn).snapshot_ids().is_empty());

    let (mut server, restored, seq_no) = open(&conn, 2);
    assert_eq!((seq_no, restored), (5, 12345));
    serve(&mut server, &conn, PersistCmd::Undo);
    serve(&mut server, &conn, PersistCmd::AddCmd { seq_no: 4, ser_cmd: vec![8] });
    assert_eq!(model(&server), (5, 12348));
    assert_eq!(load(&conn).command_ids(), [4, 5]);
    assert_eq!(load(&conn).snapshot_ids(), [5]);
    let (_, restored, seq_no) = open(&conn, 2);
    assert_eq!((seq_no, restored), (5, 12348));
}

#[test]
fn a_store_file_on_disk_is_restored_by_another_connection() {
    let dir = tempfile::tempdir().unwrap();
    let path = dir.path().join("db.sqlite");
    {
        let conn = Connection::open(&path).unwrap();
        create_tables(&conn);
        let (mut server, _, _) = open(&conn, 3);
        for digit in 1..=6u8 {
            serve(&mut server, &conn, PersistCmd::AddCmd { seq_no: digit as i64 - 1, ser_cmd: vec![digit] });
        }
        serve(&mut server, &conn, PersistCmd::Undo);
        assert_eq!(model(&server), (5, 12345));
    }
    let conn = Connection::open(&path).unwrap();
    assert_eq!(load(&conn).command_ids(), [4, 5, 6]);
    let (mut server, restored, seq_no) = open(&conn, 3);
    assert_eq!((seq_no, restored), (5, 12345));
    assert_eq!(server.min_max_seq_no(), Some((4, 6)));
    assert_eq!(
        serve(&mut server, &conn, PersistCmd::Redo),
        PersistResp::RedoOk { seq_no: 5, serialized_command: vec![6] }
    );
    assert_eq!(model(&server), (6, 123456));
}
