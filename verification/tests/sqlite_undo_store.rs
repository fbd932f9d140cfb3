use serdo::cmd::{Cmd, EncodedBytes, SerializableCmd};
use serdo::options::Options;
use serdo::persister_server::{write_failed, PersisterServer, ServerAction};
use serdo::protocol::{PersistCmd, PersistResp};
use serdo::sqlite_undo_store::SqliteUndoStore;
use serdo::sqlite_undo_store_error::SqliteUndoStoreError;
use serdo::tables::{DbWrite, Row, Tables};
use std::cell::RefCell;
use std::collections::VecDeque;
use std::rc::Rc;

#[derive(Clone, Debug, PartialEq)]
enum Trace {
    Add,
    Sub,
}

#[derive(Debug)]
struct SerSum {
    pub value: i32,
    pub trace: Vec<Trace>,
    // Not written to the store.
    pub trace_count: usize,
}

impl SerSum {
    fn value(&self) -> i32 {
        self.value
    }

    fn trace_count(&self) -> usize {
        self.trace_count
    }

    fn add(&mut self, i: i32) {
        let new_val = self.value + i;
        self.value = new_val;
        self.trace.push(Trace::Add);
        self.trace_count += 1;
    }

    fn sub(&mut self, i: i32) {
        let new_val = self.value - i;
        self.value = new_val;
        self.trace.push(Trace::Sub);
        self.trace_count += 1;
    }
}

impl Default for SerSum {
    fn default() -> Self {
        Self { value: 0, trace: vec![], trace_count: 0 }
    }
}

#[derive(PartialEq, Debug)]
enum SerSumCmd {
    Add(i32),
    Sub(i32),
}

impl Cmd for SerSumCmd {
    type Model = SerSum;

    fn redone(&self, mut model: SerSum) -> SerSum {
        self.redo(&mut model);
        model
    }

    fn undone(&self, mut model: SerSum) -> SerSum {
        self.undo(&mut model);
        model
    }

    fn redo(&self, model: &mut Self::Model) {
        match self {
            SerSumCmd::Add(i) => model.add(*i),
            SerSumCmd::Sub(i) => model.sub(*i),
        }
    }

    fn undo(&self, model: &mut Self::Model) {
        match self {
            SerSumCmd::Add(i) => model.value -= *i,
            SerSumCmd::Sub(i) => model.value += *i,
        }
    }
}

impl SerializableCmd for SerSumCmd {
    fn encoded(&self) -> Option<EncodedBytes> {
        panic!("stands in contracts only")
    }

    fn decoded(_bytes: EncodedBytes) -> Option<Self> {
        panic!("stands in contracts only")
    }

    fn encoded_model(_model: &SerSum) -> Option<EncodedBytes> {
        panic!("stands in contracts only")
    }

    fn decoded_model(_bytes: EncodedBytes) -> Option<SerSum> {
        panic!("stands in contracts only")
    }

    fn encode(&self) -> Result<Vec<u8>, String> {
        let (tag, i) = match self {
            SerSumCmd::Add(i) => (0u8, *i),
            SerSumCmd::Sub(i) => (1u8, *i),
        };
        let mut bytes = vec![tag];
        bytes.extend_from_slice(&i.to_le_bytes());
        Ok(bytes)
    }

    fn decode(bytes: &Vec<u8>) -> Result<Self, String> {
        if bytes.len() != 5 {
            return Err(format!("a command has 5 bytes, not {}", bytes.len()));
        }
        let i = i32::from_le_bytes([bytes[1], bytes[2], bytes[3], bytes[4]]);
        match bytes[0] {
            0 => Ok(SerSumCmd::Add(i)),
            1 => Ok(SerSumCmd::Sub(i)),
            tag => Err(format!("unknown command {}", tag)),
        }
    }

    fn encode_model(model: &SerSum) -> Result<Vec<u8>, String> {
        let mut bytes = model.value.to_le_bytes().to_vec();
        for t in &model.trace {
            bytes.push(match t {
                Trace::Add => 0,
                Trace::Sub => 1,
            });
        }
        Ok(bytes)
    }

    fn decode_model(bytes: &Vec<u8>) -> Result<SerSum, String> {
        if bytes.len() < 4 {
            return Err(format!("a model has at least 4 bytes, not {}", bytes.len()));
        }
        let value = i32::from_le_bytes([bytes[0], bytes[1], bytes[2], bytes[3]]);
        let mut trace = vec![];
        for b in &bytes[4..] {
            trace.push(match b {
                0 => Trace::Add,
                1 => Trace::Sub,
                other => return Err(format!("unknown trace {}", other)),
            });
        }
        Ok(SerSum { value, trace, trace_count: 0 })
    }
}

/// What a store file holds, changed only by the statements of the journal.
#[derive(Clone, Default)]
struct StoreFile {
    commands: Vec<Row>,
    snapshots: Vec<Row>,
    cmd_seq_no: Vec<i64>,
    locked: bool,
}

impl StoreFile {
    fn execute(&mut self, write: &DbWrite) {
        match write {
            DbWrite::InsertSeqNo(seq_no) => self.cmd_seq_no.push(*seq_no),
            DbWrite::UpdateSeqNo(seq_no) => {
                for row in self.cmd_seq_no.iter_mut() {
                    *row = *seq_no;
                }
            }
            DbWrite::DeleteCommandsFrom(seq_no) => self.commands.retain(|row| row.id < *seq_no),
            DbWrite::InsertCommand(id, serialized) => {
                assert!(self.commands.iter().all(|row| row.id != *id));
                self.commands.push(Row { id: *id, serialized: serialized.clone() });
                self.commands.sort_by_key(|row| row.id);
            }
            DbWrite::TrimCommands(limit) => {
                let len = self.commands.len();
                if len > *limit {
                    self.commands.drain(..len - *limit);
                }
            }
            DbWrite::InsertSnapshot(id, serialized) => {
                assert!(self.snapshots.iter().all(|row| row.id != *id));
                self.snapshots.push(Row { id: *id, serialized: serialized.clone() });
                self.snapshots.sort_by_key(|row| row.id);
            }
            DbWrite::DeleteSnapshots => self.snapshots.clear(),
            DbWrite::TrimSnapshots => {
                let len = self.snapshots.len();
                if len > 1 {
                    self.snapshots.drain(..len - 1);
                }
            }
        }
    }
}

type File = Rc<RefCell<StoreFile>>;

fn new_file() -> File {
    Rc::new(RefCell::new(StoreFile::default()))
}

fn cmd_ids(file: &File) -> Vec<i64> {
    file.borrow().commands.iter().map(|row| row.id).collect()
}

fn snapshot_ids(file: &File) -> Vec<i64> {
    file.borrow().snapshots.iter().map(|row| row.id).collect()
}

/// A store with its worker, run in one thread: requests wait in a queue until
/// the worker is given time.
struct Durable {
    store: SqliteUndoStore<SerSumCmd, SerSum, ()>,
    server: PersisterServer<SerSumCmd>,
    requests: VecDeque<PersistCmd>,
    responses: VecDeque<PersistResp>,
    file: File,
}

fn open_file(file: &File, dir: &str) -> Result<Tables, SqliteUndoStoreError> {
    let mut f = file.borrow_mut();
    if f.locked {
        return Err(SqliteUndoStoreError::CannotLock {
            path: format!("{}/lock", dir),
            error: "exists".to_string(),
        });
    }
    f.locked = true;
    assert!(f.cmd_seq_no.len() <= 1);
    let tables = Tables::from_rows(f.commands.clone(), f.snapshots.clone(), f.cmd_seq_no.first().copied());
    Ok(tables.unwrap())
}

fn flush(server: &mut PersisterServer<SerSumCmd>, file: &File) {
    for write in server.take_writes() {
        file.borrow_mut().execute(&write);
    }
}

impl Durable {
    fn open(file: &File, options: Options<SerSum>) -> Result<Durable, SqliteUndoStoreError> {
        let dir = "klavier".to_string();
        let mut server: PersisterServer<SerSumCmd> = PersisterServer::new(options.undo_limit);
        let resp = match server.serve(PersistCmd::Open { dir: dir.clone() }) {
            ServerAction::Open { dir } => {
                let loaded = open_file(file, &dir);
                match server.opened(dir.clone(), format!("{}/db.sqlite", dir), loaded) {
                    ServerAction::Reply(resp) => {
                        flush(&mut server, file);
                        resp
                    }
                    ServerAction::Refuse { unlock: _, resp } => {
                        file.borrow_mut().locked = false;
                        resp
                    }
                    other => panic!("unexpected {:?}", other),
                }
            }
            other => panic!("unexpected {:?}", other),
        };
        let store = SqliteUndoStore::open(dir, resp, options)?;
        Ok(Durable {
            store,
            server,
            requests: VecDeque::new(),
            responses: VecDeque::new(),
            file: file.clone(),
        })
    }

    /// Lets the worker take in the requests that wait.
    fn work(&mut self) {
        while let Some(request) = self.requests.pop_front() {
            match self.server.serve(request) {
                ServerAction::Reply(resp) => {
                    flush(&mut self.server, &self.file);
                    self.responses.push_back(resp);
                }
                ServerAction::Close { unlock } => {
                    if unlock.is_some() {
                        self.file.borrow_mut().locked = false;
                    }
                    self.responses.push_back(PersistResp::CloseOk);
                }
                other => panic!("unexpected {:?}", other),
            }
        }
    }

    fn model(&self) -> &SerSum {
        self.store.model()
    }

    fn add_cmd(&mut self, cmd: SerSumCmd) {
        let request = self.store.add_cmd(cmd).unwrap();
        self.requests.push_back(request);
    }

    fn add(&mut self, to_add: i32) -> Result<(), SqliteUndoStoreError> {
        self.add_cmd(SerSumCmd::Add(to_add));
        Ok(())
    }

    fn sub(&mut self, to_sub: i32) -> Result<(), SqliteUndoStoreError> {
        self.add_cmd(SerSumCmd::Sub(to_sub));
        Ok(())
    }

    fn saved(&mut self) -> Result<bool, SqliteUndoStoreError> {
        while let Some(resp) = self.responses.pop_front() {
            self.store.process_resp(resp)?;
        }
        Ok(self.store.saved())
    }

    fn can_undo(&self) -> bool {
        self.store.can_undo()
    }

    fn can_redo(&self) -> bool {
        self.store.can_redo()
    }

    fn undo(&mut self) {
        if let Some(request) = self.store.undo() {
            self.requests.push_back(request);
            self.work();
            loop {
                let resp = self.responses.pop_front().unwrap();
                if let Some(done) = self.store.wait_undo_resp(resp) {
                    done.unwrap();
                    break;
                }
            }
        }
    }

    fn redo(&mut self) {
        if let Some(request) = self.store.redo() {
            self.requests.push_back(request);
            self.work();
            loop {
                let resp = self.responses.pop_front().unwrap();
                if let Some(done) = self.store.wait_redo_resp(resp) {
                    done.unwrap();
                    break;
                }
            }
        }
    }

    fn save_as(&mut self) -> File {
        let mut copy = self.file.borrow().clone();
        copy.locked = false;
        Rc::new(RefCell::new(copy))
    }

    fn close(mut self) {
        let request = self.store.close();
        self.requests.push_back(request);
        self.work();
        loop {
            let resp = self.responses.pop_front().unwrap();
            if self.store.wait_close_resp(&resp) {
                break;
            }
        }
    }
}

fn wait_add_cmd_completion(store: &mut Durable) {
    loop {
        if store.saved().unwrap() {
            break;
        }
        store.work();
    }
}

#[test]
fn file_store_can_lock() {
    let file = new_file();
    let store = Durable::open(&file, Options::new()).unwrap();

    let store2_err = Durable::open(&file, Options::new()).err().unwrap();
    match store2_err {
        SqliteUndoStoreError::CannotLock { path: err_dir, error: _ } => {
            assert_eq!(err_dir, "klavier/lock");
        }
        _ => {
            panic!("Test failed. {:?}", store2_err)
        }
    };

    store.close();

    let _ = Durable::open(&file, Options::new()).unwrap();
}

#[test]
fn can_serialize_cmd() {
    let file = new_file();
    let mut store = Durable::open(&file, Options::new()).unwrap();

    store.add(123).unwrap();
    assert_eq!(store.model().value(), 123);
    store.sub(234).unwrap();
    assert_eq!(store.model().value(), 123 - 234);

    wait_add_cmd_completion(&mut store);

    let rows = file.borrow().commands.clone();
    let mut rows = rows.iter();

    let rec = rows.next().unwrap();
    assert_eq!(rec.id, 1);
    let cmd = SerSumCmd::decode(&rec.serialized).unwrap();
    assert_eq!(cmd, SerSumCmd::Add(123));

    let rec = rows.next().unwrap();
    assert_eq!(rec.id, 2);
    let cmd = SerSumCmd::decode(&rec.serialized).unwrap();
    assert_eq!(cmd, SerSumCmd::Sub(234));

    assert!(rows.next().is_none());
}

#[test]
fn can_undo_serialize_cmd() {
    let file = new_file();
    let mut store = Durable::open(&file, Options::new()).unwrap();

    assert_eq!(store.can_undo(), false);

    store.add(123).unwrap();
    assert_eq!(store.model().value(), 123);
    wait_add_cmd_completion(&mut store);
    assert!(store.can_undo());

    store.sub(234).unwrap();
    assert_eq!(store.model().value(), 123 - 234);
    wait_add_cmd_completion(&mut store);
    assert!(store.can_undo());

    store.undo();
    assert_eq!(store.model().value(), 123);

    store.undo();
    assert_eq!(store.model().value(), 0);

    store.redo();
    assert_eq!(store.model().value(), 123);

    store.redo();
    assert_eq!(store.model().value(), 123 - 234);
}

#[test]
fn file_undo_store_can_serialize() {
    let file = new_file();
    let mut store = Durable::open(&file, Options::new()).unwrap();
    store.add(123).unwrap();
    wait_add_cmd_completion(&mut store);
    assert_eq!(store.model().value(), 123);

    store.close();

    let mut store = Durable::open(&file, Options::new()).unwrap();
    assert_eq!(store.model().value(), 123);
    store.undo();
    assert_eq!(store.model().value(), 0);
}

#[test]
fn file_undo_store_undo_and_add() {
    let file = new_file();
    let mut store = Durable::open(&file, Options::new()).unwrap();
    store.add(1).unwrap();
    store.add(2).unwrap();
    store.add(3).unwrap();
    wait_add_cmd_completion(&mut store);
    // 1, 2, 3
    assert_eq!(store.model().value(), 6);

    store.undo();
    // 1, 2
    store.undo();
    // 1

    store.add(100).unwrap();
    wait_add_cmd_completion(&mut store);
    // 1, 100
    assert_eq!(store.model().value(), 101);
}

#[test]
fn file_undo_store_can_set_limit() {
    let file = new_file();
    let mut store = Durable::open(&file, Options::new().with_undo_limit(5)).unwrap();
    store.add(1).unwrap();
    store.add(2).unwrap();
    store.add(3).unwrap();
    store.add(4).unwrap();
    store.add(5).unwrap();
    store.add(6).unwrap(); // 2, 3, 4, 5, 6
    wait_add_cmd_completion(&mut store);
    assert_eq!(store.model().value(), 1 + 2 + 3 + 4 + 5 + 6);

    store.undo();
    store.undo();
    store.undo();
    store.undo();
    store.undo();
    assert_eq!(store.model().value(), 1);

    store.undo(); // Just ignored.
    assert_eq!(store.model().value(), 1);
}

#[test]
fn file_undo_store_can_set_limit_and_recover() {
    let file = new_file();
    let mut store = Durable::open(&file, Options::new().with_undo_limit(5)).unwrap();
    store.add(1).unwrap();
    store.add(2).unwrap();
    store.add(3).unwrap();
    store.add(4).unwrap();
    store.add(5).unwrap();
    store.add(6).unwrap(); // 2, 3, 4, 5, 6 (1 is deleted since undo limit is 5.)
    wait_add_cmd_completion(&mut store);
    assert_eq!(store.model().value(), 1 + 2 + 3 + 4 + 5 + 6);
    store.close();

    let store = Durable::open(&file, Options::new().with_undo_limit(5)).unwrap();
    assert_eq!(store.model().value(), 1 + 2 + 3 + 4 + 5 + 6);
}

#[test]
fn file_undo_store_can_restore() {
    let file = new_file();

    let mut store = Durable::open(&file, Options::new().with_undo_limit(5)).unwrap();
    store.add(1).unwrap();
    store.add(2).unwrap();
    store.add(3).unwrap();
    store.add(4).unwrap();
    wait_add_cmd_completion(&mut store);

    assert_eq!(cmd_ids(&file), [1, 2, 3, 4]);

    store.add(5).unwrap();
    wait_add_cmd_completion(&mut store);
    assert_eq!(cmd_ids(&file), [1, 2, 3, 4, 5]);

    // 2, 3, 4, 5, 6 (1 is deleted since undo limit is 5.)
    // snapshot of 6 is taken.
    store.add(6).unwrap();
    wait_add_cmd_completion(&mut store);
    assert_eq!(cmd_ids(&file), [2, 3, 4, 5, 6]);

    // [1] -cmd2(+2)-> [3] -cmd3(+3)-> [6] -cmd4(+4)-> [10] -cmd5(+5)-> [15] -cmd6(+6)-> [21]
    //                                                                                   ^ snapshot(id=6)
    assert_eq!(store.model().value(), 1 + 2 + 3 + 4 + 5 + 6);
    assert_eq!(cmd_ids(&file), [2, 3, 4, 5, 6]);
    assert_eq!(snapshot_ids(&file), [6]);

    store.close();
    let mut store = Durable::open(&file, Options::new().with_undo_limit(5)).unwrap();
    assert_eq!(store.model().value(), 1 + 2 + 3 + 4 + 5 + 6);
    assert_eq!(cmd_ids(&file), [2, 3, 4, 5, 6]);
    assert_eq!(snapshot_ids(&file), [6]);

    store.undo();
    // [1] -cmd2(+2)-> [3] -cmd3(+3)-> [6] -cmd4(+4)-> [10] -cmd5(+5)-> [15] -cmd6(+6)-> [21]
    //                                                                  ^ current        ^ snapshot(id=6)
    assert_eq!(store.model().value(), 1 + 2 + 3 + 4 + 5);
    assert_eq!(cmd_ids(&file), [2, 3, 4, 5, 6]);
    assert_eq!(snapshot_ids(&file), [6]);

    store.close();
    let mut store = Durable::open(&file, Options::new().with_undo_limit(5)).unwrap();
    assert_eq!(store.model().value(), 1 + 2 + 3 + 4 + 5);

    store.undo();
    // [1] -cmd2(+2)-> [3] -cmd3(+3)-> [6] -cmd4(+4)-> [10] -cmd5(+5)-> [15] -cmd6(+6)-> [21]
    //                                                 ^ current                         ^ snapshot(id=6)
    assert_eq!(store.model().value(), 1 + 2 + 3 + 4);

    store.close();
    let mut store = Durable::open(&file, Options::new().with_undo_limit(5)).unwrap();
    assert_eq!(store.model().value(), 1 + 2 + 3 + 4);

    store.add(7).unwrap();
    wait_add_cmd_completion(&mut store);
    // [1] -cmd2(+2)-> [3] -cmd3(+3)-> [6] -cmd4(+4)-> [10] -cmd5(+7)-> [15]
    //                                                                  ^ snapshot(id=5)
    assert_eq!(store.model().value(), 1 + 2 + 3 + 4 + 7);
    assert_eq!(cmd_ids(&file), [2, 3, 4, 5]);
    assert_eq!(snapshot_ids(&file), [5]);

    store.close();

    let store = Durable::open(&file, Options::new().with_undo_limit(5)).unwrap();
    assert_eq!(store.model().value(), 1 + 2 + 3 + 4 + 7);
}

#[test]
fn can_save_as() {
    let from_file = new_file();

    let mut store = Durable::open(&from_file, Options::new().with_undo_limit(5)).unwrap();
    store.add(1).unwrap();
    store.add(2).unwrap();
    store.add(3).unwrap();
    store.add(4).unwrap();
    store.add(5).unwrap();
    wait_add_cmd_completion(&mut store);

    // 2, 3, 4, 5, 6 (1 is deleted since undo limit is 5.)
    // snapshot of 6 is taken.
    store.add(6).unwrap();
    wait_add_cmd_completion(&mut store);

    let to_file = store.save_as();
    store.close();
    let mut store = Durable::open(&to_file, Options::new().with_undo_limit(5)).unwrap();

    assert_eq!(store.model().value(), 1 + 2 + 3 + 4 + 5 + 6);

    store.undo();
    assert_eq!(store.model().value(), 1 + 2 + 3 + 4 + 5);

    store.redo();
    assert_eq!(store.model().value(), 1 + 2 + 3 + 4 + 5 + 6);

    let mut store = Durable::open(&from_file, Options::new().with_undo_limit(5)).unwrap();
    assert_eq!(store.model().value(), 1 + 2 + 3 + 4 + 5 + 6);
    store.undo();
    assert_eq!(store.model().value(), 1 + 2 + 3 + 4 + 5);
    store.redo();
    assert_eq!(store.model().value(), 1 + 2 + 3 + 4 + 5 + 6);
}

#[test]
fn can_restore_undo_point() {
    let file = new_file();
    let mut store = Durable::open(&file, Options::new().with_undo_limit(5)).unwrap();
    store.add(1).unwrap();
    store.add(2).unwrap();
    store.add(3).unwrap();
    wait_add_cmd_completion(&mut store);

    assert_eq!(store.model().value(), 6);

    store.undo(); // 2, 3, 4, 5
    store.undo(); // 2, 3, 4
    assert_eq!(store.model().value(), 1);

    store.close();

    let store = Durable::open(&file, Options::new().with_undo_limit(5)).unwrap();
    assert_eq!(store.model().value(), 1);
}

#[test]
fn can_restore_undo_point_pattern1() {
    let file = new_file();
    let mut store = Durable::open(&file, Options::new().with_undo_limit(1)).unwrap();
    store.add(1).unwrap();
    store.add(2).unwrap();
    wait_add_cmd_completion(&mut store);

    //     Snapshot
    // +1, +2
    //      ^cur_seq_no

    assert_eq!(store.model().value(), 3);

    store.undo();
    //     Snapshot
    // +1, +2
    //  ^cur_seq_no

    assert_eq!(store.model().value(), 1);

    store.close();

    let store = Durable::open(&file, Options::new().with_undo_limit(5)).unwrap();
    assert_eq!(store.model().value(), 1);
}

#[test]
fn can_restore_undo_point_pattern2() {
    let file = new_file();
    let mut store = Durable::open(&file, Options::new().with_undo_limit(1)).unwrap();
    store.add(1).unwrap();
    store.add(2).unwrap();
    wait_add_cmd_completion(&mut store);

    //     Snapshot
    // +1, +2
    //      ^cur_seq_no

    store.add(3).unwrap();
    //     Snapshot
    // +1, +2, +3
    //          ^cur_seq_no
    wait_add_cmd_completion(&mut store);

    assert_eq!(store.model().value(), 6);

    store.undo();
    //     Snapshot
    // +1, +2, +3
    //      ^cur_seq_no

    assert_eq!(store.model().value(), 3);

    store.close();

    let store = Durable::open(&file, Options::new().with_undo_limit(5)).unwrap();
    assert_eq!(store.model().value(), 3);
}

#[test]
fn can_restore_undo_point_pattern3() {
    let file = new_file();
    let mut store = Durable::open(&file, Options::new().with_undo_limit(1)).unwrap();
    store.add(1).unwrap();
    store.add(2).unwrap();
    wait_add_cmd_completion(&mut store);
    assert_eq!(cmd_ids(&file), [2]);
    assert_eq!(snapshot_ids(&file), [2]);

    //     Snapshot
    // +1, +2
    //      ^cur_seq_no

    store.add(3).unwrap();
    store.add(4).unwrap();
    wait_add_cmd_completion(&mut store);
    //     Snapshot
    // +1, +2, +3, +4
    //              ^cur_seq_no

    assert_eq!(store.model().value(), 10);

    store.undo();
    //     Snapshot
    // +1, +2, +3, +4
    //          ^cur_seq_no

    assert_eq!(store.model().value(), 6);
    assert_eq!(cmd_ids(&file), [4]);

    store.close();

    let store = Durable::open(&file, Options::new().with_undo_limit(5)).unwrap();
    assert_eq!(cmd_ids(&file), [4]);
    assert_eq!(store.model().value(), 6);
}

#[test]
fn snapshots_are_created() {
    let file = new_file();
    let mut store = Durable::open(&file, Options::new().with_undo_limit(3)).unwrap();
    store.add(1).unwrap(); // cmd1
    store.add(2).unwrap(); // cmd2
    store.add(3).unwrap(); // cmd3
    wait_add_cmd_completion(&mut store);

    // [0] -cmd1(+1)-> [1] -cmd2(+2)-> [3] -cmd3(+3)-> [6]
    assert_eq!(snapshot_ids(&file).len(), 0);

    // cmd1 should be removed because undo_limit = 3.
    store.add(4).unwrap();
    wait_add_cmd_completion(&mut store);
    // [1] -cmd2(+2)-> [3] -cmd3(+3)-> [6] -cmd4(+4)-> [10]
    //                                                 ^ snap(id=4)

    {
        let ids = snapshot_ids(&file);
        assert_eq!(ids.len(), 1);
        assert_eq!(ids[0], 4);
    }

    store.add(5).unwrap();
    wait_add_cmd_completion(&mut store);
    // [3] -cmd3(+3)-> [6] -cmd4(+4)-> [10] -cmd5(+5)-> [15]
    //                                 ^ snap(id=4)
    assert_eq!(store.model().value(), 15);
    {
        let ids = snapshot_ids(&file);
        assert_eq!(ids.len(), 1);
        assert_eq!(ids[0], 4);
    }

    store.add(6).unwrap();
    wait_add_cmd_completion(&mut store);
    // [6] -cmd4(+4)-> [10] -cmd5(+5)-> [15] -cmd6(+6)-> [21]
    //                 ^ snap(id=4)
    assert_eq!(store.model().value(), 21);
    {
        let ids = snapshot_ids(&file);
        assert_eq!(ids.len(), 1);
        assert_eq!(ids[0], 4);
    }

    store.add(7).unwrap();
    wait_add_cmd_completion(&mut store);
    // [10] -cmd5(+5)-> [15] -cmd6(+6)-> [21] -cmd7(+7)-> [28]
    // ^ snap(id=4)
    assert_eq!(store.model().value(), 28);
    {
        let ids = snapshot_ids(&file);
        assert_eq!(ids.len(), 1);
        assert_eq!(ids[0], 4);
    }

    store.add(8).unwrap();
    wait_add_cmd_completion(&mut store);
    // [15] -cmd6(+6)-> [21] -cmd7(+7)-> [28] -cmd8(+8)-> [36]
    //                                                    ^ snap(id=8)
    assert_eq!(store.model().value(), 36);
    {
        let ids = snapshot_ids(&file);
        assert_eq!(ids.len(), 1);
        assert_eq!(ids[0], 8);
    }

    store.close();
    let mut store = Durable::open(&file, Options::new()).unwrap();
    assert_eq!(store.model().value(), 36);

    store.undo();
    assert_eq!(store.model().value(), 28);
}

#[test]
fn on_snapshot_restored() {
    let file = new_file();
    let mut store = Durable::open(&file, Options::new().with_undo_limit(3)).unwrap();
    store.add(1).unwrap(); // cmd1
    store.add(2).unwrap(); // cmd2
    store.add(3).unwrap(); // cmd3
    store.add(4).unwrap(); // cmd3
    store.add(5).unwrap(); // cmd3
    wait_add_cmd_completion(&mut store);

    assert_eq!(store.model().value(), 15);
    assert_eq!(store.model().trace_count(), 5);
    store.close();

    let store = Durable::open(&file, Options::new().with_undo_limit(3)).unwrap();
    assert_eq!(store.model().value(), 15);
    assert_ne!(store.model().trace_count(), 5);
    store.close();

    let store = Durable::open(
        &file,
        Options::new().with_undo_limit(3).with_on_snapshot_restored(Box::new(|sersum: SerSum| {
            SerSum { trace_count: sersum.trace.len(), ..sersum }
        })),
    )
    .unwrap();
    assert_eq!(store.model().value(), 15);
    assert_eq!(store.model().trace_count(), 5);
}

#[test]
fn durable_restore_after_limit() {
    let file = new_file();
    let mut store = Durable::open(&file, Options::new().with_undo_limit(5)).unwrap();
    for i in 1..=6 {
        store.add(i).unwrap();
    }
    wait_add_cmd_completion(&mut store);
    store.close();

    let mut store = Durable::open(&file, Options::new().with_undo_limit(5)).unwrap();
    assert_eq!(store.model().value(), 21);
    assert_eq!(snapshot_ids(&file), [6]);
    for _ in 0..5 {
        assert!(store.can_undo());
        store.undo();
    }
    assert_eq!(store.model().value(), 1);
    assert!(!store.can_undo());
    store.undo();
    assert_eq!(store.model().value(), 1);
}

#[test]
fn durable_branch() {
    let file = new_file();
    let mut store = Durable::open(&file, Options::new().with_undo_limit(5)).unwrap();
    for i in 1..=6 {
        store.add(i).unwrap();
    }
    wait_add_cmd_completion(&mut store);
    store.undo();
    store.undo();
    store.add(7).unwrap();
    wait_add_cmd_completion(&mut store);
    assert_eq!(store.model().value(), 17);
    assert!(!store.can_redo());
    store.close();

    let store = Durable::open(&file, Options::new().with_undo_limit(5)).unwrap();
    assert_eq!(store.model().value(), 17);
    // Add(1) was trimmed, Add(5) and Add(6) were cut off by the branch.
    assert_eq!(cmd_ids(&file), [2, 3, 4, 5]);
    assert_eq!(snapshot_ids(&file), [5]);
    assert!(store.can_undo());
    assert!(!store.can_redo());
}

#[test]
fn reopened_store_matches_the_closed_one() {
    let file = new_file();
    let mut store = Durable::open(&file, Options::new().with_undo_limit(4)).unwrap();
    for i in 1..=9 {
        store.add(i).unwrap();
    }
    store.sub(3).unwrap();
    wait_add_cmd_completion(&mut store);
    store.undo();
    store.undo();
    store.undo();
    store.redo();
    let value = store.model().value();
    let (can_undo, can_redo) = (store.can_undo(), store.can_redo());
    assert_eq!(value, 1 + 2 + 3 + 4 + 5 + 6 + 7 + 8);
    assert_eq!((can_undo, can_redo), (true, true));
    store.close();

    let store = Durable::open(&file, Options::new().with_undo_limit(4)).unwrap();
    assert_eq!(store.model().value(), value);
    assert_eq!((store.can_undo(), store.can_redo()), (can_undo, can_redo));
    let ids = cmd_ids(&file);
    assert_eq!(ids, [7, 8, 9, 10]);
    assert!(snapshot_ids(&file).len() <= 1);
}

#[test]
fn a_write_failure_is_answered_as_a_failure_of_the_request() {
    let err = SqliteUndoStoreError::DbError("klavier/db.sqlite".to_string(), "disk full".to_string());
    assert_eq!(
        write_failed(PersistResp::AddCmdOk { seq_no: 3 }, err.clone()),
        PersistResp::AddCmdErr(err.clone())
    );
    assert_eq!(
        write_failed(PersistResp::UndoOk { seq_no: 3, serialized_command: vec![1] }, err.clone()),
        PersistResp::UndoErr(err.clone())
    );
    assert_eq!(
        write_failed(PersistResp::RedoOk { seq_no: 3, serialized_command: vec![1] }, err.clone()),
        PersistResp::RedoErr(err.clone())
    );
    assert_eq!(
        write_failed(
            PersistResp::OpenOk { serialized_model: vec![], seq_no: 0, min_max_seq_no: None },
            err.clone()
        ),
        PersistResp::OpenErr(err.clone())
    );
    assert_eq!(write_failed(PersistResp::CloseOk, err.clone()), PersistResp::CloseErr(err.clone()));
    let other = SqliteUndoStoreError::CannotUndoRedo;
    assert_eq!(write_failed(PersistResp::UndoErr(other.clone()), err), PersistResp::UndoErr(other));
}
