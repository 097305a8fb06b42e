use std::collections::{HashMap, HashSet};

use grade_store::location::{document_path, DOCUMENT_FILE_NAME};
use grade_store::service::{Action, Command, Event, Reply, Session, EMPTY_DOCUMENT};

/// A disk held in memory, with writes and reads that can be made to fail.
#[derive(Default)]
struct MemoryDisk {
    dirs: HashSet<String>,
    files: HashMap<String, String>,
    write_error: Option<String>,
    read_error: Option<String>,
}

impl MemoryDisk {
    fn perform(&mut self, action: &Action) -> Event {
        match action {
            Action::CreateRoot(dir) => {
                self.dirs.insert(dir.clone());
                Event::RootCreated
            }
            Action::Write(path, content) => match &self.write_error {
                Some(e) => Event::Written(Err(e.clone())),
                None => {
                    self.files.insert(path.clone(), content.clone());
                    Event::Written(Ok(()))
                }
            },
            Action::CheckExists(path) => Event::Checked(self.files.contains_key(path)),
            Action::Read(path) => match &self.read_error {
                Some(e) => Event::ReadDone(Err(e.clone())),
                None => Event::ReadDone(Ok(self.files[path].clone())),
            },
            Action::Finish(_) => panic!("a finished operation asks for no disk work"),
        }
    }

    /// Runs one operation to its end; gives its reply and how many pieces of
    /// disk work it asked for.
    fn run(&mut self, command: Command, root: &str) -> (Reply, usize) {
        let (mut session, mut action) = Session::start(command, root);
        let mut work: usize = 0;
        loop {
            if let Action::Finish(reply) = action {
                return (reply, work);
            }
            work += 1;
            let event = self.perform(&action);
            assert!(session.awaits(&event));
            action = session.step(event);
        }
    }
}

const ROOT: &str = "/home/user/.local/share/com.grades.app";

fn save(disk: &mut MemoryDisk, content: &str) -> Reply {
    disk.run(Command::Save(content.to_string()), ROOT).0
}

fn load(disk: &mut MemoryDisk) -> Reply {
    disk.run(Command::Load, ROOT).0
}

fn locate(disk: &mut MemoryDisk) -> Reply {
    disk.run(Command::Locate, ROOT).0
}

#[test]
fn fresh_install_scenario() {
    let mut disk = MemoryDisk::default();
    let located = locate(&mut disk);
    match &located {
        Reply::Located(path) => assert!(path.ends_with("grade_data.json")),
        other => panic!("unexpected reply {:?}", other),
    }
    assert!(disk.dirs.contains(ROOT));
    assert_eq!(load(&mut disk), Reply::Loaded(Ok("{}".to_string())));
    assert_eq!(save(&mut disk, "{\"term\":\"Fall\"}"), Reply::Saved(Ok(())));
    assert_eq!(load(&mut disk), Reply::Loaded(Ok("{\"term\":\"Fall\"}".to_string())));
}

#[test]
fn save_then_load_gives_back_the_text() {
    let mut disk = MemoryDisk::default();
    let text = "{\"students\":[{\"name\":\"Ana\",\"grade\":93}],\"note\":\"é ✓\"}\n";
    assert_eq!(save(&mut disk, text), Reply::Saved(Ok(())));
    assert_eq!(load(&mut disk), Reply::Loaded(Ok(text.to_string())));
}

#[test]
fn save_then_load_of_empty_text() {
    let mut disk = MemoryDisk::default();
    assert_eq!(save(&mut disk, ""), Reply::Saved(Ok(())));
    assert_eq!(load(&mut disk), Reply::Loaded(Ok(String::new())));
}

#[test]
fn load_without_a_save_gives_the_empty_document() {
    let mut disk = MemoryDisk::default();
    assert_eq!(load(&mut disk), Reply::Loaded(Ok(EMPTY_DOCUMENT.to_string())));
    assert_eq!(EMPTY_DOCUMENT, "{}");
    assert!(disk.files.is_empty());
}

#[test]
fn repeating_an_operation_changes_nothing() {
    let mut disk = MemoryDisk::default();
    disk.dirs.insert(ROOT.to_string());
    for command in [Command::Locate, Command::Load] {
        let again = match &command {
            Command::Locate => Command::Locate,
            _ => Command::Load,
        };
        let first = disk.run(command, ROOT);
        let files = disk.files.clone();
        let second = disk.run(again, ROOT);
        assert_eq!(first, second);
        assert_eq!(files, disk.files);
    }
    let first = disk.run(Command::Save("{\"a\":1}".to_string()), ROOT);
    let files = disk.files.clone();
    let second = disk.run(Command::Save("{\"a\":1}".to_string()), ROOT);
    assert_eq!(first, (Reply::Saved(Ok(())), 2));
    assert_eq!(first, second);
    assert_eq!(files, disk.files);
    assert_eq!(disk.dirs.len(), 1);
}

#[test]
fn second_save_replaces_the_first() {
    let mut disk = MemoryDisk::default();
    assert_eq!(save(&mut disk, "{\"term\":\"Fall\",\"extra\":true}"), Reply::Saved(Ok(())));
    assert_eq!(save(&mut disk, "{\"term\":\"Spring\"}"), Reply::Saved(Ok(())));
    assert_eq!(load(&mut disk), Reply::Loaded(Ok("{\"term\":\"Spring\"}".to_string())));
    assert_eq!(disk.files.len(), 1);
}

#[test]
fn locate_gives_the_same_path_every_time() {
    let mut disk = MemoryDisk::default();
    let first = locate(&mut disk);
    save(&mut disk, "{}");
    let second = locate(&mut disk);
    assert_eq!(first, second);
    assert_eq!(first, Reply::Located(format!("{}/grade_data.json", ROOT)));
}

#[test]
fn locate_asks_only_for_the_root() {
    let mut disk = MemoryDisk::default();
    let (reply, work) = disk.run(Command::Locate, ROOT);
    assert_eq!(work, 1);
    assert!(matches!(reply, Reply::Located(_)));
    assert!(disk.files.is_empty());
}

#[test]
fn document_path_joins_root_and_name() {
    assert_eq!(document_path("/data/app"), "/data/app/grade_data.json");
    assert_eq!(document_path("/data/app/"), "/data/app/grade_data.json");
    assert_eq!(DOCUMENT_FILE_NAME, "grade_data.json");
}

#[test]
fn failed_write_is_reported() {
    let mut disk = MemoryDisk::default();
    disk.write_error = Some("No space left on device (os error 28)".to_string());
    assert_eq!(
        save(&mut disk, "{\"term\":\"Fall\"}"),
        Reply::Saved(Err("No space left on device (os error 28)".to_string()))
    );
    assert!(disk.files.is_empty());
}

#[test]
fn failed_read_of_an_existing_file_is_reported() {
    let mut disk = MemoryDisk::default();
    save(&mut disk, "{\"term\":\"Fall\"}");
    disk.read_error = Some("Permission denied (os error 13)".to_string());
    assert_eq!(
        load(&mut disk),
        Reply::Loaded(Err("Permission denied (os error 13)".to_string()))
    );
}

#[test]
fn session_waits_on_the_pending_answer_only() {
    let (mut session, action) = Session::start(Command::Load, ROOT);
    assert_eq!(action, Action::CreateRoot(ROOT.to_string()));
    assert!(session.awaits(&Event::RootCreated));
    assert!(!session.awaits(&Event::Checked(true)));
    let path = document_path(ROOT);
    assert_eq!(session.step(Event::RootCreated), Action::CheckExists(path.clone()));
    assert!(session.awaits(&Event::Checked(true)));
    assert!(!session.awaits(&Event::Written(Ok(()))));
    assert_eq!(session.step(Event::Checked(true)), Action::Read(path));
    assert!(session.awaits(&Event::ReadDone(Ok(String::new()))));
    assert_eq!(
        session.step(Event::ReadDone(Ok("[]".to_string()))),
        Action::Finish(Reply::Loaded(Ok("[]".to_string())))
    );
    assert!(!session.awaits(&Event::RootCreated));
}
