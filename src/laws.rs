//! What the service guarantees over whole operations, on a model of a disk on
//! which nothing fails.

use vstd::prelude::*;
use crate::location::document_path_of;
use crate::service::{start_of, ActionView, CommandView, EventView, ReplyView, SessionView, EMPTY_DOCUMENT};

verus! {

/// The disk as the service sees it: the directories that exist, and the text
/// of each file by its path.
pub struct Disk {
    pub dirs: Set<Seq<char>>,
    pub files: Map<Seq<char>, Seq<char>>,
}

impl Disk {
    /// The disk after the host performs `action` on it, with nothing failing,
    /// and the event that the host reports. A finishing action asks for no
    /// disk work; it is never performed.
    pub open spec fn perform(self, action: ActionView) -> (Disk, EventView) {
        match action {
            ActionView::CreateRoot(dir) => (Disk { dirs: self.dirs.insert(dir), ..self }, EventView::RootCreated),
            ActionView::Write(path, content) => (
                Disk { files: self.files.insert(path, content), ..self },
                EventView::Written(Ok(())),
            ),
            ActionView::CheckExists(path) => (self, EventView::Checked(self.files.contains_key(path))),
            ActionView::Read(path) => (self, EventView::ReadDone(Ok(self.files[path]))),
            ActionView::Finish(_) => (self, EventView::RootCreated),
        }
    }
}

/// Carries a session on from `action` for at most `fuel` pieces of disk work:
/// the disk at the end, and the reply if the session finished.
pub open spec fn drive(disk: Disk, session: SessionView, action: ActionView, fuel: nat) -> (Disk, Option<ReplyView>)
    decreases fuel,
{
    if let ActionView::Finish(reply) = action {
        (disk, Some(reply))
    } else if fuel == 0 {
        (disk, None)
    } else {
        let (next_disk, event) = disk.perform(action);
        if session.awaits(event) {
            let (next_session, next_action) = session.step(event);
            drive(next_disk, next_session, next_action, (fuel - 1) as nat)
        } else {
            (next_disk, None)
        }
    }
}

/// `command` on the storage root `root`, run to its end: no operation needs
/// more than three pieces of disk work.
pub open spec fn run(disk: Disk, command: CommandView, root: Seq<char>) -> (Disk, Option<ReplyView>) {
    let (session, action) = start_of(command, root);
    drive(disk, session, action, 3)
}

/// Whether a reply reports success.
pub open spec fn is_success(reply: ReplyView) -> bool {
    match reply {
        ReplyView::Saved(r) => r is Ok,
        ReplyView::Loaded(r) => r is Ok,
        ReplyView::Located(_) => true,
    }
}

/// A save succeeds, and a load right after it gives back exactly the text saved.
pub proof fn lemma_round_trip(disk: Disk, root: Seq<char>, content: Seq<char>)
    ensures
        run(disk, CommandView::Save(content), root).1 == Some(ReplyView::Saved(Ok(()))),
        run(run(disk, CommandView::Save(content), root).0, CommandView::Load, root).1
            == Some(ReplyView::Loaded(Ok(content))),
{
    reveal_with_fuel(drive, 4);
}

/// While no document file exists at the root, a load gives `EMPTY_DOCUMENT`
/// and creates no file.
pub proof fn lemma_default_on_absence(disk: Disk, root: Seq<char>)
    requires
        !disk.files.contains_key(document_path_of(root)),
    ensures
        run(disk, CommandView::Load, root).1 == Some(ReplyView::Loaded(Ok(EMPTY_DOCUMENT@))),
        run(disk, CommandView::Load, root).0.files == disk.files,
{
    reveal_with_fuel(drive, 4);
}

/// With the storage root already there, an operation succeeds and leaves the
/// directories as they were; running it a second time right after gives the
/// same reply and leaves the disk as the first run left it.
pub proof fn lemma_repeat_changes_nothing(disk: Disk, command: CommandView, root: Seq<char>)
    requires
        disk.dirs.contains(root),
    ensures
        run(disk, command, root).1 is Some,
        is_success(run(disk, command, root).1.unwrap()),
        run(disk, command, root).0.dirs == disk.dirs,
        run(run(disk, command, root).0, command, root) == run(disk, command, root),
{
    reveal_with_fuel(drive, 4);
    assert(disk.dirs.insert(root) =~= disk.dirs);
    let path = document_path_of(root);
    if let CommandView::Save(content) = command {
        assert(disk.files.insert(path, content).insert(path, content) =~= disk.files.insert(path, content));
    }
}

/// A load after two saves gives the second text, whatever the first was.
pub proof fn lemma_overwrite(disk: Disk, root: Seq<char>, first: Seq<char>, second: Seq<char>)
    ensures
        run(
            run(run(disk, CommandView::Save(first), root).0, CommandView::Save(second), root).0,
            CommandView::Load,
            root,
        ).1 == Some(ReplyView::Loaded(Ok(second))),
{
    reveal_with_fuel(drive, 4);
}

/// A locate answers with the document file's path, which depends on the root
/// alone, and touches no file.
pub proof fn lemma_location_stable(first: Disk, second: Disk, root: Seq<char>)
    ensures
        run(first, CommandView::Locate, root).1 == Some(ReplyView::Located(document_path_of(root))),
        run(first, CommandView::Locate, root).1 == run(second, CommandView::Locate, root).1,
        run(first, CommandView::Locate, root).0.files == first.files,
{
    reveal_with_fuel(drive, 4);
}

} // verus!
