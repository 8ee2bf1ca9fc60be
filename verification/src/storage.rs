//! A model of the storage that the commands act on.
//!
//! The model is the yardstick for the laws of this crate: it says what a
//! command does to a disk that never fails, and what running a machine to its
//! end, or only part of the way, leaves behind.

use vstd::prelude::*;
use crate::command::{Command, Reply, Next};

verus! {

/// Directories and files, each under its full path.
pub ghost struct Storage {
    pub dirs: Set<Seq<char>>,
    pub files: Map<Seq<char>, Seq<char>>,
}

/// The reason the model gives where a command names a file that is not there.
pub open spec fn missing_message() -> Seq<char> {
    "No such file or directory"@
}

impl Storage {
    /// Whether anything exists at the path.
    pub open spec fn holds(self, path: Seq<char>) -> bool {
        self.files.contains_key(path) || self.dirs.contains(path)
    }

    /// The content of the file at the path, if there is one.
    pub open spec fn content(self, path: Seq<char>) -> Option<Seq<char>> {
        if self.files.contains_key(path) {
            Some(self.files[path])
        } else {
            None
        }
    }

    /// No path is a file and a directory at once.
    pub open spec fn well_formed(self) -> bool {
        forall|path: Seq<char>| !(self.files.contains_key(path) && self.dirs.contains(path))
    }

    /// Whether the command can be carried out: whether the file it reads,
    /// fills or moves is there, and nothing of the other sort is in its way.
    pub open spec fn admits(self, command: Command) -> bool {
        match command {
            Command::EnsureDir { path } => !self.files.contains_key(path),
            Command::Exists { path } => true,
            Command::ReadText { path } => self.files.contains_key(path),
            Command::CreateFile { path } => !self.dirs.contains(path),
            Command::WriteAll { path, content } => self.files.contains_key(path),
            Command::SyncAll { path } => self.files.contains_key(path),
            Command::Rename { from, to } => self.files.contains_key(from) && !self.dirs.contains(
                to,
            ),
            Command::CopyFile { from, to } => self.files.contains_key(from) && !self.dirs.contains(
                to,
            ),
        }
    }

    /// The storage after the command. A command that cannot be carried out changes nothing.
    pub open spec fn effect(self, command: Command) -> Storage {
        if !self.admits(command) {
            self
        } else {
            match command {
                Command::EnsureDir { path } => Storage { dirs: self.dirs.insert(path), ..self },
                Command::Exists { path } => self,
                Command::ReadText { path } => self,
                Command::CreateFile { path } => Storage {
                    files: self.files.insert(path, Seq::empty()),
                    ..self
                },
                Command::WriteAll { path, content } => Storage {
                    files: self.files.insert(path, content),
                    ..self
                },
                Command::SyncAll { path } => self,
                Command::Rename { from, to } => Storage {
                    files: self.files.remove(from).insert(to, self.files[from]),
                    ..self
                },
                Command::CopyFile { from, to } => Storage {
                    files: self.files.insert(to, self.files[from]),
                    ..self
                },
            }
        }
    }

    /// What the storage reports for the command.
    pub open spec fn answer(self, command: Command) -> Reply {
        if !self.admits(command) {
            Reply::Failed(missing_message())
        } else {
            match command {
                Command::Exists { path } => Reply::Found(self.holds(path)),
                Command::ReadText { path } => Reply::Text(self.files[path]),
                _ => Reply::Done,
            }
        }
    }
}

/// A command leaves alone every file that it does not write.
pub proof fn lemma_effect_frame(storage: Storage, command: Command, path: Seq<char>)
    requires
        !command.writes(path),
    ensures
        storage.effect(command).content(path) == storage.content(path),
{
}

/// No command makes a path a file and a directory at once.
pub proof fn lemma_effect_well_formed(storage: Storage, command: Command)
    requires
        storage.well_formed(),
    ensures
        storage.effect(command).well_formed(),
{
}

/// Where a machine stands in the middle or at the end of its work.
pub ghost enum Position<M, T> {
    /// The machine waits for the reply to this command, on this storage.
    Running(M, Command, Storage),
    /// The machine has finished with this result and left this storage.
    Ended(Storage, Result<T, Seq<char>>),
}

/// Where a machine stands after `commands` commands have been carried out on
/// `storage`, the first of them `command`. A machine that finishes earlier
/// stays where it finished.
pub open spec fn advance<M, T>(
    step: spec_fn(M, Reply) -> Next<M, T>,
    machine: M,
    command: Command,
    storage: Storage,
    commands: nat,
) -> Position<M, T>
    decreases commands,
{
    if commands == 0 {
        Position::Running(machine, command, storage)
    } else {
        match step(machine, storage.answer(command)) {
            Next::Continue(machine, next) => advance(
                step,
                machine,
                next,
                storage.effect(command),
                (commands - 1) as nat,
            ),
            Next::Finished(result) => Position::Ended(storage.effect(command), result),
        }
    }
}

/// What `commands` commands of a machine leave behind: the storage, and the
/// machine's result if it finished within them. A result of `None` is an
/// operation cut short: a crash, or a caller that went away.
pub open spec fn run<M, T>(
    step: spec_fn(M, Reply) -> Next<M, T>,
    machine: M,
    command: Command,
    storage: Storage,
    commands: nat,
) -> (Storage, Option<Result<T, Seq<char>>>) {
    match advance(step, machine, command, storage, commands) {
        Position::Running(_, _, storage) => (storage, None),
        Position::Ended(storage, result) => (storage, Some(result)),
    }
}

/// Commands carried out in two portions lead where they lead in one.
pub proof fn lemma_advance_split<M, T>(
    step: spec_fn(M, Reply) -> Next<M, T>,
    machine: M,
    command: Command,
    storage: Storage,
    first: nat,
    second: nat,
)
    ensures
        advance(step, machine, command, storage, first + second) == match advance(
            step,
            machine,
            command,
            storage,
            first,
        ) {
            Position::Running(machine, command, storage) => advance(
                step,
                machine,
                command,
                storage,
                second,
            ),
            Position::Ended(storage, result) => Position::Ended(storage, result),
        },
    decreases first,
{
    if first > 0 {
        match step(machine, storage.answer(command)) {
            Next::Continue(machine, next) => {
                lemma_advance_split(
                    step,
                    machine,
                    next,
                    storage.effect(command),
                    (first - 1) as nat,
                    second,
                );
            },
            Next::Finished(result) => {},
        }
    }
}

} // verus!
