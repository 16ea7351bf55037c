use vstd::prelude::*;

use crate::level::{passes, Level};
use crate::mailbox::{try_send, Delivery, MailboxError};
use crate::{format_log, log_line, BackgroundLoggerMessage, DEFAULT_MAX_LINE_COUNT};

verus! {

/// The file sink's front door: filters by severity and hands lines to the
/// worker's mailbox without blocking.
pub struct FileLogger {
    pub max_log_level: Level,
    pub log_tx: crossbeam::channel::Sender<BackgroundLoggerMessage>,
}

pub struct FileLoggerConfig {
    pub max_log_level: Level,
    pub path: String,
    pub max_line_count: usize,
}

impl FileLoggerConfig {
    pub fn new(path: String) -> (r: Self)
        ensures
            r.max_log_level == Level::Info,
            r.path == path,
            r.max_line_count == DEFAULT_MAX_LINE_COUNT,
    {
        Self { max_log_level: Level::Info, path, max_line_count: DEFAULT_MAX_LINE_COUNT }
    }
}

impl FileLogger {
    pub fn new(max_log_level: Level, log_tx: crossbeam::channel::Sender<BackgroundLoggerMessage>) -> (r: Self)
        ensures
            r.max_log_level == max_log_level,
            r.log_tx == log_tx,
    {
        FileLogger { max_log_level, log_tx }
    }

    pub fn enabled(&self, level: Level) -> (r: bool)
        ensures
            r == passes(level, self.max_log_level),
    {
        level.passes(self.max_log_level)
    }

    /// Offers the rendered line of a message to the mailbox, unless its level
    /// is below the minimum, in which case the mailbox is left alone.
    pub fn log(&self, level: Level, args: &str) -> (r: Delivery<BackgroundLoggerMessage>)
        ensures
            r is Filtered <==> !passes(level, self.max_log_level),
            r matches Delivery::Dropped(e) ==> (e.message() matches BackgroundLoggerMessage::String(t)
                && t@ == log_line(args@)),
    {
        if !self.enabled(level) {
            return Delivery::Filtered;
        }
        let line = format_log(args);
        match try_send(&self.log_tx, BackgroundLoggerMessage::String(line)) {
            Ok(()) => Delivery::Queued,
            Err(e) => Delivery::Dropped(e),
        }
    }

    /// Asks the worker to flush its file.
    pub fn flush(&self) -> (r: Result<(), MailboxError<BackgroundLoggerMessage>>)
        ensures
            r matches Err(e) ==> e.message() is Flush,
    {
        try_send(&self.log_tx, BackgroundLoggerMessage::Flush)
    }
}

/// The lines of the active file and of its `.old` sibling, if one was made.
pub struct FileModel {
    pub active: Seq<Seq<char>>,
    pub backup: Option<Seq<Seq<char>>>,
}

pub open spec fn empty_file() -> FileModel {
    FileModel { active: Seq::empty(), backup: None }
}

/// Writing one line: when the active file holds more than `max` lines it is
/// first copied to the `.old` sibling and truncated.
pub open spec fn file_after_entry(f: FileModel, max: nat, line: Seq<char>) -> FileModel {
    if f.active.len() > max {
        FileModel { active: seq![line], backup: Some(f.active) }
    } else {
        FileModel { active: f.active.push(line), backup: f.backup }
    }
}

/// The files after writing `lines`, in order, to a freshly created file.
pub open spec fn file_after_entries(max: nat, lines: Seq<Seq<char>>) -> FileModel
    decreases lines.len(),
{
    if lines.len() == 0 {
        empty_file()
    } else {
        file_after_entry(file_after_entries(max, lines.drop_last()), max, lines.last())
    }
}

/// What the worker does with its file for one message.
#[derive(Debug, Clone, Copy, PartialEq, Eq, Structural)]
pub enum FileAction {
    /// Append the line; rotate first when `rotate_first` holds.
    Append { rotate_first: bool },
    /// Flush the buffered writer, without rotating.
    Flush,
}

/// The file worker's bookkeeping: lines written since the last reset and the
/// rollover threshold.
pub struct FileSinkState {
    log_message_count: usize,
    max_count: usize,
    files: Ghost<FileModel>,
}

impl FileSinkState {
    pub closed spec fn files(&self) -> FileModel {
        self.files@
    }

    pub closed spec fn max_count(&self) -> nat {
        self.max_count as nat
    }

    pub closed spec fn wf(&self) -> bool {
        &&& self.max_count < usize::MAX
        &&& self.log_message_count as nat == self.files@.active.len()
        &&& self.log_message_count <= self.max_count + 1
    }

    /// The state of a worker that has just created its file.
    pub fn new(max_count: usize) -> (r: Self)
        requires
            max_count < usize::MAX,
        ensures
            r.wf(),
            r.max_count() == max_count,
            r.files() == empty_file(),
    {
        FileSinkState { log_message_count: 0, max_count, files: Ghost(empty_file()) }
    }

    /// Lines in the active file since the last reset.
    pub fn line_count(&self) -> (r: usize)
        requires
            self.wf(),
        ensures
            r == self.files().active.len(),
    {
        self.log_message_count
    }

    /// Decides what to do with one message and records its effect.
    pub fn on_message(&mut self, msg: &BackgroundLoggerMessage) -> (r: FileAction)
        requires
            old(self).wf(),
        ensures
            final(self).wf(),
            final(self).max_count() == old(self).max_count(),
            match msg {
                BackgroundLoggerMessage::String(t) => r == (FileAction::Append {
                    rotate_first: old(self).files().active.len() > old(self).max_count(),
                }) && final(self).files() == file_after_entry(
                    old(self).files(),
                    old(self).max_count(),
                    t@,
                ),
                BackgroundLoggerMessage::Flush => r == FileAction::Flush && final(self).files()
                    == old(self).files(),
            },
    {
        match msg {
            BackgroundLoggerMessage::String(t) => {
                let rotate_first = self.log_message_count > self.max_count;
                if rotate_first {
                    self.log_message_count = 0;
                }
                self.log_message_count = self.log_message_count + 1;
                self.files = Ghost(file_after_entry(self.files@, self.max_count as nat, t@));
                FileAction::Append { rotate_first }
            },
            BackgroundLoggerMessage::Flush => FileAction::Flush,
        }
    }
}

/// The active file never holds more than one line beyond the threshold.
pub proof fn lemma_active_bounded(max: nat, lines: Seq<Seq<char>>)
    ensures
        file_after_entries(max, lines).active.len() <= max + 1,
    decreases lines.len(),
{
    if lines.len() > 0 {
        lemma_active_bounded(max, lines.drop_last());
    }
}

/// Up to `max + 1` lines go to the active file in order, and no `.old` file
/// is made.
pub proof fn lemma_no_rotation_up_to_threshold(max: nat, lines: Seq<Seq<char>>)
    requires
        lines.len() <= max + 1,
    ensures
        file_after_entries(max, lines).backup is None,
        file_after_entries(max, lines).active == lines,
    decreases lines.len(),
{
    if lines.len() > 0 {
        lemma_no_rotation_up_to_threshold(max, lines.drop_last());
        assert(lines.drop_last().push(lines.last()) =~= lines);
    }
}

/// The line after the first `max + 1` rotates the file: the `.old` file holds
/// those lines and the active file holds the new one alone.
pub proof fn lemma_rotation_after_threshold(max: nat, lines: Seq<Seq<char>>)
    requires
        lines.len() == max + 2,
    ensures
        file_after_entries(max, lines).backup == Some(lines.take(max + 1 as int)),
        file_after_entries(max, lines).active == seq![lines.last()],
{
    lemma_no_rotation_up_to_threshold(max, lines.drop_last());
    assert(lines.drop_last() =~= lines.take(max + 1 as int));
}

/// After any run of lines, the active file holds the lines written since the
/// last reset (between one and `max + 1` of them, once any was written) and
/// the `.old` file, once made, holds the `max + 1` lines just before them.
pub proof fn lemma_files_hold_last_lines(max: nat, lines: Seq<Seq<char>>)
    ensures
        ({
            let f = file_after_entries(max, lines);
            let n = lines.len() as int;
            let a = f.active.len() as int;
            &&& a <= max + 1
            &&& a <= n
            &&& (n > 0 ==> a >= 1)
            &&& f.active == lines.subrange(n - a, n)
            &&& match f.backup {
                None => a == n,
                Some(b) => n - a >= max + 1 && b == lines.subrange(n - a - (max + 1), n - a),
            }
        }),
    decreases lines.len(),
{
    if lines.len() > 0 {
        let init = lines.drop_last();
        lemma_files_hold_last_lines(max, init);
        let prev = file_after_entries(max, init);
        let n = lines.len() as int;
        let a0 = prev.active.len() as int;
        assert(init.subrange(n - 1 - a0, n - 1) =~= lines.subrange(n - 1 - a0, n - 1));
        if a0 > max {
            assert(seq![lines.last()] =~= lines.subrange(n - 1, n));
        } else {
            assert(prev.active.push(lines.last()) =~= lines.subrange(n - 1 - a0, n));
            if let Some(b) = prev.backup {
                assert(init.subrange(n - 1 - a0 - (max + 1), n - 1 - a0) =~= lines.subrange(
                    n - 1 - a0 - (max + 1),
                    n - 1 - a0,
                ));
            }
        }
    }
}

} // verus!
