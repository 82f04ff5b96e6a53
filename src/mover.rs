//! The decisions of a deletion batch. For each target the program asks
//! [`Batch::plan`] what to do, performs it, and reports a successful move
//! back with [`Batch::record_move`] so that later targets see the name as
//! taken.
use vstd::prelude::*;
use vstd::string::*;
use crate::audit::{trash_failed_line, trash_failed_text, trashed_line, trashed_text};
use crate::error::{AppError, ErrorKind};
use crate::journal::{journal_line, paths_fit, paths_fit_exec, render_line, RecordView, UndoRecord};
use crate::naming::{check_exist, resolved_name};
use crate::text::{has_prefix, starts_with};

verus! {

/// The index of the last `/` among the first `i` characters, or -1.
pub open spec fn last_slash_before(s: Seq<char>, i: int) -> int
    decreases i,
{
    if i <= 0 {
        -1
    } else if s[i - 1] == '/' {
        i - 1
    } else {
        last_slash_before(s, i - 1)
    }
}

/// The last component of a path: what follows its last `/`.
pub open spec fn basename(s: Seq<char>) -> Seq<char> {
    s.subrange(last_slash_before(s, s.len() as int) + 1, s.len() as int)
}

/// Whether the ancestor guard refuses a target: it is a directory and the
/// working directory's path begins with the target's path.
pub open spec fn is_guarded(target: Seq<char>, is_dir: bool, cwd: Seq<char>) -> bool {
    is_dir && has_prefix(cwd, target)
}

/// Where a stored name lands inside the trash directory.
pub open spec fn trash_dest(trash_can: Seq<char>, name: Seq<char>) -> Seq<char> {
    trash_can + "/"@ + name
}

/// The name of a kind of target, as the log shows it.
pub open spec fn kind_label(is_dir: bool, is_file: bool) -> Seq<char> {
    if is_dir {
        "directory"@
    } else if is_file {
        "file"@
    } else {
        "undefined type"@
    }
}

/// The name of a kind of target: a directory, a file, or neither (a dangling
/// link, a socket, a path that does not exist).
pub fn get_type(is_dir: bool, is_file: bool) -> (r: String)
    ensures
        r@ == kind_label(is_dir, is_file),
{
    if is_dir {
        String::from_str("directory")
    } else if is_file {
        String::from_str("file")
    } else {
        String::from_str("undefined type")
    }
}


/// The last component of `path`.
pub fn file_name(path: &str) -> (r: String)
    ensures
        r@ == basename(path@),
{
    let n = path.unicode_len();
    let mut i: usize = n;
    while i > 0
        invariant
            i <= n,
            n == path@.len(),
            last_slash_before(path@, n as int) == last_slash_before(path@, i as int),
        decreases i,
    {
        if path.get_char(i - 1) == '/' {
            return String::from_str(path.substring_char(i, n));
        }
        i = i - 1;
    }
    String::from_str(path.substring_char(0, n))
}

/// The permission bits of a file mode.
pub fn permission_bits(mode: u32) -> (r: u32)
    ensures
        r == mode % 512,
        r < 512,
{
    mode % 512
}

/// The permission bits an entry gets once it is in the trash: owner read and
/// write for a directory, none for anything else.
pub fn trash_mode(is_dir: bool) -> (r: u32)
    ensures
        r == (if is_dir { 0o600u32 } else { 0u32 }),
{
    if is_dir {
        0o600
    } else {
        0
    }
}

/// What to do with one target.
#[derive(Clone, Debug)]
pub enum Plan {
    /// Leave it: it is the working directory or one of its ancestors.
    Refuse,
    /// Remove it for good.
    RemoveForever,
    /// Move it into the trash under `name`, at the path `dest`.
    MoveTo { name: String, dest: String },
    /// Leave it: its path or its path in the trash could not be written to
    /// the undo journal and read back, so the move could not be undone.
    Unrecordable { dest: String },
}

/// The state of one deletion batch.
pub struct Batch {
    /// The trash content directory.
    pub trash_can: String,
    /// The working directory of the process.
    pub cwd: String,
    /// Whether targets are removed for good rather than moved.
    pub forever: bool,
    /// The names present in the trash content directory.
    pub taken: Vec<String>,
}

impl Batch {
    pub fn new(trash_can: String, cwd: String, forever: bool, taken: Vec<String>) -> (r: Batch)
        ensures
            r.trash_can@ == trash_can@,
            r.cwd@ == cwd@,
            r.forever == forever,
            r.taken@ == taken@,
    {
        Batch { trash_can, cwd, forever, taken }
    }

    /// What to do with `target`, an absolute path, of which `is_dir` tells
    /// whether it is a directory. A guarded directory is refused; otherwise
    /// a permanent batch removes the target, and any other moves it under the
    /// name that [`check_exist`] gives its last component. Fails when the
    /// path has no last component, or when every variant of the name is
    /// taken (which ends the batch).
    pub fn plan(&self, target: &str, is_dir: bool) -> (r: Result<Plan, AppError>)
        ensures
            is_guarded(target@, is_dir, self.cwd@) ==> (r matches Ok(Plan::Refuse)),
            !is_guarded(target@, is_dir, self.cwd@) && self.forever ==> (r matches Ok(
                Plan::RemoveForever,
            )),
            !is_guarded(target@, is_dir, self.cwd@) && !self.forever ==> match r {
                Ok(Plan::MoveTo { name, dest }) => basename(target@).len() > 0 && resolved_name(
                    basename(target@),
                    self.taken@,
                ) == Some(name@) && dest@ == trash_dest(self.trash_can@, name@) && paths_fit(
                    dest@,
                    target@,
                ),
                Ok(Plan::Unrecordable { dest }) => basename(target@).len() > 0 && exists|n: Seq<char>|
                    resolved_name(basename(target@), self.taken@) == Some(n) && dest@ == trash_dest(
                        self.trash_can@,
                        n,
                    ) && !paths_fit(dest@, target@),
                Ok(_) => false,
                Err(e) => (basename(target@).len() == 0 && e.kind == ErrorKind::PathResolution)
                    || (basename(target@).len() > 0 && resolved_name(
                    basename(target@),
                    self.taken@,
                ) is None && e.kind == ErrorKind::CollisionOverflow),
            },
    {
        if is_dir && starts_with(self.cwd.as_str(), target) {
            return Ok(Plan::Refuse);
        }
        if self.forever {
            return Ok(Plan::RemoveForever);
        }
        let base = file_name(target);
        if base.unicode_len() == 0 {
            return Err(AppError::new(ErrorKind::PathResolution, String::from_str("path has no file name")));
        }
        match check_exist(base, &self.taken) {
            Ok(name) => {
                let dest = self.trash_can.clone().concat("/").concat(name.as_str());
                if paths_fit_exec(dest.as_str(), target) {
                    Ok(Plan::MoveTo { name, dest })
                } else {
                    let ghost base = basename(target@);
                    assert(resolved_name(base, self.taken@) == Some(name@) && dest@ == trash_dest(
                        self.trash_can@,
                        name@,
                    ));
                    Ok(Plan::Unrecordable { dest })
                }
            },
            Err(e) => Err(e),
        }
    }

    /// What follows an attempt to move `target`, of kind `kind`, to `dest`
    /// under `name`, as [`Batch::plan`] asked. `outcome` is the mode the
    /// entry has in the trash after a successful move, or the error of the
    /// move. A move gives its log line and its journal line, and `name`
    /// becomes taken; a failure gives its log line only.
    pub fn finish_move(
        &mut self,
        now: &str,
        user: &str,
        kind: &str,
        target: &str,
        name: String,
        dest: &str,
        outcome: Result<u32, String>,
    ) -> (r: (String, Option<String>))
        requires
            paths_fit(dest@, target@),
        ensures
            final(self).trash_can == old(self).trash_can,
            final(self).cwd == old(self).cwd,
            final(self).forever == old(self).forever,
            outcome matches Ok(mode) ==> r.0@ == trashed_text(
                now@,
                user@,
                kind@,
                target@,
                (mode % 512) as nat,
                name@,
            ) && (r.1 matches Some(j) && j@ == journal_line(
                RecordView { trash_path: dest@, original: target@, perms: (mode % 512) as nat },
            ) + "\n"@) && final(self).taken@ == old(self).taken@.push(name),
            outcome matches Err(e) ==> r.0@ == trash_failed_text(now@, user@, kind@, target@, e@)
                && r.1 is None && final(self).taken@ == old(self).taken@,
    {
        match outcome {
            Ok(mode) => {
                let perms = permission_bits(mode);
                let line = trashed_line(now, user, kind, target, perms, name.as_str());
                let rec = UndoRecord {
                    trash_path: String::from_str(dest),
                    original: String::from_str(target),
                    perms,
                };
                let entry = render_line(&rec);
                self.record_move(name);
                (line, Some(entry))
            },
            Err(e) => (trash_failed_line(now, user, kind, target, e.as_str()), None),
        }
    }

    /// Notes that `name` is now taken in the trash.
    pub fn record_move(&mut self, name: String)
        ensures
            final(self).taken@ == old(self).taken@.push(name),
            final(self).trash_can == old(self).trash_can,
            final(self).cwd == old(self).cwd,
            final(self).forever == old(self).forever,
    {
        self.taken.push(name);
    }
}

} // verus!
