//! The lines of the audit log: one per action attempted, successful or not,
//! each beginning with the time and the user.
use vstd::prelude::*;
use vstd::string::*;
use crate::text::{octal3, to_octal3};

verus! {

/// The start of every line: the time and the user.
pub open spec fn line_head(now: Seq<char>, user: Seq<char>) -> Seq<char> {
    now + " "@ + user
}

fn head(now: &str, user: &str) -> (r: String)
    ensures
        r@ == line_head(now@, user@),
{
    String::from_str(now).concat(" ").concat(user)
}

/// The line for a directory that the ancestor guard refused.
pub fn refusal_line(now: &str, user: &str, target: &str) -> (r: String)
    ensures
        r@ == line_head(now@, user@) + " tried to delete directory \""@ + target@
            + "\" while I refused: Forbid to delete ancestor\n"@,
{
    head(now, user).concat(" tried to delete directory \"").concat(target).concat(
        "\" while I refused: Forbid to delete ancestor\n",
    )
}

/// The line for a permanent removal of a target of kind `kind`, which failed
/// with `error` if there is one.
pub fn forever_line(now: &str, user: &str, kind: &str, target: &str, error: Option<&str>) -> (r:
    String)
    ensures
        error is None ==> r@ == line_head(now@, user@) + " permanently deleted "@ + kind@ + " \""@
            + target@ + "\"\n"@,
        error matches Some(e) ==> r@ == line_head(now@, user@)
            + " tried to permanently delete "@ + kind@ + " \""@ + target@
            + "\" while an error occurred: "@ + e@ + "\n"@,
{
    match error {
        None => head(now, user).concat(" permanently deleted ").concat(kind).concat(" \"").concat(
            target,
        ).concat("\"\n"),
        Some(e) => head(now, user).concat(" tried to permanently delete ").concat(kind).concat(
            " \"",
        ).concat(target).concat("\" while an error occurred: ").concat(e).concat("\n"),
    }
}

/// The text of [`trashed_line`].
pub open spec fn trashed_text(
    now: Seq<char>,
    user: Seq<char>,
    kind: Seq<char>,
    target: Seq<char>,
    perms: nat,
    name: Seq<char>,
) -> Seq<char> {
    line_head(now, user) + " deleted "@ + kind + " \""@ + target + "\" $"@ + octal3(perms)
        + "$ => "@ + name + "\n"@
}

/// The text of [`trash_failed_line`].
pub open spec fn trash_failed_text(
    now: Seq<char>,
    user: Seq<char>,
    kind: Seq<char>,
    target: Seq<char>,
    error: Seq<char>,
) -> Seq<char> {
    line_head(now, user) + " tried to delete "@ + kind + " \""@ + target
        + "\" while an error occurred: "@ + error + "\n"@
}

/// The line for a target of kind `kind` moved into the trash under `name`,
/// with the permission bits it had.
pub fn trashed_line(now: &str, user: &str, kind: &str, target: &str, perms: u32, name: &str) -> (r:
    String)
    requires
        perms < 512,
    ensures
        r@ == trashed_text(now@, user@, kind@, target@, perms as nat, name@),
{
    let p = to_octal3(perms);
    head(now, user).concat(" deleted ").concat(kind).concat(" \"").concat(target).concat(
        "\" $",
    ).concat(p.as_str()).concat("$ => ").concat(name).concat("\n")
}

/// The line for a target of kind `kind` that could not be moved.
pub fn trash_failed_line(now: &str, user: &str, kind: &str, target: &str, error: &str) -> (r:
    String)
    ensures
        r@ == trash_failed_text(now@, user@, kind@, target@, error@),
{
    head(now, user).concat(" tried to delete ").concat(kind).concat(" \"").concat(target).concat(
        "\" while an error occurred: ",
    ).concat(error).concat("\n")
}

/// The line for an entry moved back by an undo, or for a failed attempt.
pub fn undo_line(now: &str, user: &str, error: Option<&str>) -> (r: String)
    ensures
        error is None ==> r@ == line_head(now@, user@) + " undid last operation successfully\n"@,
        error matches Some(e) ==> r@ == line_head(now@, user@)
            + " tried to undo last operation while an error occurred: "@ + e@ + "\n"@,
{
    match error {
        None => head(now, user).concat(" undid last operation successfully\n"),
        Some(e) => head(now, user).concat(
            " tried to undo last operation while an error occurred: ",
        ).concat(e).concat("\n"),
    }
}

/// The line for clearing the trash, or for a failed attempt.
pub fn clear_line(now: &str, user: &str, error: Option<&str>) -> (r: String)
    ensures
        error is None ==> r@ == line_head(now@, user@) + " cleaned trash can\n"@,
        error matches Some(e) ==> r@ == line_head(now@, user@)
            + " tried to clean trash can while an error occurred: "@ + e@ + "\n"@,
{
    match error {
        None => head(now, user).concat(" cleaned trash can\n"),
        Some(e) => head(now, user).concat(" tried to clean trash can while an error occurred: ").concat(
            e,
        ).concat("\n"),
    }
}

} // verus!
