//! The undo journal: one line per entry moved into the trash by the last
//! batch, `<trash path> >> <original path> $<octal permissions>$`.
use vstd::prelude::*;
use vstd::string::*;
use crate::error::{AppError, ErrorKind};
use crate::text::{digit_char, octal3, to_octal3};

verus! {

/// One entry of the journal.
#[derive(Clone, Debug)]
pub struct UndoRecord {
    /// Where the entry is in the trash.
    pub trash_path: String,
    /// Where it was before.
    pub original: String,
    /// Its permission bits before it was moved.
    pub perms: u32,
}

/// What a journal entry says.
pub ghost struct RecordView {
    pub trash_path: Seq<char>,
    pub original: Seq<char>,
    pub perms: nat,
}

impl View for UndoRecord {
    type V = RecordView;

    open spec fn view(&self) -> RecordView {
        RecordView { trash_path: self.trash_path@, original: self.original@, perms: self.perms as nat }
    }
}

/// The text between the two paths of a line.
pub open spec fn sep() -> Seq<char> {
    " >> "@
}

/// Whether the separator starts at index `i` of `s`.
pub open spec fn sep_at(s: Seq<char>, i: int) -> bool {
    0 <= i && i + 4 <= s.len() && s.subrange(i, i + 4) == sep()
}

/// Whether a trash path can stand first on a line and be read back: no
/// separator starts inside it, counting one that runs into the separator
/// that follows it.
pub open spec fn sep_free(t: Seq<char>) -> bool {
    forall|i: int| 0 <= i < t.len() ==> !sep_at(t + sep(), i)
}

/// The line (without its line break) that records an entry.
pub open spec fn journal_line(r: RecordView) -> Seq<char> {
    r.trash_path + sep() + r.original + " $"@ + octal3(r.perms) + "$"@
}

/// The value of an octal digit, or -1.
pub open spec fn octal_val(c: char) -> int {
    if c == '0' {
        0
    } else if c == '1' {
        1
    } else if c == '2' {
        2
    } else if c == '3' {
        3
    } else if c == '4' {
        4
    } else if c == '5' {
        5
    } else if c == '6' {
        6
    } else if c == '7' {
        7
    } else {
        -1
    }
}

/// The first index from `i` on where the separator starts, or -1.
pub open spec fn first_sep_from(s: Seq<char>, i: int) -> int
    decreases s.len() - i,
{
    if i < 0 || i + 4 > s.len() {
        -1
    } else if sep_at(s, i) {
        i
    } else {
        first_sep_from(s, i + 1)
    }
}

/// What a line of the journal records, if it is well formed: it ends with a
/// space, `$`, three octal digits and `$`; what comes before holds the
/// separator, and the first separator parts the two paths.
pub open spec fn line_record(l: Seq<char>) -> Option<RecordView> {
    let n = l.len() as int;
    if n >= 10 && l[n - 1] == '$' && l[n - 5] == '$' && l[n - 6] == ' ' && octal_val(l[n - 4])
        >= 0 && octal_val(l[n - 3]) >= 0 && octal_val(l[n - 2]) >= 0 {
        let body = l.subrange(0, n - 6);
        let i = first_sep_from(body, 0);
        if i >= 0 {
            Some(
                RecordView {
                    trash_path: body.subrange(0, i),
                    original: body.subrange(i + 4, body.len() as int),
                    perms: (octal_val(l[n - 4]) * 64 + octal_val(l[n - 3]) * 8 + octal_val(
                        l[n - 2],
                    )) as nat,
                },
            )
        } else {
            None
        }
    } else {
        None
    }
}

/// The value of an octal digit.
fn octal_digit(c: char) -> (r: Option<u32>)
    ensures
        r matches Some(v) ==> v as int == octal_val(c) && v < 8,
        r is None ==> octal_val(c) == -1,
{
    match c {
        '0' => Some(0),
        '1' => Some(1),
        '2' => Some(2),
        '3' => Some(3),
        '4' => Some(4),
        '5' => Some(5),
        '6' => Some(6),
        '7' => Some(7),
        _ => None,
    }
}

proof fn lemma_octal_val_digit(d: int)
    requires
        0 <= d < 8,
    ensures
        octal_val(digit_char(d)) == d,
{
    reveal_strlit("0123456789");
}

/// The line, with its line break, that records `rec`.
pub fn render_line(rec: &UndoRecord) -> (r: String)
    requires
        record_fits(rec@),
    ensures
        r@ == journal_line(rec@) + "\n"@,
{
    let p = to_octal3(rec.perms);
    let r = rec.trash_path.clone().concat(" >> ").concat(rec.original.as_str()).concat(" $").concat(
        p.as_str(),
    ).concat("$").concat("\n");
    r
}

/// Whether the separator starts at index `i` of `l`.
fn sep_at_exec(l: &str, i: usize, end: usize) -> (r: bool)
    requires
        end <= l@.len(),
        i + 4 <= end,
    ensures
        r == sep_at(l@.subrange(0, end as int), i as int),
{
    proof {
        reveal_strlit(" >> ");
    }
    let r = l.get_char(i) == ' ' && l.get_char(i + 1) == '>' && l.get_char(i + 2) == '>'
        && l.get_char(i + 3) == ' ';
    let ghost w = l@.subrange(0, end as int).subrange(i as int, i + 4);
    assert(sep() =~= seq![' ', '>', '>', ' ']);
    assert(w =~= seq![l@[i as int], l@[i + 1], l@[i + 2], l@[i + 3]]);
    if !r {
        assert(w != sep() ) by {
            if w == sep() {
                assert(w[0] == sep()[0] && w[1] == sep()[1] && w[2] == sep()[2] && w[3] == sep()[3]);
            }
        }
    }
    r
}

/// Reads one line of the journal (without its line break).
pub fn parse_line(l: &str) -> (r: Option<UndoRecord>)
    ensures
        r matches Some(rec) ==> line_record(l@) == Some(rec@) && rec.perms < 512,
        r is None ==> line_record(l@) is None,
{
    let n = l.unicode_len();
    if n < 10 {
        return None;
    }
    if l.get_char(n - 1) != '$' || l.get_char(n - 5) != '$' || l.get_char(n - 6) != ' ' {
        return None;
    }
    let d1 = match octal_digit(l.get_char(n - 4)) {
        Some(v) => v,
        None => return None,
    };
    let d2 = match octal_digit(l.get_char(n - 3)) {
        Some(v) => v,
        None => return None,
    };
    let d3 = match octal_digit(l.get_char(n - 2)) {
        Some(v) => v,
        None => return None,
    };
    let end = n - 6;
    let ghost body = l@.subrange(0, end as int);
    let mut i: usize = 0;
    while i + 4 <= end
        invariant
            end + 6 == n,
            n == l@.len(),
            i <= end,
            d1 < 8 && d2 < 8 && d3 < 8,
            l@[n - 1] == '$' && l@[n - 5] == '$' && l@[n - 6] == ' ',
            octal_val(l@[n - 4]) == d1 && octal_val(l@[n - 3]) == d2 && octal_val(l@[n - 2]) == d3,
            body == l@.subrange(0, end as int),
            first_sep_from(body, 0) == first_sep_from(body, i as int),
        decreases end - i,
    {
        if sep_at_exec(l, i, end) {
            let t = String::from_str(l.substring_char(0, i));
            let o = String::from_str(l.substring_char(i + 4, end));
            let rec = UndoRecord { trash_path: t, original: o, perms: d1 * 64 + d2 * 8 + d3 };
            assert(rec@.trash_path =~= body.subrange(0, i as int));
            assert(rec@.original =~= body.subrange(i + 4, body.len() as int));
            assert(first_sep_from(body, i as int) == i);
            assert(rec.perms == d1 * 64 + d2 * 8 + d3);
            return Some(rec);
        }
        i = i + 1;
    }
    None
}

proof fn lemma_first_sep(s: Seq<char>, i: int, k: int)
    requires
        0 <= i <= k,
        sep_at(s, k),
        forall|j: int| i <= j < k ==> !sep_at(s, j),
    ensures
        first_sep_from(s, i) == k,
    decreases k - i,
{
    if i < k {
        lemma_first_sep(s, i + 1, k);
    }
}

/// A line that records an entry reads back as that entry.
pub proof fn lemma_line_round_trip(r: RecordView)
    requires
        sep_free(r.trash_path),
        r.perms < 512,
    ensures
        line_record(journal_line(r)) == Some(r),
{
    let t = r.trash_path;
    let o = r.original;
    let p = r.perms;
    let l = journal_line(r);
    let n = l.len() as int;
    reveal_strlit(" >> ");
    reveal_strlit(" $");
    reveal_strlit("$");
    let body = t + sep() + o;
    assert(l == body + " $"@ + octal3(p) + "$"@);
    assert(n == t.len() + o.len() + 10);
    assert(l[n - 1] == '$');
    assert(l[n - 5] == '$');
    assert(l[n - 6] == ' ');
    assert(l[n - 4] == digit_char((p / 64) as int));
    assert(l[n - 3] == digit_char(((p / 8) % 8) as int));
    assert(l[n - 2] == digit_char((p % 8) as int));
    lemma_octal_val_digit((p / 64) as int);
    lemma_octal_val_digit(((p / 8) % 8) as int);
    lemma_octal_val_digit((p % 8) as int);
    assert(l.subrange(0, n - 6) =~= body);
    assert forall|j: int| 0 <= j < t.len() implies !sep_at(body, j) by {
        assert(!sep_at(t + sep(), j));
        if sep_at(body, j) {
            assert(body.subrange(j, j + 4) =~= (t + sep()).subrange(j, j + 4));
        }
    }
    assert(body.subrange(t.len() as int, t.len() as int + 4) =~= sep());
    lemma_first_sep(body, 0, t.len() as int);
    assert(body.subrange(0, t.len() as int) =~= t);
    assert(body.subrange(t.len() as int + 4, body.len() as int) =~= o);
    assert(p == (p / 64) * 64 + ((p / 8) % 8) * 8 + p % 8);
}

/// Whether `s` holds no line break.
pub open spec fn no_newline(s: Seq<char>) -> bool {
    forall|j: int| 0 <= j < s.len() ==> s[j] != '\n'
}

/// The first index from `i` on that holds a line break, or the length of `s`.
pub open spec fn first_nl_from(s: Seq<char>, i: int) -> int
    decreases s.len() - i,
{
    if i >= s.len() {
        s.len() as int
    } else if s[i] == '\n' {
        i
    } else {
        first_nl_from(s, i + 1)
    }
}

/// The lines of a text: the pieces between line breaks, where the last line
/// break, if it ends the text, opens no further line.
pub open spec fn lines_of(s: Seq<char>) -> Seq<Seq<char>>
    decreases s.len(),
{
    if s.len() == 0 {
        seq![]
    } else {
        let j = first_nl_from(s, 0);
        if 0 <= j < s.len() {
            seq![s.subrange(0, j)] + lines_of(s.subrange(j + 1, s.len() as int))
        } else {
            seq![s]
        }
    }
}

/// What a sequence of lines records, if every line is well formed.
pub open spec fn records_of(ls: Seq<Seq<char>>) -> Option<Seq<RecordView>>
    decreases ls.len(),
{
    if ls.len() == 0 {
        Some(seq![])
    } else {
        match (line_record(ls[0]), records_of(ls.drop_first())) {
            (Some(r), Some(rs)) => Some(seq![r] + rs),
            _ => None,
        }
    }
}

/// What a journal's text records, if it is well formed.
pub open spec fn journal_records(text: Seq<char>) -> Option<Seq<RecordView>> {
    records_of(lines_of(text))
}

/// The text of a journal that records `rs`, one line each, in order.
pub open spec fn journal_text(rs: Seq<RecordView>) -> Seq<char>
    decreases rs.len(),
{
    if rs.len() == 0 {
        seq![]
    } else {
        journal_line(rs[0]) + "\n"@ + journal_text(rs.drop_first())
    }
}

/// Whether an entry can be written to the journal and read back: its trash
/// path is free of the separator, neither path holds a line break, and its
/// permission bits fit three octal digits.
pub open spec fn record_fits(r: RecordView) -> bool {
    paths_fit(r.trash_path, r.original) && r.perms < 512
}

/// Whether two paths can stand on a journal line and be read back: the
/// trash path is free of the separator and neither holds a line break.
pub open spec fn paths_fit(trash_path: Seq<char>, original: Seq<char>) -> bool {
    sep_free(trash_path) && no_newline(trash_path) && no_newline(original)
}

/// The views of the entries of `v`.
pub open spec fn record_views(v: Seq<UndoRecord>) -> Seq<RecordView> {
    v.map_values(|x: UndoRecord| x@)
}

/// `acc` followed by what `o` holds, if it holds anything.
pub open spec fn prepend(acc: Seq<RecordView>, o: Option<Seq<RecordView>>) -> Option<Seq<RecordView>> {
    match o {
        Some(rs) => Some(acc + rs),
        None => None,
    }
}

proof fn lemma_first_nl(s: Seq<char>, i: int, k: int)
    requires
        0 <= i <= k <= s.len(),
        forall|j: int| i <= j < k ==> s[j] != '\n',
        k == s.len() || s[k] == '\n',
    ensures
        first_nl_from(s, i) == k,
    decreases k - i,
{
    if i < k {
        lemma_first_nl(s, i + 1, k);
    }
}

proof fn lemma_lines_split(l: Seq<char>, rest: Seq<char>)
    requires
        no_newline(l),
    ensures
        lines_of(l + "\n"@ + rest) == seq![l] + lines_of(rest),
{
    reveal_strlit("\n");
    let s = l + "\n"@ + rest;
    lemma_first_nl(s, 0, l.len() as int);
    assert(s.subrange(0, l.len() as int) =~= l);
    assert(s.subrange(l.len() as int + 1, s.len() as int) =~= rest);
}

proof fn lemma_line_no_newline(r: RecordView)
    requires
        no_newline(r.trash_path),
        no_newline(r.original),
        r.perms < 512,
    ensures
        no_newline(journal_line(r)),
{
    reveal_strlit(" >> ");
    reveal_strlit(" $");
    reveal_strlit("$");
    reveal_strlit("0123456789");
    let l = journal_line(r);
    let a = r.trash_path.len() as int;
    let b = a + 4 + r.original.len();
    assert forall|j: int| 0 <= j < l.len() implies l[j] != '\n' by {
        if j < a {
            assert(l[j] == r.trash_path[j]);
        } else if j < a + 4 {
        } else if j < b {
            assert(l[j] == r.original[j - a - 4]);
        } else {
        }
    }
}

/// A journal written for entries that fit reads back as those entries.
pub proof fn lemma_journal_round_trip(rs: Seq<RecordView>)
    requires
        forall|k: int| 0 <= k < rs.len() ==> record_fits(#[trigger] rs[k]),
    ensures
        journal_records(journal_text(rs)) == Some(rs),
    decreases rs.len(),
{
    if rs.len() > 0 {
        let r = rs[0];
        assert(record_fits(rs[0]));
        let tail = rs.drop_first();
        assert forall|k: int| 0 <= k < tail.len() implies record_fits(#[trigger] tail[k]) by {
            assert(tail[k] == rs[k + 1]);
        }
        lemma_journal_round_trip(tail);
        lemma_line_no_newline(r);
        lemma_line_round_trip(r);
        lemma_lines_split(journal_line(r), journal_text(tail));
        let ls = lines_of(journal_text(rs));
        assert(ls[0] == journal_line(r));
        assert(ls.drop_first() =~= lines_of(journal_text(tail)));
        assert(seq![r] + tail =~= rs);
    }
}

/// Reads the whole journal. Fails with `JournalParse` when a line is not
/// well formed; then nothing of it is returned.
pub fn parse_journal(text: &str) -> (r: Result<Vec<UndoRecord>, AppError>)
    ensures
        r matches Ok(v) ==> journal_records(text@) == Some(record_views(v@)),
        r matches Ok(v) ==> forall|k: int| 0 <= k < v@.len() ==> #[trigger] v@[k].perms < 512,
        r matches Err(e) ==> e.kind == ErrorKind::JournalParse,
        r is Err <==> journal_records(text@) is None,
{
    let n = text.unicode_len();
    let mut out: Vec<UndoRecord> = Vec::new();
    let mut i: usize = 0;
    assert(text@.subrange(0, n as int) =~= text@);
    while i < n
        invariant
            i <= n,
            n == text@.len(),
            records_of(lines_of(text@)) == prepend(
                record_views(out@),
                records_of(lines_of(text@.subrange(i as int, n as int))),
            ),
            forall|k: int| 0 <= k < out@.len() ==> #[trigger] out@[k].perms < 512,
        decreases n - i,
    {
        let mut j: usize = i;
        while j < n && text.get_char(j) != '\n'
            invariant
                i <= j <= n,
                n == text@.len(),
                forall|k: int| i <= k < j ==> text@[k] != '\n',
            decreases n - j,
        {
            j = j + 1;
        }
        let ghost t = text@.subrange(i as int, n as int);
        proof {
            lemma_first_nl(t, 0, (j - i) as int);
            assert(t.subrange(0, (j - i) as int) =~= text@.subrange(i as int, j as int));
            if j < n {
                assert(t.subrange((j - i) + 1, t.len() as int) =~= text@.subrange(j + 1, n as int));
            } else {
                assert(t =~= text@.subrange(i as int, j as int));
            }
        }
        let line = text.substring_char(i, j);
        match parse_line(line) {
            Some(rec) => {
                let ghost before = out@;
                out.push(rec);
                proof {
                    assert(record_views(out@) =~= record_views(before) + seq![rec@]);
                    let ls = lines_of(t);
                    assert(ls.drop_first() =~= lines_of(text@.subrange(
                        if j < n { j + 1 } else { n as int },
                        n as int,
                    ))) by {
                        if j == n {
                            assert(text@.subrange(n as int, n as int) =~= Seq::<char>::empty());
                        }
                    }
                }
                i = if j < n { j + 1 } else { n };
            },
            None => {
                return Err(AppError::new(ErrorKind::JournalParse, String::from_str("malformed journal line")));
            },
        }
    }
    assert(text@.subrange(n as int, n as int) =~= Seq::<char>::empty());
    assert(record_views(out@) + seq![] =~= record_views(out@));
    Ok(out)
}

fn has_no_newline(s: &str) -> (r: bool)
    ensures
        r == no_newline(s@),
{
    let n = s.unicode_len();
    let mut i: usize = 0;
    while i < n
        invariant
            n == s@.len(),
            i <= n,
            forall|j: int| 0 <= j < i ==> s@[j] != '\n',
        decreases n - i,
    {
        if s.get_char(i) == '\n' {
            return false;
        }
        i = i + 1;
    }
    true
}

fn is_sep_free(t: &str) -> (r: bool)
    ensures
        r == sep_free(t@),
{
    let s = String::from_str(t).concat(" >> ");
    let n = t.unicode_len();
    let m = s.unicode_len();
    assert(s@ == t@ + sep());
    proof {
        reveal_strlit(" >> ");
    }
    let mut i: usize = 0;
    while i < n
        invariant
            n == t@.len(),
            s@ == t@ + sep(),
            m == n + 4,
            m == s@.len(),
            i <= n,
            forall|j: int| 0 <= j < i ==> !sep_at(t@ + sep(), j),
        decreases n - i,
    {
        assert(s@.subrange(0, m as int) =~= s@);
        if sep_at_exec(s.as_str(), i, m) {
            return false;
        }
        i = i + 1;
    }
    true
}

/// Whether an entry with these paths can be written to the journal and read
/// back: exactly [`paths_fit`].
pub fn paths_fit_exec(trash_path: &str, original: &str) -> (r: bool)
    ensures
        r == paths_fit(trash_path@, original@),
{
    is_sep_free(trash_path) && has_no_newline(trash_path) && has_no_newline(original)
}

} // verus!
