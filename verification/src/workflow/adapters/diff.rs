//! Parsing of `git diff --numstat -p` output into per-file changes, and the
//! synthetic diff shown for an untracked file.

use vstd::prelude::*;

use crate::text::{
    chars_of, contains_seq, dec, has_prefix, lines, parse_u64_chars, parse_unsigned, push_char,
    push_decimal, push_str, split_char, split_lines, split_pieces, split_words, str_contains, str_eq,
    str_starts_with, string_from_chars, strings_view, words,
};

verus! {

/// How a file changed.
#[derive(Debug, Clone, Copy, PartialEq, Eq, Structural)]
pub enum FileChangeType {
    Added,
    Modified,
    Deleted,
}

/// One changed file of a diff.
#[derive(Debug, Clone)]
pub struct FileDiff {
    pub path: String,
    pub change_type: FileChangeType,
    /// Previous path of a renamed file.
    pub old_path: Option<String>,
    pub additions: usize,
    pub deletions: usize,
    pub is_binary: bool,
    /// The unified diff text; `None` for binary files.
    pub diff_content: Option<String>,
}

/// The changed files of a task.
#[derive(Debug, Clone)]
pub struct TaskDiff {
    pub files: Vec<FileDiff>,
}

/// What a [`FileDiff`] holds, with text as character sequences.
pub struct FileChange {
    pub path: Seq<char>,
    pub change_type: FileChangeType,
    pub old_path: Option<Seq<char>>,
    pub additions: nat,
    pub deletions: nat,
    pub is_binary: bool,
    pub content: Option<Seq<char>>,
}

pub open spec fn opt_view(o: Option<String>) -> Option<Seq<char>> {
    match o {
        Some(s) => Some(s@),
        None => None,
    }
}

impl View for FileDiff {
    type V = FileChange;

    open spec fn view(&self) -> FileChange {
        FileChange {
            path: self.path@,
            change_type: self.change_type,
            old_path: opt_view(self.old_path),
            additions: self.additions as nat,
            deletions: self.deletions as nat,
            is_binary: self.is_binary,
            content: opt_view(self.diff_content),
        }
    }
}

/// The views of a list of file diffs.
pub open spec fn changes_view(v: Seq<FileDiff>) -> Seq<FileChange> {
    Seq::new(v.len(), |i: int| v[i]@)
}

// ---------------------------------------------------------------------------
// Spec of the parser
// ---------------------------------------------------------------------------

/// A line that opens the section of one file.
pub open spec fn is_file_header(line: Seq<char>) -> bool {
    has_prefix(line, "diff --git"@)
}

/// `h` is the number of lines before the first file section.
pub open spec fn is_header_end(ls: Seq<Seq<char>>, h: int) -> bool {
    &&& 0 <= h <= ls.len()
    &&& forall|j: int| 0 <= j < h ==> !is_file_header(#[trigger] ls[j])
    &&& h < ls.len() ==> is_file_header(ls[h])
}

/// Number of lines before the first file section (all of them if none).
pub open spec fn header_len(ls: Seq<Seq<char>>) -> int {
    choose|h: int| is_header_end(ls, h)
}

/// A numstat line `"<added>\t<deleted>\t<path>"`, parsed.
pub open spec fn numstat_entry(line: Seq<char>) -> Option<(Seq<char>, nat, nat)> {
    let parts = split_pieces(line, '\t');
    if parts.len() == 3 {
        match parse_unsigned(parts[0], usize::MAX as nat) {
            Some(a) => match parse_unsigned(parts[1], usize::MAX as nat) {
                Some(d) => Some((parts[2], a, d)),
                None => None,
            },
            None => None,
        }
    } else {
        None
    }
}

/// The numstat entries among the first `n` lines, in order.
pub open spec fn numstats(ls: Seq<Seq<char>>, n: nat) -> Seq<(Seq<char>, nat, nat)>
    decreases n,
{
    if n == 0 {
        Seq::empty()
    } else {
        numstats(ls, (n - 1) as nat) + match numstat_entry(ls[n - 1]) {
            Some(t) => seq![t],
            None => Seq::empty(),
        }
    }
}

/// Counts of the first numstat entry for `path`.
pub open spec fn numstat_for(ns: Seq<(Seq<char>, nat, nat)>, path: Seq<char>) -> Option<(nat, nat)>
    decreases ns.len(),
{
    if ns.len() == 0 {
        None
    } else if ns[0].0 == path {
        Some((ns[0].1, ns[0].2))
    } else {
        numstat_for(ns.drop_first(), path)
    }
}

/// The path of a `"diff --git a/<path> b/<path>"` line: its third word
/// without the `a/` prefix.
pub open spec fn header_path(line: Seq<char>) -> Option<Seq<char>> {
    let w = words(line);
    if w.len() >= 3 && has_prefix(w[2], "a/"@) {
        Some(w[2].subrange(2, w[2].len() as int))
    } else {
        None
    }
}

/// New files win over deleted ones; anything else was modified.
pub open spec fn change_type_of(is_new: bool, is_deleted: bool) -> FileChangeType {
    if is_new {
        FileChangeType::Added
    } else if is_deleted {
        FileChangeType::Deleted
    } else {
        FileChangeType::Modified
    }
}

/// The file recorded for a finished section (none without numstat counts).
pub open spec fn finished_file(ns: Seq<(Seq<char>, nat, nat)>, path: Seq<char>, diff: Seq<char>, is_new: bool, is_deleted: bool) -> Seq<FileChange> {
    match numstat_for(ns, path) {
        Some(counts) => {
            let binary = contains_seq(diff, "Binary files"@);
            seq![FileChange {
                path,
                change_type: change_type_of(is_new, is_deleted),
                old_path: None,
                additions: counts.0,
                deletions: counts.1,
                is_binary: binary,
                content: if binary { None } else { Some(diff) },
            }]
        },
        None => Seq::empty(),
    }
}

/// State of the scan over the file sections.
pub struct DiffScan {
    pub current: Option<Seq<char>>,
    pub diff: Seq<char>,
    pub is_new: bool,
    pub is_deleted: bool,
    pub files: Seq<FileChange>,
}

pub open spec fn scan_start() -> DiffScan {
    DiffScan { current: None, diff: Seq::empty(), is_new: false, is_deleted: false, files: Seq::empty() }
}

/// One line of the scan: a header closes the open section and opens the
/// next; every line is added to the section's text and may mark it new or
/// deleted.
pub open spec fn scan_line(ns: Seq<(Seq<char>, nat, nat)>, st: DiffScan, line: Seq<char>) -> DiffScan {
    let opened = if is_file_header(line) {
        let closed = match st.current {
            Some(p) => DiffScan {
                current: None,
                diff: Seq::empty(),
                is_new: false,
                is_deleted: false,
                files: st.files + finished_file(ns, p, st.diff, st.is_new, st.is_deleted),
            },
            None => st,
        };
        match header_path(line) {
            Some(p) => DiffScan { current: Some(p), ..closed },
            None => closed,
        }
    } else {
        st
    };
    DiffScan {
        is_new: opened.is_new || has_prefix(line, "--- /dev/null"@),
        is_deleted: opened.is_deleted || has_prefix(line, "+++ /dev/null"@),
        diff: opened.diff + line + seq!['\n'],
        ..opened
    }
}

/// The scan over a list of lines.
pub open spec fn scan_lines(ns: Seq<(Seq<char>, nat, nat)>, ls: Seq<Seq<char>>) -> DiffScan
    decreases ls.len(),
{
    if ls.len() == 0 {
        scan_start()
    } else {
        scan_line(ns, scan_lines(ns, ls.drop_last()), ls.last())
    }
}

/// The files of a `git diff --numstat -p` output: the numstat lines come
/// first, then one section per file; a file is listed when its section has
/// a path and numstat counts.
pub open spec fn parsed_diff(output: Seq<char>) -> Seq<FileChange> {
    let ls = lines(output);
    let h = header_len(ls);
    let ns = numstats(ls, h as nat);
    let st = scan_lines(ns, ls.subrange(h, ls.len() as int));
    st.files + match st.current {
        Some(p) => finished_file(ns, p, st.diff, st.is_new, st.is_deleted),
        None => Seq::empty(),
    }
}

pub proof fn lemma_header_end_unique(ls: Seq<Seq<char>>, h: int, k: int)
    requires
        is_header_end(ls, h),
        is_header_end(ls, k),
    ensures
        h == k,
{
    if h < k {
        assert(!is_file_header(ls[h]));
    } else if k < h {
        assert(!is_file_header(ls[k]));
    }
}

/// The paths of the file headers among `ls` whose path has numstat counts,
/// in order: the files a diff is expected to list.
pub open spec fn counted_header_paths(ns: Seq<(Seq<char>, nat, nat)>, ls: Seq<Seq<char>>) -> Seq<Seq<char>>
    decreases ls.len(),
{
    if ls.len() == 0 {
        Seq::empty()
    } else {
        counted_header_paths(ns, ls.drop_last()) + if is_file_header(ls.last()) {
            counted_path(ns, header_path(ls.last()))
        } else {
            Seq::empty()
        }
    }
}

/// A header's path, when it has one with numstat counts.
pub open spec fn counted_path(ns: Seq<(Seq<char>, nat, nat)>, p: Option<Seq<char>>) -> Seq<Seq<char>> {
    match p {
        Some(x) => if numstat_for(ns, x) is Some {
            seq![x]
        } else {
            Seq::empty()
        },
        None => Seq::empty(),
    }
}

/// The paths of a list of file changes.
pub open spec fn change_paths(fs: Seq<FileChange>) -> Seq<Seq<char>> {
    fs.map_values(|f: FileChange| f.path)
}

/// Every change carries the numstat counts of its path, is not a rename,
/// and has diff text exactly when it is not binary.
pub open spec fn counts_match(ns: Seq<(Seq<char>, nat, nat)>, fs: Seq<FileChange>) -> bool {
    forall|i: int|
        0 <= i < fs.len() ==> numstat_for(ns, (#[trigger] fs[i]).path) == Some((fs[i].additions, fs[i].deletions))
            && fs[i].old_path is None && (fs[i].content is None <==> fs[i].is_binary)
}

proof fn lemma_scan_paths(ns: Seq<(Seq<char>, nat, nat)>, ls: Seq<Seq<char>>)
    ensures
        change_paths(scan_lines(ns, ls).files) + counted_path(ns, scan_lines(ns, ls).current)
            == counted_header_paths(ns, ls),
        counts_match(ns, scan_lines(ns, ls).files),
    decreases ls.len(),
{
    if ls.len() == 0 {
        assert(change_paths(Seq::<FileChange>::empty()) =~= Seq::<Seq<char>>::empty());
    } else {
        lemma_scan_paths(ns, ls.drop_last());
        let st = scan_lines(ns, ls.drop_last());
        let line = ls.last();
        if is_file_header(line) {
            let fin = match st.current {
                Some(p) => finished_file(ns, p, st.diff, st.is_new, st.is_deleted),
                None => Seq::empty(),
            };
            assert(change_paths(fin) =~= counted_path(ns, st.current));
            assert(change_paths(st.files + fin) =~= change_paths(st.files) + change_paths(fin));
            assert forall|i: int| 0 <= i < (st.files + fin).len() implies numstat_for(
                ns,
                (#[trigger] (st.files + fin)[i]).path,
            ) == Some(((st.files + fin)[i].additions, (st.files + fin)[i].deletions))
                && (st.files + fin)[i].old_path is None && ((st.files + fin)[i].content is None <==> (st.files + fin)[i].is_binary) by {
                if i < st.files.len() {
                    assert((st.files + fin)[i] == st.files[i]);
                } else {
                    assert((st.files + fin)[i] == fin[i - st.files.len()]);
                }
            }
            let r = scan_lines(ns, ls);
            assert(r.files == st.files + fin);
            assert(r.current == header_path(line));
            assert(change_paths(r.files) + counted_path(ns, r.current) =~= counted_header_paths(ns, ls));
        } else {
            assert(counted_header_paths(ns, ls) =~= counted_header_paths(ns, ls.drop_last()));
        }
    }
}

/// Every file section with a path and numstat counts is listed, the last
/// one included, in the order of the sections, and no other file is: the
/// paths of the parsed changes are exactly the paths of the counted file
/// headers. Each change carries the counts of its path.
pub proof fn law_every_counted_section_listed(output: Seq<char>)
    ensures
        ({
            let ls = lines(output);
            let h = header_len(ls);
            let ns = numstats(ls, h as nat);
            &&& change_paths(parsed_diff(output)) == counted_header_paths(ns, ls.subrange(h, ls.len() as int))
            &&& counts_match(ns, parsed_diff(output))
        }),
{
    let ls = lines(output);
    let h = header_len(ls);
    let ns = numstats(ls, h as nat);
    let body = ls.subrange(h, ls.len() as int);
    lemma_scan_paths(ns, body);
    let st = scan_lines(ns, body);
    let fin = match st.current {
        Some(p) => finished_file(ns, p, st.diff, st.is_new, st.is_deleted),
        None => Seq::empty(),
    };
    assert(change_paths(fin) =~= counted_path(ns, st.current));
    assert(parsed_diff(output) == st.files + fin);
    assert(change_paths(st.files + fin) =~= change_paths(st.files) + change_paths(fin));
    assert forall|i: int| 0 <= i < (st.files + fin).len() implies numstat_for(
        ns,
        (#[trigger] (st.files + fin)[i]).path,
    ) == Some(((st.files + fin)[i].additions, (st.files + fin)[i].deletions))
        && (st.files + fin)[i].old_path is None && ((st.files + fin)[i].content is None <==> (st.files + fin)[i].is_binary) by {
        if i < st.files.len() {
            assert((st.files + fin)[i] == st.files[i]);
        } else {
            assert((st.files + fin)[i] == fin[i - st.files.len()]);
        }
    }
}

// ---------------------------------------------------------------------------
// Executable parser
// ---------------------------------------------------------------------------

/// The numstat views of a list of parsed numstat lines.
pub open spec fn numstats_view(v: Seq<(String, usize, usize)>) -> Seq<(Seq<char>, nat, nat)> {
    Seq::new(v.len(), |i: int| (v[i].0@, v[i].1 as nat, v[i].2 as nat))
}

/// `s.parse::<usize>()`.
fn parse_usize(s: &str) -> (r: Option<usize>)
    ensures
        match parse_unsigned(s@, usize::MAX as nat) {
            Some(n) => r == Some(n as usize),
            None => r is None,
        },
{
    let v = chars_of(s);
    assert(v@.subrange(0, v.len() as int) =~= s@);
    match parse_u64_chars(&v, 0, v.len()) {
        Some(n) => {
            if n <= usize::MAX as u64 {
                Some(n as usize)
            } else {
                None
            }
        },
        None => None,
    }
}

/// Parses a numstat line: `"5\t2\tpath/to/file.rs"`.
pub fn parse_numstat_line(line: &str) -> (r: Option<(String, usize, usize)>)
    ensures
        match numstat_entry(line@) {
            Some(t) => r is Some && r.unwrap().0@ == t.0 && r.unwrap().1 == t.1 && r.unwrap().2 == t.2,
            None => r is None,
        },
{
    let parts = split_char(line, '\t');
    assert(strings_view(parts@).len() == parts@.len());
    if parts.len() != 3 {
        return None;
    }
    assert(strings_view(parts@)[0] == parts@[0]@);
    assert(strings_view(parts@)[1] == parts@[1]@);
    assert(strings_view(parts@)[2] == parts@[2]@);
    let additions = match parse_usize(parts[0].as_str()) {
        Some(a) => a,
        None => return None,
    };
    let deletions = match parse_usize(parts[1].as_str()) {
        Some(d) => d,
        None => return None,
    };
    Some((parts[2].clone(), additions, deletions))
}

/// The path of a `"diff --git a/<path> b/<path>"` line.
pub fn extract_file_path(line: &str) -> (r: Option<String>)
    ensures
        opt_view(r) == header_path(line@),
{
    let w = split_words(line);
    assert(strings_view(w@).len() == w@.len());
    if w.len() < 3 {
        return None;
    }
    assert(strings_view(w@)[2] == w@[2]@);
    proof {
        reveal_strlit("a/");
    }
    if str_starts_with(w[2].as_str(), "a/") {
        let v = chars_of(w[2].as_str());
        Some(string_from_chars(&v, 2, v.len()))
    } else {
        None
    }
}

/// The change type a section's markers give.
pub fn determine_change_type(is_new_file: bool, is_deleted_file: bool) -> (r: FileChangeType)
    ensures
        r == change_type_of(is_new_file, is_deleted_file),
{
    if is_new_file {
        FileChangeType::Added
    } else if is_deleted_file {
        FileChangeType::Deleted
    } else {
        FileChangeType::Modified
    }
}

/// Counts of the first numstat entry for `path`.
fn find_numstat(ns: &Vec<(String, usize, usize)>, path: &str) -> (r: Option<(usize, usize)>)
    ensures
        match numstat_for(numstats_view(ns@), path@) {
            Some(c) => r is Some && r.unwrap().0 as nat == c.0 && r.unwrap().1 as nat == c.1,
            None => r is None,
        },
{
    let ghost all = numstats_view(ns@);
    let mut i: usize = 0;
    assert(all.subrange(0, all.len() as int) =~= all);
    while i < ns.len()
        invariant
            i <= ns.len(),
            all == numstats_view(ns@),
            numstat_for(all, path@) == numstat_for(all.subrange(i as int, all.len() as int), path@),
        decreases ns.len() - i,
    {
        let ghost rest = all.subrange(i as int, all.len() as int);
        assert(rest[0] == all[i as int]);
        if str_eq(ns[i].0.as_str(), path) {
            return Some((ns[i].1, ns[i].2));
        }
        assert(rest.drop_first() =~= all.subrange(i + 1, all.len() as int));
        i = i + 1;
    }
    None
}

/// The scan state, held in executable values.
struct DiffScanner {
    current: Option<String>,
    diff: String,
    is_new: bool,
    is_deleted: bool,
    files: Vec<FileDiff>,
}

spec fn scanner_view(s: DiffScanner) -> DiffScan {
    DiffScan {
        current: opt_view(s.current),
        diff: s.diff@,
        is_new: s.is_new,
        is_deleted: s.is_deleted,
        files: changes_view(s.files@),
    }
}

/// Records the file of a finished section when it has numstat counts.
fn finish_file(
    ns: &Vec<(String, usize, usize)>,
    path: String,
    diff: &String,
    is_new: bool,
    is_deleted: bool,
    files: &mut Vec<FileDiff>,
)
    ensures
        changes_view(final(files)@) == changes_view(old(files)@) + finished_file(
            numstats_view(ns@),
            path@,
            diff@,
            is_new,
            is_deleted,
        ),
{
    let ghost before = changes_view(files@);
    match find_numstat(ns, path.as_str()) {
        Some((additions, deletions)) => {
            proof {
                reveal_strlit("Binary files");
            }
            let binary = str_contains(diff.as_str(), "Binary files");
            let content = if binary {
                None
            } else {
                Some(diff.clone())
            };
            let f = FileDiff {
                path,
                change_type: determine_change_type(is_new, is_deleted),
                old_path: None,
                additions,
                deletions,
                is_binary: binary,
                diff_content: content,
            };
            files.push(f);
            assert(changes_view(files@) =~= before + finished_file(
                numstats_view(ns@),
                path@,
                diff@,
                is_new,
                is_deleted,
            ));
        },
        None => {
            assert(changes_view(files@) =~= before + Seq::<FileChange>::empty());
        },
    }
}

/// One line of the section scan.
fn scan_step(ns: &Vec<(String, usize, usize)>, sc: &mut DiffScanner, line: &str)
    ensures
        scanner_view(*final(sc)) == scan_line(numstats_view(ns@), scanner_view(*old(sc)), line@),
{
    proof {
        reveal_strlit("diff --git");
        reveal_strlit("--- /dev/null");
        reveal_strlit("+++ /dev/null");
    }
    if str_starts_with(line, "diff --git") {
        let taken = sc.current.take();
        match taken {
            Some(path) => {
                finish_file(ns, path, &sc.diff, sc.is_new, sc.is_deleted, &mut sc.files);
                sc.diff = String::new();
                sc.is_new = false;
                sc.is_deleted = false;
            },
            None => {},
        }
        match extract_file_path(line) {
            Some(p) => {
                sc.current = Some(p);
            },
            None => {},
        }
    }
    if str_starts_with(line, "--- /dev/null") {
        sc.is_new = true;
    }
    if str_starts_with(line, "+++ /dev/null") {
        sc.is_deleted = true;
    }
    push_str(&mut sc.diff, line);
    push_char(&mut sc.diff, '\n');
    assert(scanner_view(*sc).files =~= scan_line(numstats_view(ns@), scanner_view(*old(sc)), line@).files);
    assert(scanner_view(*sc).diff =~= scan_line(numstats_view(ns@), scanner_view(*old(sc)), line@).diff);
}

/// Parses `git diff --numstat -p` output into the changed files.
pub fn parse_diff_output(output: &str) -> (r: TaskDiff)
    ensures
        changes_view(r.files@) == parsed_diff(output@),
{
    let ls = split_lines(output);
    let ghost lv = lines(output@);
    assert(strings_view(ls@) == lv);
    assert(lv.len() == ls@.len());
    proof {
        reveal_strlit("diff --git");
    }
    // The numstat section ends at the first file header.
    let mut ns: Vec<(String, usize, usize)> = Vec::new();
    let mut h: usize = 0;
    while h < ls.len() && !str_starts_with(ls[h].as_str(), "diff --git")
        invariant
            h <= ls.len(),
            lv == strings_view(ls@),
            lv.len() == ls@.len(),
            forall|j: int| 0 <= j < h ==> !is_file_header(#[trigger] lv[j]),
            numstats_view(ns@) == numstats(lv, h as nat),
        decreases ls.len() - h,
    {
        assert(lv[h as int] == ls@[h as int]@);
        let ghost before = numstats_view(ns@);
        match parse_numstat_line(ls[h].as_str()) {
            Some(t) => {
                ns.push(t);
                assert(numstats_view(ns@) =~= numstats(lv, (h + 1) as nat));
            },
            None => {
                assert(numstats_view(ns@) =~= numstats(lv, (h + 1) as nat));
            },
        }
        h = h + 1;
    }
    proof {
        if h < ls.len() {
            assert(lv[h as int] == ls@[h as int]@);
        }
        assert(is_header_end(lv, h as int));
        lemma_header_end_unique(lv, h as int, header_len(lv));
    }
    let mut sc = DiffScanner {
        current: None,
        diff: String::new(),
        is_new: false,
        is_deleted: false,
        files: Vec::new(),
    };
    assert(changes_view(sc.files@) =~= Seq::<FileChange>::empty());
    assert(sc.diff@ =~= Seq::<char>::empty());
    assert(scanner_view(sc) == scan_start());
    let mut i: usize = h;
    assert(lv.subrange(h as int, h as int) =~= Seq::<Seq<char>>::empty());
    while i < ls.len()
        invariant
            h <= i <= ls.len(),
            lv == strings_view(ls@),
            lv.len() == ls@.len(),
            scanner_view(sc) == scan_lines(numstats_view(ns@), lv.subrange(h as int, i as int)),
        decreases ls.len() - i,
    {
        assert(lv[i as int] == ls@[i as int]@);
        let ghost seen = lv.subrange(h as int, i + 1);
        assert(seen.drop_last() =~= lv.subrange(h as int, i as int));
        assert(seen.last() == lv[i as int]);
        scan_step(&ns, &mut sc, ls[i].as_str());
        i = i + 1;
    }
    let ghost st = scanner_view(sc);
    match sc.current {
        Some(path) => {
            finish_file(&ns, path, &sc.diff, sc.is_new, sc.is_deleted, &mut sc.files);
        },
        None => {
            assert(changes_view(sc.files@) =~= changes_view(sc.files@) + Seq::<FileChange>::empty());
        },
    }
    TaskDiff { files: sc.files }
}

// ---------------------------------------------------------------------------
// Untracked files
// ---------------------------------------------------------------------------

/// What `String::from_utf8_lossy` makes of some bytes.
pub uninterp spec fn utf8_lossy(bytes: Seq<u8>) -> Seq<char>;

/// Decodes bytes as UTF-8, replacing invalid sequences (`String::from_utf8_lossy`).
#[verifier::external_body]
pub(crate) fn lossy_text(bytes: &Vec<u8>) -> (r: String)
    ensures
        r@ == utf8_lossy(bytes@),
{
    String::from_utf8_lossy(bytes).into_owned()
}

/// Each line as an added diff line (`+line\n`).
pub open spec fn added_lines(ls: Seq<Seq<char>>) -> Seq<char>
    decreases ls.len(),
{
    if ls.len() == 0 {
        Seq::empty()
    } else {
        added_lines(ls.drop_last()) + seq!['+'] + ls.last() + seq!['\n']
    }
}

/// The diff that shows a new file with these lines.
pub open spec fn new_file_diff_text(path: Seq<char>, ls: Seq<Seq<char>>) -> Seq<char> {
    "diff --git a/"@ + path + " b/"@ + path + "\nnew file mode 100644\n--- /dev/null\n+++ b/"@ + path
        + "\n@@ -0,0 +1,"@ + dec(ls.len()) + " @@\n"@ + added_lines(ls)
}

/// An untracked file, shown as added: binary when it holds a zero byte,
/// else its lines, all added.
pub open spec fn untracked_change(path: Seq<char>, content: Seq<u8>) -> FileChange {
    if content.contains(0u8) {
        FileChange {
            path,
            change_type: FileChangeType::Added,
            old_path: None,
            additions: 0,
            deletions: 0,
            is_binary: true,
            content: None,
        }
    } else {
        let ls = lines(utf8_lossy(content));
        FileChange {
            path,
            change_type: FileChangeType::Added,
            old_path: None,
            additions: ls.len(),
            deletions: 0,
            is_binary: false,
            content: Some(new_file_diff_text(path, ls)),
        }
    }
}

/// Whether `bytes` holds a zero byte.
fn has_zero_byte(bytes: &Vec<u8>) -> (r: bool)
    ensures
        r == bytes@.contains(0u8),
{
    let mut i: usize = 0;
    while i < bytes.len()
        invariant
            i <= bytes.len(),
            forall|k: int| 0 <= k < i ==> bytes@[k] != 0u8,
        decreases bytes.len() - i,
    {
        if bytes[i] == 0u8 {
            assert(bytes@[i as int] == 0u8);
            return true;
        }
        i = i + 1;
    }
    false
}

/// The diff entry of an untracked file with the given content.
pub fn untracked_file_diff(path: &str, content: &Vec<u8>) -> (r: FileDiff)
    ensures
        r@ == untracked_change(path@, content@),
{
    if has_zero_byte(content) {
        return FileDiff {
            path: path.to_string(),
            change_type: FileChangeType::Added,
            old_path: None,
            additions: 0,
            deletions: 0,
            is_binary: true,
            diff_content: None,
        };
    }
    let text = lossy_text(content);
    let ls = split_lines(text.as_str());
    let ghost lv = lines(text@);
    assert(strings_view(ls@) == lv);
    let n = ls.len();
    let mut d = String::new();
    push_str(&mut d, "diff --git a/");
    push_str(&mut d, path);
    push_str(&mut d, " b/");
    push_str(&mut d, path);
    push_str(&mut d, "\nnew file mode 100644\n--- /dev/null\n+++ b/");
    push_str(&mut d, path);
    push_str(&mut d, "\n@@ -0,0 +1,");
    push_decimal(&mut d, n as u64);
    push_str(&mut d, " @@\n");
    let ghost head = d@;
    let mut i: usize = 0;
    assert(lv.take(0) =~= Seq::<Seq<char>>::empty());
    assert(d@ =~= head + added_lines(lv.take(0)));
    while i < n
        invariant
            i <= n == ls.len(),
            lv == strings_view(ls@),
            d@ == head + added_lines(lv.take(i as int)),
        decreases n - i,
    {
        assert(lv[i as int] == ls@[i as int]@);
        assert(lv.take(i + 1).drop_last() =~= lv.take(i as int));
        push_char(&mut d, '+');
        push_str(&mut d, ls[i].as_str());
        push_char(&mut d, '\n');
        assert(d@ =~= head + added_lines(lv.take(i + 1)));
        i = i + 1;
    }
    assert(lv.take(n as int) =~= lv);
    FileDiff {
        path: path.to_string(),
        change_type: FileChangeType::Added,
        old_path: None,
        additions: n,
        deletions: 0,
        is_binary: false,
        diff_content: Some(d),
    }
}

/// Git's complaint that HEAD does not exist yet (a branch without commits).
pub open spec fn no_head_yet(stderr: Seq<char>) -> bool {
    contains_seq(stderr, "unknown revision"@) || contains_seq(stderr, "bad revision"@)
}

/// Whether a failed `git diff HEAD` failed only because there is no commit
/// yet, in which case there are no changes to show.
pub fn is_missing_head(stderr: &str) -> (r: bool)
    ensures
        r == no_head_yet(stderr@),
{
    str_contains(stderr, "unknown revision") || str_contains(stderr, "bad revision")
}

/// Git's complaint that a path is not in HEAD.
pub open spec fn not_in_head(stderr: Seq<char>) -> bool {
    contains_seq(stderr, "does not exist"@) || contains_seq(stderr, "exists on disk, but not in"@)
}

/// Whether a failed `git show HEAD:<path>` failed only because the file is
/// not in HEAD, in which case it has no content there.
pub fn is_missing_at_head(stderr: &str) -> (r: bool)
    ensures
        r == not_in_head(stderr@),
{
    str_contains(stderr, "does not exist") || str_contains(stderr, "exists on disk, but not in")
}

} // verus!
