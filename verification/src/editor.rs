//! The editor state machine.
//!
//! The editor owns the buffer of lines, the cursor, the remembered default
//! file path, and the mode that decides how the next input line is read.
//! Executing a command never touches a file directly: commands that need
//! the file system return an [`Action`] telling the caller what to do, and
//! the caller reports a successful load or write back through [`Editor::load`]
//! and [`Editor::note_written`]. A failing command leaves the editor exactly
//! as it was.

use vstd::prelude::*;
use vstd::string::StringExecFns;

use crate::address::{Address, AddressToken};
use crate::command::{spec_parse_command, Command, CommandKindView, CommandToken, CommandView};
use crate::errors::EdError;
use crate::scanner::chars_of;

verus! {

/// How the next raw input line is interpreted.
#[derive(Clone, Copy, Debug, PartialEq, Eq, Structural)]
pub enum Mode {
    /// The line is a command.
    Command,
    /// The line is text for the buffer, ended by a lone `.`.
    Insert,
}

/// What the caller must do after a command has executed.
#[derive(Debug, PartialEq, Eq)]
pub enum Action {
    /// Nothing: the command only changed the editor's own state.
    Silent,
    /// Print this text, followed by a newline.
    Print(String),
    /// Write `contents` to the file at `path`, report the number of bytes
    /// written, and on success call [`Editor::note_written`] with the path.
    WriteFile {
        /// Where to write.
        path: Vec<char>,
        /// The exact bytes to write, already ending in a newline.
        contents: String,
    },
    /// Read the lines of the file at `path` and on success hand them to
    /// [`Editor::load`] with the path.
    LoadFile {
        /// Where to read from.
        path: Vec<char>,
    },
}

/// The editor: buffer, cursor, remembered path, and mode.
pub struct Editor {
    /// The buffer, one entry per line, without line terminators.
    pub lines: Vec<String>,
    /// The cursor: a 1-based line position, at most one past the last line.
    pub current_address: usize,
    /// The remembered path, set by loads and successful writes.
    pub default_filename: Option<Vec<char>>,
    /// How the next input line will be interpreted.
    pub mode: Mode,
}

/// The view of an optional path.
pub open spec fn opt_path_view(p: Option<Vec<char>>) -> Option<Seq<char>> {
    match p {
        Some(v) => Some(v@),
        None => None,
    }
}

/// The explicit path argument when one was given, else the remembered one.
pub open spec fn effective_path(arg: Option<Seq<char>>, def: Option<Seq<char>>) -> Option<
    Seq<char>,
> {
    match arg {
        Some(p) => Some(p),
        None => def,
    }
}

/// The line number an address token stands for in a buffer of `len` lines.
pub open spec fn spec_resolve_token(t: AddressToken, len: int) -> int {
    match t {
        AddressToken::Dollar => len,
        AddressToken::Number(n) => n as int,
    }
}

/// The 1-based inclusive line range a command covers, before validation,
/// or `None` for a command that needs no range.
pub open spec fn spec_range(cv: CommandView, cur: int, len: int) -> Option<(int, int)> {
    match cv.address {
        Some(Address::Single(t)) => Some(
            (spec_resolve_token(t, len), spec_resolve_token(t, len)),
        ),
        Some(Address::Range { start, end }) => Some(
            (spec_resolve_token(start, len), spec_resolve_token(end, len)),
        ),
        None => match cv.kind {
            CommandKindView::PrintAndSet => Some((cur + 1, cur + 1)),
            CommandKindView::Edit { .. } => None,
            CommandKindView::Write { .. } => Some((1, len)),
            _ => Some((cur, cur)),
        },
    }
}

/// Bounds-checks a resolved range: both endpoints must lie in
/// `1..=len`, and the range must not run backwards. A backwards range is
/// rejected as [`EdError::OutOfBoundsAddress`]; that policy is fixed here,
/// deliberately, rather than inherited from slicing behaviour.
pub open spec fn spec_validate(r: Option<(int, int)>, len: int) -> Result<
    Option<(int, int)>,
    EdError,
> {
    match r {
        None => Ok(None),
        Some((s, e)) => if 1 <= s && s <= e && e <= len {
            Ok(Some((s, e)))
        } else {
            Err(EdError::OutOfBoundsAddress)
        },
    }
}

/// The addressed lines joined by single newlines, with no terminator.
pub open spec fn join_lines(ls: Seq<Seq<char>>) -> Seq<char>
    decreases ls.len(),
{
    if ls.len() == 0 {
        Seq::empty()
    } else if ls.len() == 1 {
        ls[0]
    } else {
        join_lines(ls.drop_last()) + seq!['\n'] + ls.last()
    }
}

/// `s`, with a newline appended when it does not already end in one.
pub open spec fn with_final_newline(s: Seq<char>) -> Seq<char> {
    if s.len() > 0 && s.last() == '\n' {
        s
    } else {
        s.push('\n')
    }
}

impl Editor {
    /// The buffer as a sequence of character sequences.
    pub open spec fn lines_view(self) -> Seq<Seq<char>> {
        self.lines@.map_values(|l: String| l@)
    }

    /// The cursor stays within `1..=len+1` and the buffer length leaves
    /// room for the cursor to be represented.
    pub open spec fn wf(self) -> bool {
        &&& 1 <= self.current_address <= self.lines@.len() + 1
        &&& self.lines@.len() < usize::MAX
    }

    /// The buffer and the remembered path are untouched.
    pub open spec fn keeps_buffer(self, post: Editor) -> bool {
        post.lines == self.lines && post.default_filename == self.default_filename
    }
}

/// What a print command (explicit `p` or the bare default) leaves behind:
/// the addressed lines joined by newlines, and the cursor one past the
/// last printed line.
pub open spec fn print_post(
    pre: Editor,
    s: int,
    e: int,
    post: Editor,
    r: Result<Action, EdError>,
) -> bool {
    &&& pre.keeps_buffer(post)
    &&& post.mode == pre.mode
    &&& post.current_address as int == e + 1
    &&& match r {
        Ok(Action::Print(out)) => out@ == join_lines(pre.lines_view().subrange(s - 1, e)),
        _ => false,
    }
}

/// What an edit command leaves behind: the editor untouched and a request
/// to load the chosen path, or a missing-path error.
pub open spec fn edit_post(
    pre: Editor,
    arg: Option<Seq<char>>,
    post: Editor,
    r: Result<Action, EdError>,
) -> bool {
    &&& post == pre
    &&& match effective_path(arg, opt_path_view(pre.default_filename)) {
        None => r == Err::<Action, EdError>(EdError::MissingFilePath),
        Some(pv) => match r {
            Ok(Action::LoadFile { path }) => path@ == pv,
            _ => false,
        },
    }
}

/// What a write command leaves behind: the editor untouched and a request
/// to write the addressed lines, joined by newlines and ending in exactly
/// one final newline, to the chosen path; or a missing-path error.
pub open spec fn write_post(
    pre: Editor,
    s: int,
    e: int,
    arg: Option<Seq<char>>,
    post: Editor,
    r: Result<Action, EdError>,
) -> bool {
    &&& post == pre
    &&& match effective_path(arg, opt_path_view(pre.default_filename)) {
        None => r == Err::<Action, EdError>(EdError::MissingWritePath),
        Some(pv) => match r {
            Ok(Action::WriteFile { path, contents }) => path@ == pv && contents@
                == with_final_newline(join_lines(pre.lines_view().subrange(s - 1, e))),
            _ => false,
        },
    }
}

/// What executing one already-parsed command does: the complete relation
/// between the editor before, the command, the editor after, and the
/// result. Every failing command leaves the editor unchanged.
///
/// After a deletion the cursor holds the position where the line that
/// followed the removed range now stands, which is the range's start once
/// the remaining lines have closed the gap; deleting a tail leaves the
/// cursor one past the new last line.
pub open spec fn exec_rel(
    pre: Editor,
    cv: CommandView,
    post: Editor,
    r: Result<Action, EdError>,
) -> bool {
    let len = pre.lines@.len() as int;
    let cur = pre.current_address as int;
    match spec_validate(spec_range(cv, cur, len), len) {
        Err(e) => r == Err::<Action, EdError>(e) && post == pre,
        Ok(None) => match cv.kind {
            CommandKindView::Edit { path } => edit_post(pre, path, post, r),
            _ => false,
        },
        Ok(Some((s, e))) => match cv.kind {
            CommandKindView::PrintAndSet => print_post(pre, s, e, post, r),
            CommandKindView::Print => print_post(pre, s, e, post, r),
            CommandKindView::Edit { path } => edit_post(pre, path, post, r),
            CommandKindView::Write { path } => write_post(pre, s, e, path, post, r),
            CommandKindView::Append => pre.keeps_buffer(post) && post.current_address as int == s
                + 1 && post.mode == Mode::Insert && r == Ok::<Action, EdError>(Action::Silent),
            CommandKindView::Insert => pre.keeps_buffer(post) && post.current_address as int == s
                && post.mode == Mode::Insert && r == Ok::<Action, EdError>(Action::Silent),
            CommandKindView::Change => post.lines@ == pre.lines@.subrange(0, s - 1)
                + pre.lines@.subrange(e, len) && post.default_filename == pre.default_filename
                && post.current_address as int == s && post.mode == Mode::Insert && r == Ok::<
                Action,
                EdError,
            >(Action::Silent),
            CommandKindView::Delete => post.lines@ == pre.lines@.subrange(0, s - 1)
                + pre.lines@.subrange(e, len) && post.default_filename == pre.default_filename
                && post.current_address as int == s && post.mode == pre.mode && r == Ok::<
                Action,
                EdError,
            >(Action::Silent),
        },
    }
}

/// What one line given to the editor in insert mode does: a lone `.`
/// returns to command mode and steps the cursor back onto the last line
/// handled in insert mode (the insertion point stays one past it while
/// inserting); anything else enters the buffer at the cursor and advances
/// it.
pub open spec fn insert_rel(
    pre: Editor,
    input: String,
    post: Editor,
    r: Result<Action, EdError>,
) -> bool {
    if input@ == seq!['.'] {
        &&& post.lines == pre.lines
        &&& post.current_address as int == if pre.current_address <= 1 {
            1int
        } else {
            pre.current_address - 1
        }
        &&& post.default_filename == pre.default_filename
        &&& post.mode == Mode::Command
        &&& r == Ok::<Action, EdError>(Action::Silent)
    } else {
        &&& post.lines@ == pre.lines@.insert(pre.current_address - 1, input)
        &&& post.current_address == pre.current_address + 1
        &&& post.default_filename == pre.default_filename
        &&& post.mode == Mode::Insert
        &&& r == Ok::<Action, EdError>(Action::Silent)
    }
}

/// The range of a command that was resolved and needs one; only an edit
/// command resolves to no range at all.
fn expect_range(rng: Option<(usize, usize)>) -> (r: (usize, usize))
    requires
        rng is Some,
    ensures
        Some(r) == rng,
{
    match rng {
        Some(se) => se,
        None => {
            proof {
                assert(false);
            }
            (1, 1)
        },
    }
}

/// Appends a final newline to `contents` unless it already ends in one.
fn ensure_final_newline(contents: &mut String)
    ensures
        final(contents)@ == with_final_newline(old(contents)@),
{
    let cs = chars_of(contents.as_str());
    let needs = if cs.len() == 0 {
        true
    } else {
        cs[cs.len() - 1] != '\n'
    };
    if needs {
        contents.append("\n");
        proof {
            reveal_strlit("\n");
            assert(final(contents)@ =~= with_final_newline(old(contents)@));
        }
    }
}

impl Editor {
    /// An editor with an empty buffer, no remembered path, and the cursor
    /// at the first (still absent) line.
    pub fn blank() -> (ed: Editor)
        ensures
            ed.wf(),
            ed.lines@ == Seq::<String>::empty(),
            ed.current_address == 1,
            ed.default_filename is None,
            ed.mode == Mode::Command,
    {
        Editor { lines: Vec::new(), current_address: 1, default_filename: None, mode: Mode::Command }
    }

    /// Replaces the whole state with a freshly loaded buffer: the cursor
    /// lands on the last loaded line — or at the first position, past the
    /// end, when the file was empty — and `path` becomes the remembered
    /// path. The caller uses this to commit a successful load, so that a
    /// failed one never touches the live state.
    pub fn load(&mut self, lines: Vec<String>, path: Vec<char>)
        requires
            lines@.len() < usize::MAX,
        ensures
            final(self).wf(),
            final(self).lines == lines,
            final(self).current_address as int == if lines@.len() == 0 {
                1int
            } else {
                lines@.len() as int
            },
            final(self).default_filename == Some(path),
            final(self).mode == Mode::Command,
    {
        self.lines = lines;
        self.current_address = if self.lines.len() == 0 {
            1
        } else {
            self.lines.len()
        };
        self.default_filename = Some(path);
        self.mode = Mode::Command;
    }

    /// Remembers `path` after a successful write; nothing else changes.
    pub fn note_written(&mut self, path: Vec<char>)
        requires
            old(self).wf(),
        ensures
            final(self).wf(),
            final(self).lines == old(self).lines,
            final(self).current_address == old(self).current_address,
            final(self).mode == old(self).mode,
            final(self).default_filename == Some(path),
    {
        self.default_filename = Some(path);
    }

    /// The line number `token` stands for: `$` is the last line of the
    /// buffer, a number is itself.
    pub fn resolve_address_token(&self, token: AddressToken) -> (r: usize)
        ensures
            r as int == spec_resolve_token(token, self.lines@.len() as int),
    {
        match token {
            AddressToken::Dollar => self.lines.len(),
            AddressToken::Number(n) => n,
        }
    }

    /// Resolves a parsed command to a validated 1-based inclusive line
    /// range, or to `None` for an edit command without an address, which
    /// needs no range.
    pub fn resolve_address(&self, command: &Command) -> (r: Result<
        Option<(usize, usize)>,
        EdError,
    >)
        requires
            self.wf(),
        ensures
            ({
                let sr = spec_validate(
                    spec_range(
                        command@,
                        self.current_address as int,
                        self.lines@.len() as int,
                    ),
                    self.lines@.len() as int,
                );
                match r {
                    Ok(None) => sr == Ok::<Option<(int, int)>, EdError>(None),
                    Ok(Some((s, e))) => sr == Ok::<Option<(int, int)>, EdError>(
                        Some((s as int, e as int)),
                    ),
                    Err(e) => sr == Err::<Option<(int, int)>, EdError>(e),
                }
            }),
    {
        let len = self.lines.len();
        let (start, end) = match &command.address {
            Some(a) => match a {
                Address::Single(t) => {
                    let v = self.resolve_address_token(*t);
                    (v, v)
                },
                Address::Range { start, end } => (
                    self.resolve_address_token(*start),
                    self.resolve_address_token(*end),
                ),
            },
            None => match &command.kind {
                CommandToken::PrintAndSet => {
                    if self.current_address >= len {
                        return Err(EdError::OutOfBoundsAddress);
                    }
                    (self.current_address + 1, self.current_address + 1)
                },
                CommandToken::Edit(_) => {
                    return Ok(None);
                },
                CommandToken::Write(_) => (1, len),
                _ => (self.current_address, self.current_address),
            },
        };
        if 1 <= start && start <= end && end <= len {
            Ok(Some((start, end)))
        } else {
            Err(EdError::OutOfBoundsAddress)
        }
    }

    /// The addressed lines joined by single newlines, with no terminator.
    fn join_range(&self, start: usize, end: usize) -> (r: String)
        requires
            1 <= start <= end <= self.lines@.len(),
        ensures
            r@ == join_lines(self.lines_view().subrange(start - 1, end as int)),
    {
        let mut out = String::new();
        let mut i = start - 1;
        while i < end
            invariant
                1 <= start <= end <= self.lines@.len(),
                start - 1 <= i <= end,
                out@ == join_lines(self.lines_view().subrange(start - 1, i as int)),
            decreases end - i,
        {
            if i > start - 1 {
                out.append("\n");
            }
            out.append(self.lines[i].as_str());
            proof {
                reveal_strlit("\n");
                let sub = self.lines_view().subrange(start - 1, i + 1);
                assert(sub.drop_last() =~= self.lines_view().subrange(start - 1, i as int));
                assert(sub.last() == self.lines_view()[i as int]);
            }
            i = i + 1;
        }
        out
    }

    /// Removes the 1-based inclusive line range `start..=end` from the
    /// buffer.
    fn delete_range(&mut self, start: usize, end: usize)
        requires
            1 <= start <= end <= old(self).lines@.len(),
        ensures
            final(self).lines@ == old(self).lines@.subrange(0, start - 1) + old(
                self,
            ).lines@.subrange(end as int, old(self).lines@.len() as int),
            final(self).current_address == old(self).current_address,
            final(self).default_filename == old(self).default_filename,
            final(self).mode == old(self).mode,
    {
        let ghost orig = old(self).lines@;
        let count = end - start + 1;
        let mut k: usize = 0;
        while k < count
            invariant
                1 <= start <= end <= orig.len(),
                count == end - start + 1,
                0 <= k <= count,
                self.lines@ == orig.subrange(0, start - 1) + orig.subrange(
                    start - 1 + k,
                    orig.len() as int,
                ),
                self.current_address == old(self).current_address,
                self.default_filename == old(self).default_filename,
                self.mode == old(self).mode,
            decreases count - k,
        {
            self.lines.remove(start - 1);
            proof {
                assert(self.lines@ =~= orig.subrange(0, start - 1) + orig.subrange(
                    start + k,
                    orig.len() as int,
                ));
            }
            k = k + 1;
        }
        proof {
            assert(self.lines@ =~= orig.subrange(0, start - 1) + orig.subrange(
                end as int,
                orig.len() as int,
            ));
        }
    }

    /// Executes one parsed command: resolves and validates its address,
    /// then carries it out. Commands that need the file system are
    /// answered with an [`Action`] and leave the state untouched until the
    /// caller commits the outcome.
    pub fn execute(&mut self, command: Command) -> (r: Result<Action, EdError>)
        requires
            old(self).wf(),
            old(self).lines@.len() + 2 <= usize::MAX,
        ensures
            final(self).wf(),
            exec_rel(*old(self), command@, *final(self), r),
    {
        let rng = match self.resolve_address(&command) {
            Err(e) => {
                return Err(e);
            },
            Ok(rng) => rng,
        };
        match command.kind {
            CommandToken::PrintAndSet | CommandToken::Print => {
                let (start, end) = expect_range(rng);
                let out = self.join_range(start, end);
                self.current_address = end + 1;
                Ok(Action::Print(out))
            },
            CommandToken::Edit(p) => {
                let path = match p {
                    Some(path) => path,
                    None => match &self.default_filename {
                        Some(d) => d.clone(),
                        None => {
                            return Err(EdError::MissingFilePath);
                        },
                    },
                };
                Ok(Action::LoadFile { path })
            },
            CommandToken::Write(p) => {
                let (start, end) = expect_range(rng);
                let path = match p {
                    Some(path) => path,
                    None => match &self.default_filename {
                        Some(d) => d.clone(),
                        None => {
                            return Err(EdError::MissingWritePath);
                        },
                    },
                };
                let mut contents = self.join_range(start, end);
                ensure_final_newline(&mut contents);
                Ok(Action::WriteFile { path, contents })
            },
            CommandToken::Append => {
                let (start, _end) = expect_range(rng);
                self.current_address = start + 1;
                self.mode = Mode::Insert;
                Ok(Action::Silent)
            },
            CommandToken::Insert => {
                let (start, _end) = expect_range(rng);
                self.current_address = start;
                self.mode = Mode::Insert;
                Ok(Action::Silent)
            },
            CommandToken::Change => {
                let (start, end) = expect_range(rng);
                self.delete_range(start, end);
                self.current_address = start;
                self.mode = Mode::Insert;
                Ok(Action::Silent)
            },
            CommandToken::Delete => {
                let (start, end) = expect_range(rng);
                self.delete_range(start, end);
                self.current_address = start;
                Ok(Action::Silent)
            },
        }
    }

    /// Interprets one raw input line according to the current mode: in
    /// command mode the line is parsed and executed; in insert mode it is
    /// stored in the buffer, unless it is the lone `.` that returns to
    /// command mode and leaves the cursor on the last line handled in
    /// insert mode. Every error leaves the editor unchanged.
    pub fn interpret(&mut self, input: String) -> (r: Result<Action, EdError>)
        requires
            old(self).wf(),
            old(self).lines@.len() + 2 <= usize::MAX,
        ensures
            final(self).wf(),
            old(self).mode == Mode::Insert ==> insert_rel(*old(self), input, *final(self), r),
            old(self).mode == Mode::Command ==> match spec_parse_command(input@) {
                Err(e) => r == Err::<Action, EdError>(e) && *final(self) == *old(self),
                Ok(cv) => exec_rel(*old(self), cv, *final(self), r),
            },
    {
        match self.mode {
            Mode::Insert => {
                proof {
                    reveal_strlit(".");
                    assert("."@ =~= seq!['.']);
                }
                if input == String::from_str(".") {
                    if self.current_address > 1 {
                        self.current_address = self.current_address - 1;
                    }
                    self.mode = Mode::Command;
                    Ok(Action::Silent)
                } else {
                    let at = self.current_address - 1;
                    self.lines.insert(at, input);
                    self.current_address = self.current_address + 1;
                    Ok(Action::Silent)
                }
            },
            Mode::Command => {
                match Command::parse(input.as_str()) {
                    Err(e) => Err(e),
                    Ok(cmd) => self.execute(cmd),
                }
            },
        }
    }
}

} // verus!
