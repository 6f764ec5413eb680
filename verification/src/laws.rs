//! The laws of the editor, each proved once and for all inputs.
//!
//! These proof functions state, over the same relations that the executable
//! functions' contracts use, what the editor guarantees: which line a
//! numeric address selects, how the symbolic last line behaves on an empty
//! buffer, what written output looks like, that printing is repeatable,
//! that appending lands after the addressed line, that a backwards range is
//! rejected, and that no failing command moves the state.

use vstd::prelude::*;

use crate::address::{Address, AddressToken};
use crate::command::{CommandKindView, CommandView};
use crate::editor::{
    effective_path, exec_rel, insert_rel, join_lines, opt_path_view, spec_range,
    spec_resolve_token, spec_validate, with_final_newline, Action, Editor, Mode,
};
use crate::errors::EdError;

verus! {

/// A single numeric address `n` with `1 <= n <= len` resolves to the
/// validated range covering exactly the `n`-th line.
pub proof fn law_single_number_resolves(cv: CommandView, cur: int, len: int, n: usize)
    requires
        cv.address == Some(Address::Single(AddressToken::Number(n))),
        1 <= n <= len,
    ensures
        spec_validate(spec_range(cv, cur, len), len) == Ok::<Option<(int, int)>, EdError>(
            Some((n as int, n as int)),
        ),
{
}

/// Printing the single numeric address `n` outputs exactly the `n`-th
/// (1-based) line of the buffer.
pub proof fn law_single_number_prints_nth(
    pre: Editor,
    n: usize,
    post: Editor,
    r: Result<Action, EdError>,
)
    requires
        1 <= n <= pre.lines@.len(),
        exec_rel(
            pre,
            CommandView {
                address: Some(Address::Single(AddressToken::Number(n))),
                kind: CommandKindView::Print,
            },
            post,
            r,
        ),
    ensures
        match r {
            Ok(Action::Print(out)) => out@ == pre.lines_view()[n - 1],
            _ => false,
        },
{
    let sub = pre.lines_view().subrange(n - 1, n as int);
    assert(sub.len() == 1);
    assert(join_lines(sub) == sub[0]);
}

/// The symbolic last line resolves to the length of the buffer.
pub proof fn law_dollar_resolves(len: int)
    ensures
        spec_resolve_token(AddressToken::Dollar, len) == len,
{
}

/// On an empty buffer, every command that needs a range fails with an
/// out-of-bounds address and leaves the editor untouched; in particular
/// printing an empty buffer is rejected, not a no-op.
pub proof fn law_empty_buffer_rejects(
    pre: Editor,
    cv: CommandView,
    post: Editor,
    r: Result<Action, EdError>,
)
    requires
        pre.lines@.len() == 0,
        match cv.kind {
            CommandKindView::Edit { .. } => cv.address is Some,
            _ => true,
        },
        exec_rel(pre, cv, post, r),
    ensures
        r == Err::<Action, EdError>(EdError::OutOfBoundsAddress),
        post == pre,
{
}

/// Whatever the buffer and the range, the contents handed out by a write
/// command end in exactly one final newline, appended only when the joined
/// lines do not already end in one.
pub proof fn law_write_ends_with_newline(
    pre: Editor,
    cv: CommandView,
    post: Editor,
    r: Result<Action, EdError>,
    path: Vec<char>,
    contents: String,
)
    requires
        cv.kind matches CommandKindView::Write { .. },
        exec_rel(pre, cv, post, r),
        r == Ok::<Action, EdError>(Action::WriteFile { path, contents }),
    ensures
        contents@.len() > 0,
        contents@.last() == '\n',
{
}

/// A write command without an address hands out the whole buffer joined by
/// newlines with a final newline, whether or not the buffer's last line
/// already carries one.
pub proof fn law_write_whole_buffer(
    pre: Editor,
    arg: Option<Seq<char>>,
    post: Editor,
    r: Result<Action, EdError>,
)
    requires
        pre.lines@.len() >= 1,
        effective_path(arg, opt_path_view(pre.default_filename)) is Some,
        exec_rel(
            pre,
            CommandView { address: None, kind: CommandKindView::Write { path: arg } },
            post,
            r,
        ),
    ensures
        match r {
            Ok(Action::WriteFile { path: _, contents }) => contents@ == with_final_newline(
                join_lines(pre.lines_view()),
            ),
            _ => false,
        },
        post == pre,
{
    assert(pre.lines_view().subrange(0, pre.lines@.len() as int) =~= pre.lines_view());
}

/// Printing the whole buffer is repeatable: doing it twice produces the
/// same output both times, and the cursor stands one past the last line
/// after each run.
pub proof fn law_print_idempotent(
    pre: Editor,
    mid: Editor,
    post: Editor,
    r1: Result<Action, EdError>,
    r2: Result<Action, EdError>,
)
    requires
        pre.lines@.len() >= 1,
        exec_rel(
            pre,
            CommandView {
                address: Some(
                    Address::Range {
                        start: AddressToken::Number(1),
                        end: AddressToken::Dollar,
                    },
                ),
                kind: CommandKindView::Print,
            },
            mid,
            r1,
        ),
        exec_rel(
            mid,
            CommandView {
                address: Some(
                    Address::Range {
                        start: AddressToken::Number(1),
                        end: AddressToken::Dollar,
                    },
                ),
                kind: CommandKindView::Print,
            },
            post,
            r2,
        ),
    ensures
        mid.current_address as int == pre.lines@.len() + 1,
        post.current_address as int == pre.lines@.len() + 1,
        match (r1, r2) {
            (Ok(Action::Print(o1)), Ok(Action::Print(o2))) => o1@ == o2@,
            _ => false,
        },
{
    assert(mid.lines == pre.lines);
    assert(mid.lines_view() =~= pre.lines_view());
}

/// Appending at an addressed line `k` only switches to insert mode and
/// puts the cursor one past `k`, so that the next inserted line lands
/// right after the addressed one; the buffer itself does not move.
pub proof fn law_append_enters_insert_after_line(
    pre: Editor,
    k: usize,
    post: Editor,
    r: Result<Action, EdError>,
)
    requires
        1 <= k <= pre.lines@.len(),
        exec_rel(
            pre,
            CommandView {
                address: Some(Address::Single(AddressToken::Number(k))),
                kind: CommandKindView::Append,
            },
            post,
            r,
        ),
    ensures
        post.mode == Mode::Insert,
        post.current_address as int == k + 1,
        post.lines == pre.lines,
        r == Ok::<Action, EdError>(Action::Silent),
{
}

/// A backwards explicit range is rejected as an out-of-bounds address and
/// changes nothing: that is this editor's fixed policy for reversed
/// ranges.
pub proof fn law_reversed_range_rejected(
    pre: Editor,
    t1: AddressToken,
    t2: AddressToken,
    kind: CommandKindView,
    post: Editor,
    r: Result<Action, EdError>,
)
    requires
        spec_resolve_token(t1, pre.lines@.len() as int) > spec_resolve_token(
            t2,
            pre.lines@.len() as int,
        ),
        exec_rel(
            pre,
            CommandView { address: Some(Address::Range { start: t1, end: t2 }), kind },
            post,
            r,
        ),
    ensures
        r == Err::<Action, EdError>(EdError::OutOfBoundsAddress),
        post == pre,
{
}

/// Once an explicit address has been given, the bare command and `p` are
/// the same command: they admit exactly the same outcomes. The bare
/// command prints while advancing; it never advances silently.
pub proof fn law_bare_behaves_like_print(
    pre: Editor,
    a: Address,
    post: Editor,
    r: Result<Action, EdError>,
)
    ensures
        exec_rel(
            pre,
            CommandView { address: Some(a), kind: CommandKindView::PrintAndSet },
            post,
            r,
        ) == exec_rel(
            pre,
            CommandView { address: Some(a), kind: CommandKindView::Print },
            post,
            r,
        ),
{
}

/// In insert mode, a fed line that is not the lone `.` becomes the line
/// at the cursor position and pushes the cursor one further; everything
/// that followed moves down by one.
pub proof fn law_inserted_line_lands_at_cursor(
    pre: Editor,
    input: String,
    post: Editor,
    r: Result<Action, EdError>,
)
    requires
        pre.wf(),
        input@ != seq!['.'],
        insert_rel(pre, input, post, r),
    ensures
        post.lines@.len() == pre.lines@.len() + 1,
        post.lines@[pre.current_address - 1] == input,
        post.current_address == pre.current_address + 1,
        forall|i: int|
            0 <= i < pre.current_address - 1 ==> post.lines@[i] == pre.lines@[i],
        forall|i: int|
            pre.current_address - 1 < i < post.lines@.len() ==> post.lines@[i] == pre.lines@[i
                - 1],
{
}

/// No failing command moves the editor: whenever execution reports an
/// error, the state after equals the state before.
pub proof fn law_failure_leaves_state(
    pre: Editor,
    cv: CommandView,
    post: Editor,
    r: Result<Action, EdError>,
)
    requires
        exec_rel(pre, cv, post, r),
        r is Err,
    ensures
        post == pre,
{
}

} // verus!
