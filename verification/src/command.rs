//! The command grammar.
//!
//! A command line is an optional address expression followed by a one-letter
//! verb. The path-taking verbs `e` and `w` accept exactly one whitespace
//! character and then take the rest of the line, verbatim, as their path.
//! Anything left over after a complete command is an error, as is an
//! unknown verb.

use vstd::prelude::*;

use crate::address::{spec_parse_address, Address};
use crate::errors::EdError;
use crate::scanner::InputStream;

verus! {

/// The verb of a command, with its path argument where one was given.
#[derive(Debug, PartialEq, Eq)]
pub enum CommandToken {
    /// The bare command: advance to the next line and print it.
    PrintAndSet,
    /// `p`: print the addressed lines.
    Print,
    /// `e`: reload the buffer from the given path, or from the remembered
    /// one.
    Edit(Option<Vec<char>>),
    /// `w`: write the addressed lines to the given path, or to the
    /// remembered one.
    Write(Option<Vec<char>>),
    /// `a`: insert new lines after the addressed line.
    Append,
    /// `i`: insert new lines before the addressed line.
    Insert,
    /// `c`: replace the addressed lines with new ones.
    Change,
    /// `d`: delete the addressed lines.
    Delete,
}

/// The mathematical shape of a [`CommandToken`]: the same variants with
/// the paths abstracted to character sequences.
pub enum CommandKindView {
    /// The bare command.
    PrintAndSet,
    /// `p`.
    Print,
    /// `e`, with its optional path.
    Edit {
        /// The explicit path argument, if one was given.
        path: Option<Seq<char>>,
    },
    /// `w`, with its optional path.
    Write {
        /// The explicit path argument, if one was given.
        path: Option<Seq<char>>,
    },
    /// `a`.
    Append,
    /// `i`.
    Insert,
    /// `c`.
    Change,
    /// `d`.
    Delete,
}

impl View for CommandToken {
    type V = CommandKindView;

    open spec fn view(&self) -> CommandKindView {
        match self {
            CommandToken::PrintAndSet => CommandKindView::PrintAndSet,
            CommandToken::Print => CommandKindView::Print,
            CommandToken::Edit(p) => CommandKindView::Edit {
                path: match p {
                    Some(v) => Some(v@),
                    None => None,
                },
            },
            CommandToken::Write(p) => CommandKindView::Write {
                path: match p {
                    Some(v) => Some(v@),
                    None => None,
                },
            },
            CommandToken::Append => CommandKindView::Append,
            CommandToken::Insert => CommandKindView::Insert,
            CommandToken::Change => CommandKindView::Change,
            CommandToken::Delete => CommandKindView::Delete,
        }
    }
}

/// A whole parsed command: an optional address and a verb.
#[derive(Debug, PartialEq, Eq)]
pub struct Command {
    /// The address expression, when one was written.
    pub address: Option<Address>,
    /// The verb, with its argument where one was given.
    pub kind: CommandToken,
}

/// The mathematical shape of a [`Command`].
pub struct CommandView {
    /// The address expression, when one was written.
    pub address: Option<Address>,
    /// The verb, with its argument where one was given.
    pub kind: CommandKindView,
}

impl View for Command {
    type V = CommandView;

    open spec fn view(&self) -> CommandView {
        CommandView { address: self.address, kind: self.kind@ }
    }
}

/// Whether `c` separates a verb from its path argument: the whitespace
/// characters, stated in full as Unicode's White_Space set.
pub open spec fn is_separator(c: char) -> bool {
    ||| c == '\t'
    ||| c == '\n'
    ||| c == '\u{000B}'
    ||| c == '\u{000C}'
    ||| c == '\r'
    ||| c == ' '
    ||| c == '\u{0085}'
    ||| c == '\u{00A0}'
    ||| c == '\u{1680}'
    ||| c == '\u{2000}'
    ||| c == '\u{2001}'
    ||| c == '\u{2002}'
    ||| c == '\u{2003}'
    ||| c == '\u{2004}'
    ||| c == '\u{2005}'
    ||| c == '\u{2006}'
    ||| c == '\u{2007}'
    ||| c == '\u{2008}'
    ||| c == '\u{2009}'
    ||| c == '\u{200A}'
    ||| c == '\u{2028}'
    ||| c == '\u{2029}'
    ||| c == '\u{202F}'
    ||| c == '\u{205F}'
    ||| c == '\u{3000}'
}

/// Whether `c` separates a verb from its path argument, decided at run
/// time.
pub fn is_separator_char(c: char) -> (b: bool)
    ensures
        b == is_separator(c),
{
    c == '\t' || c == '\n' || c == '\u{000B}' || c == '\u{000C}' || c == '\r' || c == ' ' || c
        == '\u{0085}' || c == '\u{00A0}' || c == '\u{1680}' || c == '\u{2000}' || c == '\u{2001}'
        || c == '\u{2002}' || c == '\u{2003}' || c == '\u{2004}' || c == '\u{2005}' || c
        == '\u{2006}' || c == '\u{2007}' || c == '\u{2008}' || c == '\u{2009}' || c == '\u{200A}'
        || c == '\u{2028}' || c == '\u{2029}' || c == '\u{202F}' || c == '\u{205F}' || c
        == '\u{3000}'
}

/// What parsing a path argument from the front of `s` yields, together
/// with the number of characters consumed.
///
/// An empty `s` is a missing argument, which the path-taking verbs accept;
/// otherwise exactly one separator character must come first and the rest
/// of the line, which must not be empty, is the path, verbatim.
pub open spec fn spec_parse_path(s: Seq<char>) -> (Result<Option<Seq<char>>, EdError>, int) {
    if s.len() == 0 {
        (Ok(None), 0)
    } else if !is_separator(s[0]) {
        (Err(EdError::ExpectedSeparator), 1)
    } else if s.len() == 1 {
        (Err(EdError::MissingCommandArgument), 1)
    } else {
        (Ok(Some(s.skip(1))), s.len() as int)
    }
}

/// What parsing a verb (and its argument) from the front of `s` yields,
/// together with the number of characters consumed.
pub open spec fn spec_parse_cmd(s: Seq<char>) -> (Result<CommandKindView, EdError>, int) {
    if s.len() == 0 {
        (Ok(CommandKindView::PrintAndSet), 0)
    } else if s[0] == 'p' {
        (Ok(CommandKindView::Print), 1)
    } else if s[0] == 'a' {
        (Ok(CommandKindView::Append), 1)
    } else if s[0] == 'i' {
        (Ok(CommandKindView::Insert), 1)
    } else if s[0] == 'c' {
        (Ok(CommandKindView::Change), 1)
    } else if s[0] == 'd' {
        (Ok(CommandKindView::Delete), 1)
    } else if s[0] == 'e' || s[0] == 'w' {
        let (pr, n) = spec_parse_path(s.skip(1));
        match pr {
            Err(e) => (Err(e), 1 + n),
            Ok(p) => (
                Ok(
                    if s[0] == 'e' {
                        CommandKindView::Edit { path: p }
                    } else {
                        CommandKindView::Write { path: p }
                    },
                ),
                1 + n,
            ),
        }
    } else {
        (Err(EdError::UnknownCommand), 1)
    }
}

/// What parsing a whole command line yields: the address, the verb, and an
/// [`EdError::ExtraTrailingCharacters`] error when input is left over.
pub open spec fn spec_parse_command(s: Seq<char>) -> Result<CommandView, EdError> {
    let (ar, n) = spec_parse_address(s);
    match ar {
        Err(e) => Err(e),
        Ok(address) => {
            let (cr, m) = spec_parse_cmd(s.skip(n));
            match cr {
                Err(e) => Err(e),
                Ok(kind) => if n + m < s.len() {
                    Err(EdError::ExtraTrailingCharacters)
                } else {
                    Ok(CommandView { address, kind })
                },
            }
        },
    }
}

/// Reads the optional path argument of a path-taking verb: nothing, or
/// exactly one separator and then the non-empty rest of the line.
fn parse_path(stream: &mut InputStream) -> (r: Result<Option<Vec<char>>, EdError>)
    requires
        old(stream).wf(),
    ensures
        final(stream).wf(),
        final(stream).chars == old(stream).chars,
        ({
            let (sr, n) = spec_parse_path(old(stream).remaining());
            final(stream).pos == old(stream).pos + n && (match r {
                Ok(None) => sr == Ok::<Option<Seq<char>>, EdError>(None),
                Ok(Some(p)) => sr == Ok::<Option<Seq<char>>, EdError>(Some(p@)),
                Err(e) => sr == Err::<Option<Seq<char>>, EdError>(e),
            })
        }),
{
    let ghost rem = old(stream).remaining();
    let ghost pos0 = old(stream).pos as int;
    match stream.next() {
        None => Ok(None),
        Some(c) => {
            if is_separator_char(c) {
                match stream.next_with_index() {
                    None => Err(EdError::MissingCommandArgument),
                    Some((start, _)) => {
                        let path = stream.consume(start);
                        proof {
                            assert(path@ =~= rem.skip(1));
                            assert(stream.pos - pos0 == rem.len());
                        }
                        Ok(Some(path))
                    },
                }
            } else {
                Err(EdError::ExpectedSeparator)
            }
        },
    }
}

impl CommandToken {
    /// Reads the verb, and its path argument where the verb takes one,
    /// from the front of the stream.
    pub fn parse(stream: &mut InputStream) -> (r: Result<CommandToken, EdError>)
        requires
            old(stream).wf(),
        ensures
            final(stream).wf(),
            final(stream).chars == old(stream).chars,
            ({
                let (sr, n) = spec_parse_cmd(old(stream).remaining());
                final(stream).pos == old(stream).pos + n && (match r {
                    Ok(t) => sr == Ok::<CommandKindView, EdError>(t@),
                    Err(e) => sr == Err::<CommandKindView, EdError>(e),
                })
            }),
    {
        let ghost rem = old(stream).remaining();
        match stream.next() {
            None => Ok(CommandToken::PrintAndSet),
            Some(c) => {
                if c == 'p' {
                    Ok(CommandToken::Print)
                } else if c == 'a' {
                    Ok(CommandToken::Append)
                } else if c == 'i' {
                    Ok(CommandToken::Insert)
                } else if c == 'c' {
                    Ok(CommandToken::Change)
                } else if c == 'd' {
                    Ok(CommandToken::Delete)
                } else if c == 'e' || c == 'w' {
                    proof {
                        assert(stream.remaining() =~= rem.skip(1));
                    }
                    match parse_path(stream) {
                        Err(e) => Err(e),
                        Ok(p) => {
                            if c == 'e' {
                                Ok(CommandToken::Edit(p))
                            } else {
                                Ok(CommandToken::Write(p))
                            }
                        },
                    }
                } else {
                    Err(EdError::UnknownCommand)
                }
            },
        }
    }
}

impl Command {
    /// Parses one whole command line.
    ///
    /// Succeeds exactly when the line consists of an optional address
    /// expression, a known verb, a well-formed argument where the verb
    /// takes one, and nothing else.
    pub fn parse(input: &str) -> (r: Result<Command, EdError>)
        ensures
            match r {
                Ok(c) => spec_parse_command(input@) == Ok::<CommandView, EdError>(c@),
                Err(e) => spec_parse_command(input@) == Err::<CommandView, EdError>(e),
            },
    {
        let mut stream = InputStream::from_input(input);
        let address = match Address::parse(&mut stream) {
            Err(e) => {
                return Err(e);
            },
            Ok(a) => a,
        };
        let kind = match CommandToken::parse(&mut stream) {
            Err(e) => {
                return Err(e);
            },
            Ok(k) => k,
        };
        match stream.next() {
            None => Ok(Command { address, kind }),
            Some(_) => Err(EdError::ExtraTrailingCharacters),
        }
    }
}

} // verus!
