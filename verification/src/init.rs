//! The plugin list: one plugin per line, `name: command`.
//!
//! Whitespace around the name and around the command does not count. A line
//! that is blank, or whose first character after the whitespace is `#`, holds
//! no plugin. Anything else must have a colon with a name before it and a
//! command behind it.

use crate::plugin::{Plugin, PluginState};
use crate::text::{chars_of, decimal, find, find_char, render_decimal, trim, trim_bounds};
use vstd::prelude::*;
use vstd::string::StringExecFns;

verus! {

/// What is wrong with a line of the plugin list.
#[derive(Clone, Copy, PartialEq, Eq, Debug)]
pub enum SyntaxErrorKind {
    NoColon,
    NoName,
    NoCommand,
}

impl SyntaxErrorKind {
    /// The words for this kind of error.
    pub open spec fn text(self) -> Seq<char> {
        match self {
            SyntaxErrorKind::NoColon => "No colon delimiter found"@,
            SyntaxErrorKind::NoName => "Plugin has no name"@,
            SyntaxErrorKind::NoCommand => "Plugin has no command"@,
        }
    }

    /// Says in words what is wrong.
    pub fn as_str(&self) -> (s: &'static str)
        ensures
            s@ == self.text(),
    {
        match self {
            SyntaxErrorKind::NoColon => "No colon delimiter found",
            SyntaxErrorKind::NoName => "Plugin has no name",
            SyntaxErrorKind::NoCommand => "Plugin has no command",
        }
    }

    /// Says in words what is wrong.
    pub fn to_string(&self) -> (s: String)
        ensures
            s@ == self.text(),
    {
        self.as_str().to_owned()
    }
}

/// A line of the plugin list that could not be read, and why.
#[derive(PartialEq, Eq, Debug)]
pub struct SyntaxError {
    pub kind: SyntaxErrorKind,
    pub line_no: u32,
}

impl SyntaxError {
    /// The words for this error: what is wrong, and on which line.
    pub open spec fn text(self) -> Seq<char> {
        self.kind.text() + " on line "@ + decimal(self.line_no as nat)
    }

    /// Says in words what is wrong and where.
    pub fn to_string(&self) -> (s: String)
        ensures
            s@ == self.text(),
    {
        let mut s: String = self.kind.to_string();
        s.append(" on line ");
        let number: String = render_decimal(self.line_no);
        s.append(number.as_str());
        s
    }
}

/// Why a plugin list could not be read: the file could not be had (the
/// error holds what the operating system said of it), or a line of it is
/// wrong.
#[derive(Debug)]
pub enum ReadError {
    IoError(String),
    SyntaxError(SyntaxError),
}

impl ReadError {
    /// The words for this error.
    pub open spec fn text(self) -> Seq<char> {
        match self {
            ReadError::IoError(err) => "I/O Error: "@ + err@,
            ReadError::SyntaxError(err) => "Syntax Error: "@ + err.text(),
        }
    }

    /// Says in words why the list could not be read.
    pub fn to_string(&self) -> (s: String)
        ensures
            s@ == self.text(),
    {
        match self {
            ReadError::IoError(err) => {
                let mut s: String = "I/O Error: ".to_owned();
                s.append(err.as_str());
                s
            },
            ReadError::SyntaxError(err) => {
                let mut s: String = "Syntax Error: ".to_owned();
                let inner: String = err.to_string();
                s.append(inner.as_str());
                s
            },
        }
    }
}

impl From<SyntaxError> for ReadError {
    /// A mistake in the list, as the reason why it could not be read.
    fn from(err: SyntaxError) -> (r: ReadError) {
        ReadError::SyntaxError(err)
    }
}

impl vstd::std_specs::convert::FromSpecImpl<SyntaxError> for ReadError {
    open spec fn obeys_from_spec() -> bool {
        true
    }

    open spec fn from_spec(err: SyntaxError) -> ReadError {
        ReadError::SyntaxError(err)
    }
}

/// Whether a line, taken without the whitespace around it, is a comment.
pub open spec fn is_comment(ln: Seq<char>) -> bool {
    ln.len() > 0 && ln[0] == '#'
}

/// The plugin that a line names, as name and command, or what is wrong with
/// the line. `ln` is the line without the whitespace around it. The name is
/// what stands before the first colon, the command what stands behind it,
/// each without the whitespace around it; neither may be empty.
pub open spec fn entry(ln: Seq<char>) -> Result<(Seq<char>, Seq<char>), SyntaxErrorKind> {
    match find(ln, ':') {
        None => Err(SyntaxErrorKind::NoColon),
        Some(i) => {
            let name = trim(ln.subrange(0, i));
            let cmd = trim(ln.subrange(i + 1, ln.len() as int));
            if name.len() == 0 {
                Err(SyntaxErrorKind::NoName)
            } else if cmd.len() == 0 {
                Err(SyntaxErrorKind::NoCommand)
            } else {
                Ok((name, cmd))
            }
        },
    }
}

/// What a line of the plugin list holds.
pub enum ScannedView {
    Blank,
    Comment,
    Entry(Seq<char>, Seq<char>),
    Bad(SyntaxErrorKind),
}

/// What a line of the plugin list holds: nothing, a comment, a plugin, or a
/// mistake.
pub open spec fn scanned(line: Seq<char>) -> ScannedView {
    let ln = trim(line);
    if ln.len() == 0 {
        ScannedView::Blank
    } else if is_comment(ln) {
        ScannedView::Comment
    } else {
        match entry(ln) {
            Ok((name, cmd)) => ScannedView::Entry(name, cmd),
            Err(kind) => ScannedView::Bad(kind),
        }
    }
}

/// What the strict reader makes of a line: no plugin for a blank line or a
/// comment, the plugin's name and command, or the kind of mistake.
pub open spec fn parsed(line: Seq<char>) -> Result<
    Option<(Seq<char>, Seq<char>)>,
    SyntaxErrorKind,
> {
    match scanned(line) {
        ScannedView::Blank => Ok(None),
        ScannedView::Comment => Ok(None),
        ScannedView::Entry(name, cmd) => Ok(Some((name, cmd))),
        ScannedView::Bad(kind) => Err(kind),
    }
}

/// A line of the plugin list, taken apart. The name and the command are
/// parts of the line itself.
pub enum Scanned<'a> {
    Blank,
    Comment,
    Entry(&'a str, &'a str),
    Bad(SyntaxErrorKind),
}

impl<'a> View for Scanned<'a> {
    type V = ScannedView;

    open spec fn view(&self) -> ScannedView {
        match self {
            Scanned::Blank => ScannedView::Blank,
            Scanned::Comment => ScannedView::Comment,
            Scanned::Entry(name, cmd) => ScannedView::Entry(name@, cmd@),
            Scanned::Bad(kind) => ScannedView::Bad(*kind),
        }
    }
}

/// Takes a line of the plugin list apart.
pub fn scan_line<'a>(line: &'a str) -> (r: Scanned<'a>)
    ensures
        r@ == scanned(line@),
{
    let v: Vec<char> = chars_of(line);
    let (lo, hi) = trim_bounds(&v, 0, v.len());
    let ghost ln = v@.subrange(lo as int, hi as int);
    proof {
        assert(v@.subrange(0, v@.len() as int) =~= v@);
        assert(ln == trim(line@));
    }
    if lo == hi {
        return Scanned::Blank;
    }
    assert(ln[0] == v@[lo as int]);
    if v[lo] == '#' {
        return Scanned::Comment;
    }
    match find_char(&v, lo, hi, ':') {
        None => Scanned::Bad(SyntaxErrorKind::NoColon),
        Some(colon) => {
            let (name_lo, name_hi) = trim_bounds(&v, lo, colon);
            let (cmd_lo, cmd_hi) = trim_bounds(&v, colon + 1, hi);
            proof {
                assert(ln.subrange(0, colon - lo) =~= v@.subrange(lo as int, colon as int));
                assert(ln.subrange(colon - lo + 1, ln.len() as int) =~= v@.subrange(
                    colon + 1,
                    hi as int,
                ));
            }
            if name_lo == name_hi {
                Scanned::Bad(SyntaxErrorKind::NoName)
            } else if cmd_lo == cmd_hi {
                Scanned::Bad(SyntaxErrorKind::NoCommand)
            } else {
                Scanned::Entry(
                    line.substring_char(name_lo, name_hi),
                    line.substring_char(cmd_lo, cmd_hi),
                )
            }
        },
    }
}

/// Reads line `line_no` of a plugin list.
///
/// Returns the plugin that the line names, not yet started; `None` for a
/// blank line or a comment; or the error, with `line_no` in it.
pub fn parse_line(line_no: u32, line: &str) -> (r: Result<Option<Plugin>, SyntaxError>)
    ensures
        match r {
            Ok(Some(plugin)) => parsed(line@) matches Ok(Some((name, cmd))) && plugin@
                == PluginState::fresh(name, cmd),
            Ok(None) => parsed(line@) == Ok::<
                Option<(Seq<char>, Seq<char>)>,
                SyntaxErrorKind,
            >(None),
            Err(e) => parsed(line@) == Err::<Option<(Seq<char>, Seq<char>)>, SyntaxErrorKind>(
                e.kind,
            ) && e.line_no == line_no,
        },
{
    match scan_line(line) {
        Scanned::Blank => Ok(None),
        Scanned::Comment => Ok(None),
        Scanned::Entry(name, cmd) => Ok(Some(Plugin::new(name, cmd))),
        Scanned::Bad(kind) => Err(SyntaxError { kind, line_no }),
    }
}

/// The number of the line at position `i`, counted from 1. The numbers end
/// at 4294967295: that line and every later one bear it.
pub open spec fn line_number(i: int) -> u32 {
    if i < u32::MAX {
        (i + 1) as u32
    } else {
        u32::MAX
    }
}

/// Whether line `i` of `lines` is the first one with a mistake.
pub open spec fn first_error(lines: Seq<String>, i: int) -> bool {
    &&& 0 <= i < lines.len()
    &&& parsed(lines[i]@) is Err
    &&& forall|j: int| 0 <= j < i ==> parsed(#[trigger] lines[j]@) is Ok
}

/// The plugins that the first `n` lines name, as pairs of name and command,
/// in the order of the lines. Lines without a plugin add nothing.
pub open spec fn entries(lines: Seq<String>) -> Seq<(Seq<char>, Seq<char>)>
    decreases lines.len(),
{
    if lines.len() == 0 {
        Seq::empty()
    } else {
        let before = entries(lines.drop_last());
        match parsed(lines.last()@) {
            Ok(Some(e)) => before.push(e),
            _ => before,
        }
    }
}

/// Reads a plugin list, one line per item of `lines`.
///
/// Returns the plugins in the order of their lines, none of them started. The
/// first line with a mistake ends the reading: the error holds its kind and
/// its number.
pub fn read_init(lines: &Vec<String>) -> (r: Result<Vec<Plugin>, ReadError>)
    ensures
        match r {
            Ok(plugins) => {
                &&& forall|i: int| 0 <= i < lines@.len() ==> parsed(#[trigger] lines@[i]@) is Ok
                &&& plugins@.len() == entries(lines@).len()
                &&& forall|i: int|
                    0 <= i < plugins@.len() ==> (#[trigger] plugins@[i])@ == PluginState::fresh(
                        entries(lines@)[i].0,
                        entries(lines@)[i].1,
                    )
            },
            Err(ReadError::SyntaxError(e)) => exists|i: int|
                first_error(lines@, i) && e.line_no == line_number(i) && parsed(lines@[i]@)
                    == Err::<Option<(Seq<char>, Seq<char>)>, SyntaxErrorKind>(e.kind),
            Err(ReadError::IoError(_)) => false,
        },
{
    let mut plugins: Vec<Plugin> = Vec::new();
    let mut line_no: u32 = 0;
    let mut i: usize = 0;
    while i < lines.len()
        invariant
            i <= lines@.len(),
            line_no == if i == 0 {
                0
            } else {
                line_number(i - 1)
            },
            forall|j: int| 0 <= j < i ==> parsed(#[trigger] lines@[j]@) is Ok,
            plugins@.len() == entries(lines@.take(i as int)).len(),
            forall|k: int|
                0 <= k < plugins@.len() ==> (#[trigger] plugins@[k])@ == PluginState::fresh(
                    entries(lines@.take(i as int))[k].0,
                    entries(lines@.take(i as int))[k].1,
                ),
        decreases lines@.len() - i,
    {
        proof {
            assert(lines@.take(i + 1).drop_last() =~= lines@.take(i as int));
            assert(lines@.take(i + 1).last() == lines@[i as int]);
        }
        if line_no < u32::MAX {
            line_no += 1;
        }
        match parse_line(line_no, lines[i].as_str()) {
            Ok(Some(plugin)) => {
                plugins.push(plugin);
            },
            Ok(None) => {},
            Err(e) => {
                assert(first_error(lines@, i as int) && e.line_no == line_number(i as int));
                return Err(ReadError::from(e));
            },
        }
        i += 1;
    }
    assert(lines@.take(i as int) =~= lines@);
    Ok(plugins)
}

} // verus!
