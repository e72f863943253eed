//! Plugins: the external programs that the broker starts and stops.
//!
//! A `Plugin` keeps what the supervisor knows of one program: its name, its
//! command line, whether it runs, and which process is its own. The plugin
//! decides; the caller acts. `load` gives the shell command to start,
//! `spawned` records what came of starting it, `unload` gives the process
//! to send the termination signal to.

use crate::init::{entry, is_comment, scan_line, Scanned};
use crate::text::trim;
use vstd::prelude::*;
use vstd::string::StringExecFns;

verus! {

/// What a `Plugin` holds, as mathematical values.
pub struct PluginState {
    pub name: Seq<char>,
    pub cmd: Seq<char>,
    pub running: bool,
    pub process: Option<u32>,
}

impl PluginState {
    /// A plugin that has not been started.
    pub open spec fn fresh(name: Seq<char>, cmd: Seq<char>) -> PluginState {
        PluginState { name, cmd, running: false, process: None }
    }

    /// The command that the shell is given to start the plugin: the plugin's
    /// command line, a space, and the path of the broker's socket.
    pub open spec fn load(self, sock: Seq<char>) -> Seq<char> {
        self.cmd + seq![' '] + sock
    }

    /// The plugin after an attempt to start it: with process `pid` it runs and
    /// owns that process; after a failure it is as it was.
    pub open spec fn spawned(self, pid: Option<u32>) -> PluginState {
        match pid {
            Some(p) => PluginState { running: true, process: Some(p), ..self },
            None => self,
        }
    }

    /// The process that `unload` asks to be terminated: that of a plugin that
    /// runs.
    pub open spec fn unload_signal(self) -> Option<u32> {
        if self.running {
            self.process
        } else {
            None
        }
    }

    /// The plugin after `unload`: one that runs does so no longer and owns no
    /// process; one that does not run is as it was.
    pub open spec fn unload(self) -> PluginState {
        if self.running {
            PluginState { running: false, process: None, ..self }
        } else {
            self
        }
    }

    /// What `reload` asks for and leaves: the process to terminate, the
    /// command to start after that, and the plugin afterwards. The process is
    /// that of a plugin that runs; the command is the plugin's command line,
    /// a space and the socket path; and afterwards the plugin does not run
    /// and, if it ran, owns no process.
    pub open spec fn reload(self, sock: Seq<char>) -> (Option<u32>, Seq<char>, PluginState) {
        (
            if self.running {
                self.process
            } else {
                None
            },
            self.cmd + seq![' '] + sock,
            if self.running {
                PluginState { running: false, process: None, ..self }
            } else {
                self
            },
        )
    }

    /// A plugin runs exactly when it owns a process.
    pub open spec fn wf(self) -> bool {
        self.running <==> self.process is Some
    }
}

/// An external program under the broker's supervision.
#[derive(Debug)]
pub struct Plugin {
    pub name: String,
    pub cmd: String,
    pub running: bool,
    /// The id of the process that the plugin owns.
    pub procc: Option<u32>,
}

impl View for Plugin {
    type V = PluginState;

    /// The fields as they are, the strings by their characters.
    open spec fn view(&self) -> PluginState {
        PluginState { name: self.name@, cmd: self.cmd@, running: self.running, process: self.procc }
    }
}

impl Plugin {
    /// A plugin called `name` that `cmd` starts. It does not run yet.
    pub fn new(name: &str, cmd: &str) -> (p: Plugin)
        ensures
            p@ == PluginState::fresh(name@, cmd@),
    {
        Plugin { name: name.to_owned(), cmd: cmd.to_owned(), running: false, procc: None }
    }

    /// The id of the process that the plugin owns, if it owns one.
    pub fn process(&self) -> (r: Option<u32>)
        ensures
            r == self@.process,
    {
        self.procc
    }

    /// Begins to load the plugin: returns the command to run under `sh -c`,
    /// with the standard streams of the broker. The plugin itself changes
    /// only when `spawned` is told what came of it.
    pub fn load(&self, sock: &str) -> (command: String)
        ensures
            command@ == self@.load(sock@),
    {
        proof {
            reveal_strlit(" ");
            assert(" "@ =~= seq![' ']);
        }
        let mut command: String = self.cmd.clone();
        command.append(" ");
        command.append(sock);
        command
    }

    /// Ends a load: takes what came of starting the command that `load`
    /// gave, the id of the new process or the error. With a process the
    /// plugin runs and owns it; an error goes back to the caller and leaves
    /// the plugin as it was.
    pub fn spawned<E>(&mut self, outcome: Result<u32, E>) -> (r: Result<(), E>)
        ensures
            match outcome {
                Ok(pid) => r is Ok && final(self)@ == old(self)@.spawned(Some(pid)),
                Err(e) => r == Err::<(), E>(e) && final(self)@ == old(self)@.spawned(None),
            },
    {
        match outcome {
            Ok(pid) => {
                self.running = true;
                self.procc = Some(pid);
                Ok(())
            },
            Err(e) => Err(e),
        }
    }

    /// Unloads the plugin: returns the process to send the termination signal
    /// to. A plugin that does not run stays as it is and asks for nothing.
    pub fn unload(&mut self) -> (signal: Option<u32>)
        ensures
            signal == old(self)@.unload_signal(),
            final(self)@ == old(self)@.unload(),
    {
        if self.running {
            let signal: Option<u32> = self.procc;
            self.running = false;
            self.procc = None;
            signal
        } else {
            None
        }
    }

    /// Reloads the plugin: `unload`, then `load`. Returns the process to
    /// terminate, if there is one, and the command to start after that.
    pub fn reload(&mut self, sock: &str) -> (r: (Option<u32>, String))
        ensures
            (r.0, r.1@, final(self)@) == old(self)@.reload(sock@),
    {
        let signal = self.unload();
        let command = self.load(sock);
        (signal, command)
    }
}

/// Reload is unload followed by load: for every plugin and socket path,
/// `reload` asks for the signal that `unload` asks for, then for the command
/// that `load` gives to the plugin as `unload` left it, and leaves the
/// plugin as the two leave it. What `spawned` is told afterwards therefore
/// has the same effect on both.
pub proof fn lemma_reload_is_unload_then_load(p: PluginState, sock: Seq<char>, pid: Option<u32>)
    ensures
        p.reload(sock).0 == p.unload_signal(),
        p.reload(sock).1 == p.unload().load(sock),
        p.reload(sock).2 == p.unload(),
        p.reload(sock).2.spawned(pid) == p.unload().spawned(pid),
{
}

/// A second `unload` right after the first is a no-op: it asks for no
/// signal and leaves the plugin as it is.
pub proof fn lemma_unload_twice(p: PluginState)
    ensures
        p.unload().unload_signal() is None,
        p.unload().unload() == p.unload(),
{
}

/// A plugin that runs exactly when it owns a process stays so whatever is
/// done with it, and a new plugin is such a plugin.
pub proof fn lemma_wf(p: PluginState, sock: Seq<char>, pid: Option<u32>)
    ensures
        PluginState::fresh(p.name, p.cmd).wf(),
        p.wf() ==> p.spawned(pid).wf() && p.unload().wf() && p.reload(sock).2.wf(),
        p.wf() ==> !p.unload().running,
        pid is Some ==> p.spawned(pid).running,
{
}

/// One line of a plugin list, as the lenient reader sees it. A blank line
/// counts as a comment.
#[derive(Debug, PartialEq)]
pub enum Line<'a> {
    Comment,
    Plugin(&'a str, &'a str),
    SyntaxError(&'static str),
}

/// What a `Line` holds, as mathematical values.
pub enum LineView {
    Comment,
    Plugin(Seq<char>, Seq<char>),
    SyntaxError(Seq<char>),
}

impl<'a> View for Line<'a> {
    type V = LineView;

    open spec fn view(&self) -> LineView {
        match self {
            Line::Comment => LineView::Comment,
            Line::Plugin(name, cmd) => LineView::Plugin(name@, cmd@),
            Line::SyntaxError(msg) => LineView::SyntaxError(msg@),
        }
    }
}

/// What the lenient reader makes of a line: nothing to read, as of a
/// comment, where the line is blank or its first character that is no
/// whitespace is `#`; else what `entry` makes of the line without the
/// whitespace around it, with the error as its text.
pub open spec fn line_of(line: Seq<char>) -> LineView {
    let ln = trim(line);
    if ln.len() == 0 || is_comment(ln) {
        LineView::Comment
    } else {
        match entry(ln) {
            Ok((name, cmd)) => LineView::Plugin(name, cmd),
            Err(kind) => LineView::SyntaxError(kind.text()),
        }
    }
}

/// The plugins that the lenient reader finds in `lines`, as pairs of name and
/// command, in the order of the lines. A line that is no plugin adds nothing.
pub open spec fn plugins_of(lines: Seq<String>) -> Seq<(Seq<char>, Seq<char>)>
    decreases lines.len(),
{
    if lines.len() == 0 {
        Seq::empty()
    } else {
        let before = plugins_of(lines.drop_last());
        match line_of(lines.last()@) {
            LineView::Plugin(name, cmd) => before.push((name, cmd)),
            _ => before,
        }
    }
}

/// Reads one line of a plugin list.
pub fn parse_line<'a>(line: &'a str) -> (r: Line<'a>)
    ensures
        r@ == line_of(line@),
{
    match scan_line(line) {
        Scanned::Comment => Line::Comment,
        Scanned::Blank => Line::Comment,
        Scanned::Entry(name, cmd) => Line::Plugin(name, cmd),
        Scanned::Bad(kind) => Line::SyntaxError(kind.as_str()),
    }
}

/// Reads a plugin list, one line per item of `lines`, and skips every line
/// that is no plugin.
pub fn read_init(lines: &Vec<String>) -> (plugins: Vec<Plugin>)
    ensures
        plugins@.len() == plugins_of(lines@).len(),
        forall|i: int|
            0 <= i < plugins@.len() ==> (#[trigger] plugins@[i])@ == PluginState::fresh(
                plugins_of(lines@)[i].0,
                plugins_of(lines@)[i].1,
            ),
{
    let mut plugins: Vec<Plugin> = Vec::new();
    let mut i: usize = 0;
    while i < lines.len()
        invariant
            i <= lines@.len(),
            plugins@.len() == plugins_of(lines@.take(i as int)).len(),
            forall|k: int|
                0 <= k < plugins@.len() ==> (#[trigger] plugins@[k])@ == PluginState::fresh(
                    plugins_of(lines@.take(i as int))[k].0,
                    plugins_of(lines@.take(i as int))[k].1,
                ),
        decreases lines@.len() - i,
    {
        proof {
            assert(lines@.take(i + 1).drop_last() =~= lines@.take(i as int));
            assert(lines@.take(i + 1).last() == lines@[i as int]);
        }
        if let Line::Plugin(name, cmd) = parse_line(lines[i].as_str()) {
            plugins.push(Plugin::new(name, cmd));
        }
        i += 1;
    }
    assert(lines@.take(i as int) =~= lines@);
    plugins
}

} // verus!
