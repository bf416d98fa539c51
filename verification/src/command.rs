//! Commands as data: what to run on a host, and what came of running it.
use crate::text::concat3;
use vstd::prelude::*;

verus! {

/// One argument of a remote command. The remote side is a shell, so an
/// argument is either passed so that the shell sees it as one literal word,
/// or handed to the shell as written.
#[derive(Debug, Clone, PartialEq, Eq)]
pub enum Arg {
    /// Quoted for the remote shell before it is sent.
    Escaped(String),
    /// Sent as written; the remote shell interprets it.
    Raw(String),
}

/// The view of [`Arg`] that contracts speak of: every text as its sequence
/// of characters.
pub enum ArgView {
    Escaped(Seq<char>),
    Raw(Seq<char>),
}

impl View for Arg {
    type V = ArgView;

    open spec fn view(&self) -> ArgView {
        match self {
            Arg::Escaped(text) => ArgView::Escaped(text@),
            Arg::Raw(text) => ArgView::Raw(text@),
        }
    }
}

impl ArgView {
    /// The argument's text, however it is passed.
    pub open spec fn text(self) -> Seq<char> {
        match self {
            ArgView::Escaped(text) => text,
            ArgView::Raw(text) => text,
        }
    }
}

impl Arg {
    /// The argument's text, however it is passed.
    pub fn text(&self) -> (text: &str)
        ensures
            text@ == self@.text(),
    {
        match self {
            Arg::Escaped(text) => text.as_str(),
            Arg::Raw(text) => text.as_str(),
        }
    }
}

/// Where the standard input of a command comes from.
#[derive(Debug, Clone, Copy, PartialEq, Eq, Structural)]
pub enum Source {
    /// The input of the deploying process.
    Inherit,
    /// Nothing.
    Null,
}

/// Where an output stream of a command goes.
#[derive(Debug, Clone, Copy, PartialEq, Eq, Structural)]
pub enum Sink {
    /// To the same stream of the deploying process.
    Inherit,
    /// Nowhere.
    Null,
    /// Line by line into the subprocess log.
    Log,
    /// Collected and handed back when the command has exited.
    Capture,
}

/// A command to run on the destination host.
#[derive(Debug, Clone, PartialEq, Eq)]
pub struct RemoteCommand {
    pub program: String,
    pub args: Vec<Arg>,
    pub stdin: Source,
    pub stdout: Sink,
    pub stderr: Sink,
}

/// The view of [`RemoteCommand`] that contracts speak of: every text as its sequence
/// of characters.
pub struct RemoteCommandView {
    pub program: Seq<char>,
    pub args: Seq<ArgView>,
    pub stdin: Source,
    pub stdout: Sink,
    pub stderr: Sink,
}

impl View for RemoteCommand {
    type V = RemoteCommandView;

    open spec fn view(&self) -> RemoteCommandView {
        RemoteCommandView {
            program: self.program@,
            args: self.args@.map_values(|arg: Arg| arg@),
            stdin: self.stdin,
            stdout: self.stdout,
            stderr: self.stderr,
        }
    }
}

/// Each text as an escaped argument.
pub open spec fn escaped_all(texts: Seq<String>) -> Seq<ArgView> {
    texts.map_values(|text: String| ArgView::Escaped(text@))
}

impl RemoteCommandView {
    /// A command without arguments whose streams are inherited.
    pub open spec fn new(program: Seq<char>) -> RemoteCommandView {
        RemoteCommandView {
            program,
            args: Seq::empty(),
            stdin: Source::Inherit,
            stdout: Sink::Inherit,
            stderr: Sink::Inherit,
        }
    }

    /// A command whose output and errors both go to the subprocess log.
    pub open spec fn logged(program: Seq<char>, args: Seq<ArgView>) -> RemoteCommandView {
        RemoteCommandView {
            program,
            args,
            stdin: Source::Inherit,
            stdout: Sink::Log,
            stderr: Sink::Log,
        }
    }

    /// The program and the text of each argument, separated by single spaces.
    pub open spec fn line(self) -> Seq<char> {
        self.args.fold_left(self.program, |line: Seq<char>, arg: ArgView| line + seq![' '] + arg.text())
    }
}

impl RemoteCommand {
    /// A command without arguments whose streams are inherited.
    pub fn new(program: &str) -> (command: RemoteCommand)
        ensures
            command@ == RemoteCommandView::new(program@),
    {
        let command = RemoteCommand {
            program: program.to_owned(),
            args: Vec::new(),
            stdin: Source::Inherit,
            stdout: Sink::Inherit,
            stderr: Sink::Inherit,
        };
        assert(command@.args =~= Seq::empty());
        command
    }

    /// Adds an argument that reaches the remote program as one literal word.
    pub fn arg(self, text: &str) -> (command: RemoteCommand)
        ensures
            command@ == (RemoteCommandView { args: self@.args.push(ArgView::Escaped(text@)), ..self@ }),
    {
        let mut command = self;
        command.args.push(Arg::Escaped(text.to_owned()));
        assert(command@.args =~= self@.args.push(ArgView::Escaped(text@)));
        command
    }

    /// Adds an argument that the remote shell interprets.
    pub fn raw_arg(self, text: &str) -> (command: RemoteCommand)
        ensures
            command@ == (RemoteCommandView { args: self@.args.push(ArgView::Raw(text@)), ..self@ }),
    {
        let mut command = self;
        command.args.push(Arg::Raw(text.to_owned()));
        assert(command@.args =~= self@.args.push(ArgView::Raw(text@)));
        command
    }

    /// Adds each text as an escaped argument, in order.
    pub fn args(self, texts: &Vec<String>) -> (command: RemoteCommand)
        ensures
            command@ == (RemoteCommandView { args: self@.args + escaped_all(texts@), ..self@ }),
    {
        let mut command = self;
        let mut i: usize = 0;
        while i < texts.len()
            invariant
                i <= texts.len(),
                command@ == (RemoteCommandView {
                    args: self@.args + escaped_all(texts@.take(i as int)),
                    ..self@
                }),
            decreases texts.len() - i,
        {
            let ghost before = command@;
            command = command.arg(texts[i].as_str());
            assert(command@.args =~= self@.args + escaped_all(texts@.take(i + 1)));
            i = i + 1;
        }
        assert(texts@.take(i as int) =~= texts@);
        command
    }

    /// Sets where the command's input comes from.
    pub fn stdin(self, source: Source) -> (command: RemoteCommand)
        ensures
            command@ == (RemoteCommandView { stdin: source, ..self@ }),
    {
        let mut command = self;
        command.stdin = source;
        command
    }

    /// Sets where the command's output goes.
    pub fn stdout(self, sink: Sink) -> (command: RemoteCommand)
        ensures
            command@ == (RemoteCommandView { stdout: sink, ..self@ }),
    {
        let mut command = self;
        command.stdout = sink;
        command
    }

    /// Sets where the command's errors go.
    pub fn stderr(self, sink: Sink) -> (command: RemoteCommand)
        ensures
            command@ == (RemoteCommandView { stderr: sink, ..self@ }),
    {
        let mut command = self;
        command.stderr = sink;
        command
    }

    /// The command as one line of text, for messages.
    pub fn line(&self) -> (line: String)
        ensures
            line@ == self@.line(),
    {
        let mut line = self.program.clone();
        let mut i: usize = 0;
        while i < self.args.len()
            invariant
                i <= self.args.len(),
                line@ == self@.args.take(i as int).fold_left(
                    self@.program,
                    |line: Seq<char>, arg: ArgView| line + seq![' '] + arg.text(),
                ),
            decreases self.args.len() - i,
        {
            proof {
                reveal_strlit(" ");
                assert(" "@ =~= seq![' ']);
                assert(self@.args.take(i + 1).drop_last() =~= self@.args.take(i as int));
            }
            line = concat3(line.as_str(), " ", self.args[i].text());
            i = i + 1;
        }
        assert(self@.args.take(i as int) =~= self@.args);
        line
    }
}

/// A command to run on the deploying machine itself. Its arguments reach
/// the program as they are: no shell reads them.
#[derive(Debug, Clone, PartialEq, Eq)]
pub struct LocalCommand {
    pub program: String,
    pub args: Vec<String>,
}

/// The view of [`LocalCommand`] that contracts speak of: every text as its sequence
/// of characters.
pub struct LocalCommandView {
    pub program: Seq<char>,
    pub args: Seq<Seq<char>>,
}

impl View for LocalCommand {
    type V = LocalCommandView;

    open spec fn view(&self) -> LocalCommandView {
        LocalCommandView {
            program: self.program@,
            args: self.args@.map_values(|text: String| text@),
        }
    }
}

/// What came of running a command on the deploying machine, with its
/// output and errors sent to the log.
#[derive(Debug, Clone, PartialEq, Eq)]
pub enum LocalOutcome {
    /// The command could not be started or waited for; holds the system's
    /// description.
    NotStarted(String),
    /// The command ran and exited.
    Exited {
        /// Whether it exited with status zero.
        success: bool,
    },
}

/// What came of running a command on the destination host.
#[derive(Debug, Clone, PartialEq, Eq)]
pub enum CommandOutcome {
    /// The session failed: the command could not be started, or was lost
    /// before it exited. Holds the transport's description.
    Lost(String),
    /// The command ran and exited.
    Exited {
        /// Whether it exited with status zero.
        success: bool,
        /// The exit status, described for messages.
        status: String,
        /// What the command wrote to its output, where that was captured.
        stdout: Vec<u8>,
    },
}

impl CommandOutcome {
    /// The command ran and exited with status zero.
    pub open spec fn succeeded(self) -> bool {
        self matches CommandOutcome::Exited { success, .. } && success
    }

    /// Whether the command ran and exited with status zero.
    pub fn is_success(&self) -> (yes: bool)
        ensures
            yes == self.succeeded(),
    {
        match self {
            CommandOutcome::Exited { success, .. } => *success,
            CommandOutcome::Lost(_) => false,
        }
    }
}

} // verus!
