use vstd::prelude::*;
use crate::model::CommandOutput;

verus! {

/// The output stream of `brew` that a line came from.
#[derive(Clone, Copy, Debug, PartialEq, Eq, Structural)]
pub enum StreamKind {
    Stdout,
    Stderr,
}

impl StreamKind {
    /// `"stdout"` or `"stderr"`.
    pub fn name(&self) -> (r: String)
        ensures
            r@ == (if *self == StreamKind::Stdout {
                "stdout"@
            } else {
                "stderr"@
            }),
    {
        match self {
            StreamKind::Stdout => "stdout".to_owned(),
            StreamKind::Stderr => "stderr".to_owned(),
        }
    }
}

/// One line of output from a long-running `brew`, for the package it works on.
#[derive(Debug)]
pub struct ProgressEvent {
    pub package: String,
    pub line: String,
    pub stream: StreamKind,
}

pub struct EventView {
    pub package: Seq<char>,
    pub line: Seq<char>,
    pub stream: StreamKind,
}

impl View for ProgressEvent {
    type V = EventView;

    open spec fn view(&self) -> EventView {
        EventView { package: self.package@, line: self.line@, stream: self.stream }
    }
}

/// The exit code of a run, or -1 when it was ended by a signal.
pub open spec fn exit_code_of(code: Option<i32>) -> i32 {
    match code {
        Some(c) => c,
        None => -1i32,
    }
}

/// How a finished `brew` ended.
#[derive(Clone, Copy, Debug)]
pub struct ExitState {
    /// Whether the process exited with code 0.
    pub success: bool,
    /// The exit code, or `None` when a signal ended the process.
    pub code: Option<i32>,
}

/// Relays the lines of a running `brew` as progress events and keeps what each
/// stream printed.
#[derive(Debug)]
pub struct ProgressRelay {
    pub package: String,
    pub stdout: String,
    pub stderr: String,
}

pub struct RelayView {
    pub package: Seq<char>,
    pub stdout: Seq<char>,
    pub stderr: Seq<char>,
}

impl View for ProgressRelay {
    type V = RelayView;

    open spec fn view(&self) -> RelayView {
        RelayView { package: self.package@, stdout: self.stdout@, stderr: self.stderr@ }
    }
}

/// One line read: it is kept, with a newline, in its stream's text, and one event names it.
pub open spec fn relay_step(s: RelayView, k: StreamKind, line: Seq<char>) -> (RelayView, EventView) {
    let e = EventView { package: s.package, line, stream: k };
    if k == StreamKind::Stdout {
        (RelayView { stdout: s.stdout + line + "\n"@, ..s }, e)
    } else {
        (RelayView { stderr: s.stderr + line + "\n"@, ..s }, e)
    }
}

/// The relay after the lines `ls` of one stream were read in order, and the events sent.
pub open spec fn relay_lines(s: RelayView, k: StreamKind, ls: Seq<Seq<char>>) -> (
    RelayView,
    Seq<EventView>,
)
    decreases ls.len(),
{
    if ls.len() == 0 {
        (s, seq![])
    } else {
        let (s1, es) = relay_lines(s, k, ls.drop_last());
        let (s2, e) = relay_step(s1, k, ls.last());
        (s2, es.push(e))
    }
}

/// The lines `ls`, each followed by a newline.
pub open spec fn joined(ls: Seq<Seq<char>>) -> Seq<char>
    decreases ls.len(),
{
    if ls.len() == 0 {
        seq![]
    } else {
        joined(ls.drop_last()) + ls.last() + "\n"@
    }
}

/// Reading the lines of one stream sends exactly one event per line, in the order of
/// the lines, each naming the package and the stream; that stream's text grows by the
/// lines in that order, and the other stream's text stays as it was.
pub proof fn lemma_one_event_per_line(s: RelayView, k: StreamKind, ls: Seq<Seq<char>>)
    ensures
        relay_lines(s, k, ls).1.len() == ls.len(),
        forall|i: int|
            0 <= i < ls.len() ==> #[trigger] relay_lines(s, k, ls).1[i] == (EventView {
                package: s.package,
                line: ls[i],
                stream: k,
            }),
        relay_lines(s, k, ls).0.package == s.package,
        k == StreamKind::Stdout ==> relay_lines(s, k, ls).0.stdout == s.stdout + joined(ls)
            && relay_lines(s, k, ls).0.stderr == s.stderr,
        k == StreamKind::Stderr ==> relay_lines(s, k, ls).0.stderr == s.stderr + joined(ls)
            && relay_lines(s, k, ls).0.stdout == s.stdout,
    decreases ls.len(),
{
    if ls.len() == 0 {
        assert(s.stdout + joined(ls) =~= s.stdout);
        assert(s.stderr + joined(ls) =~= s.stderr);
    } else {
        lemma_one_event_per_line(s, k, ls.drop_last());
        let (s1, es) = relay_lines(s, k, ls.drop_last());
        assert(s.stdout + joined(ls.drop_last()) + ls.last() + "\n"@ =~= s.stdout + joined(ls));
        assert(s.stderr + joined(ls.drop_last()) + ls.last() + "\n"@ =~= s.stderr + joined(ls));
        assert forall|i: int| 0 <= i < ls.len() implies #[trigger] relay_lines(s, k, ls).1[i]
            == (EventView { package: s.package, line: ls[i], stream: k }) by {
            if i < ls.len() - 1 {
                assert(relay_lines(s, k, ls).1[i] == es[i]);
                assert(ls.drop_last()[i] == ls[i]);
            }
        }
    }
}

/// The error when `brew` could not be started for a streamed run.
pub fn spawn_failed(e: String) -> (r: String)
    ensures
        r@ == "Failed to spawn brew command: "@ + e@,
{
    "Failed to spawn brew command: ".to_owned().concat(e.as_str())
}

impl ProgressRelay {
    /// A relay for `package` that has read nothing yet.
    pub fn new(package: String) -> (r: ProgressRelay)
        ensures
            r@ == (RelayView { package: package@, stdout: seq![], stderr: seq![] }),
    {
        ProgressRelay { package, stdout: String::new(), stderr: String::new() }
    }

    /// Takes in one line of `stream` and gives the event to send for it.
    pub fn on_line(&mut self, stream: StreamKind, line: String) -> (e: ProgressEvent)
        ensures
            (final(self)@, e@) == relay_step(old(self)@, stream, line@),
    {
        match stream {
            StreamKind::Stdout => {
                self.stdout.append(line.as_str());
                self.stdout.append("\n");
            },
            StreamKind::Stderr => {
                self.stderr.append(line.as_str());
                self.stderr.append("\n");
            },
        }
        ProgressEvent { package: self.package.clone(), line, stream }
    }

    /// The outcome of the run once `brew` has been waited for: what both streams printed
    /// and how it ended, or the error of the wait.
    pub fn finish(self, waited: Result<ExitState, String>) -> (r: Result<CommandOutput, String>)
        ensures
            waited is Err ==> r is Err && r.unwrap_err()@ == "Failed to wait for command: "@
                + waited.unwrap_err()@,
            waited is Ok ==> r is Ok && r.unwrap().success == waited.unwrap().success
                && r.unwrap().stdout@ == self.stdout@ && r.unwrap().stderr@ == self.stderr@
                && r.unwrap().exit_code == exit_code_of(waited.unwrap().code),
    {
        match waited {
            Err(e) => Err("Failed to wait for command: ".to_owned().concat(e.as_str())),
            Ok(st) => Ok(
                CommandOutput {
                    success: st.success,
                    stdout: self.stdout,
                    stderr: self.stderr,
                    exit_code: match st.code {
                        Some(c) => c,
                        None => -1,
                    },
                },
            ),
        }
    }
}

} // verus!
