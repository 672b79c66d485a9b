//! What a bounded run of a process ends in: the collected output on
//! success, and the two failure kinds — a spawn failure and a timeout.

use vstd::prelude::*;
use vstd::string::StringExecFns;

verus! {

/// The exit status of a finished process, held as plain values: the
/// numeric exit code, where the operating system reported one.
pub struct ExitInfo {
    /// The exit code, or `None` where the process was ended by a signal
    /// and reported no code.
    pub code: Option<i32>,
}

impl ExitInfo {
    /// Whether the process ended successfully: it reported exit code zero.
    pub open spec fn spec_success(&self) -> bool {
        self.code == Some(0i32)
    }

    /// Returns whether the process ended successfully.
    pub fn success(&self) -> (r: bool)
        ensures
            r == self.spec_success(),
    {
        match self.code {
            Some(c) => c == 0,
            None => false,
        }
    }
}

/// Everything collected from a process that exited in time: its status and
/// the bytes read from its two output streams.
pub struct CommandOutput {
    /// The exit status the process reported.
    pub status: ExitInfo,
    /// The bytes captured from the standard output stream.
    pub stdout: Vec<u8>,
    /// The bytes captured from the standard error stream.
    pub stderr: Vec<u8>,
}

/// How a bounded run fails: the program could not be started at all, or it
/// outlived its deadline and was killed.
pub enum CommandError {
    /// The program could not be started; carries the launcher's own
    /// description of the failure, unmodified.
    Spawn { message: String },
    /// The deadline passed before the process exited; carries a message
    /// naming the command that was killed.
    Timeout { message: String },
}

impl CommandError {
    /// Whether this failure is the timeout kind.
    pub open spec fn spec_is_timeout(&self) -> bool {
        self is Timeout
    }

    /// Returns whether this failure is the timeout kind.
    pub fn is_timeout(&self) -> (r: bool)
        ensures
            r == self.spec_is_timeout(),
    {
        match self {
            CommandError::Timeout { .. } => true,
            CommandError::Spawn { .. } => false,
        }
    }

    /// The human-readable description carried by the failure.
    pub open spec fn spec_message(&self) -> Seq<char> {
        match self {
            CommandError::Spawn { message } => message@,
            CommandError::Timeout { message } => message@,
        }
    }

    /// Returns the description carried by the failure.
    pub fn message(&self) -> (m: &str)
        ensures
            m@ == self.spec_message(),
    {
        match self {
            CommandError::Spawn { message } => message.as_str(),
            CommandError::Timeout { message } => message.as_str(),
        }
    }
}

/// Packages the exit status and the captured stream bytes of a finished
/// process, exactly as given: nothing is added, dropped or reordered.
pub fn assemble_output(status: ExitInfo, stdout: Vec<u8>, stderr: Vec<u8>) -> (o: CommandOutput)
    ensures
        o.status == status,
        o.stdout == stdout,
        o.stderr == stderr,
{
    CommandOutput { status, stdout, stderr }
}

/// Wraps the launcher's description of a failure to start the program as
/// the spawn failure kind, keeping the description unmodified.
pub fn spawn_error(message: String) -> (e: CommandError)
    ensures
        e is Spawn,
        e.spec_message() == message@,
        !e.spec_is_timeout(),
{
    CommandError::Spawn { message }
}

/// The characters of `parts` joined in order, with a single space between
/// adjacent parts and nothing at either end.
pub open spec fn spec_join_spaced(parts: Seq<Seq<char>>) -> Seq<char>
    decreases parts.len(),
{
    if parts.len() == 0 {
        Seq::empty()
    } else if parts.len() == 1 {
        parts[0]
    } else {
        spec_join_spaced(parts.drop_last()) + seq![' '] + parts.last()
    }
}

/// Joins the given strings with a single space between adjacent ones.
pub fn join_spaced(parts: &Vec<String>) -> (r: String)
    ensures
        r@ == spec_join_spaced(parts.deep_view()),
{
    let ghost dv = parts.deep_view();
    let mut r = String::new();
    let mut i: usize = 0;
    proof {
        assert(dv.take(0) =~= Seq::<Seq<char>>::empty());
    }
    while i < parts.len()
        invariant
            i <= parts.len(),
            dv == parts.deep_view(),
            r@ == spec_join_spaced(dv.take(i as int)),
        decreases parts.len() - i,
    {
        if i > 0 {
            r.append(" ");
            proof {
                reveal_strlit(" ");
                assert(" "@ =~= seq![' ']);
            }
        }
        r.append(parts[i].as_str());
        proof {
            assert(dv.take(i + 1).drop_last() =~= dv.take(i as int));
            assert(dv.take(i + 1).last() == dv[i as int]);
            assert(r@ =~= spec_join_spaced(dv.take(i + 1)));
        }
        i = i + 1;
    }
    proof {
        assert(dv.take(parts.len() as int) =~= dv);
    }
    r
}

/// What a timeout report says: a fixed prefix, the program, a space, and
/// the arguments joined with spaces.
pub open spec fn spec_timeout_message(program: Seq<char>, args: Seq<Seq<char>>) -> Seq<char> {
    "Command timed out: "@ + program + seq![' '] + spec_join_spaced(args)
}

/// Builds the timeout failure for the given command line: the timeout
/// kind, carrying a message that names the program and its arguments.
pub fn timeout_error(program: &str, args: &Vec<String>) -> (e: CommandError)
    ensures
        e is Timeout,
        e.spec_message() == spec_timeout_message(program@, args.deep_view()),
{
    let mut m = String::from_str("Command timed out: ");
    m.append(program);
    m.append(" ");
    let joined = join_spaced(args);
    m.append(joined.as_str());
    proof {
        reveal_strlit(" ");
        assert(" "@ =~= seq![' ']);
        assert(m@ =~= spec_timeout_message(program@, args.deep_view()));
    }
    CommandError::Timeout { message: m }
}

/// A failure to start the program is reported as the spawn kind, never as
/// a timeout: the two failure kinds are distinct, whatever description the
/// launcher gave.
pub proof fn lemma_spawn_failure_is_not_timeout(message: String)
    ensures
        !((CommandError::Spawn { message }) is Timeout),
{
}

} // verus!
