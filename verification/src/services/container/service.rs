//! The lifecycle controller over `docker compose`: for each verb the
//! command to run, and what the command's end means. Running the command
//! is left to the caller.

use vstd::prelude::*;
use vstd::string::StringExecFns;
use crate::services::container::{ContainerErrorView, ContainerServiceError};
use crate::services::project::{text_views, ProjectInfo};
use crate::text::{chars_of, owned, same_chars};

verus! {

/// A command for the caller to run: the program, its arguments, and the
/// working directory if one is called for.
#[derive(Debug, PartialEq, Eq)]
pub struct Invocation {
    pub program: String,
    pub args: Vec<String>,
    pub dir: Option<String>,
}

/// `Invocation` with its texts as character sequences.
pub struct InvocationView {
    pub program: Seq<char>,
    pub args: Seq<Seq<char>>,
    pub dir: Option<Seq<char>>,
}

impl View for Invocation {
    type V = InvocationView;

    open spec fn view(&self) -> InvocationView {
        InvocationView {
            program: self.program@,
            args: text_views(self.args@),
            dir: match self.dir {
                Some(dir) => Some(dir@),
                None => None,
            },
        }
    }
}

/// How a command ended.
#[derive(Debug, PartialEq, Eq)]
pub enum ExecReply {
    /// The process could not be started; `reason` says why.
    NotSpawned { reason: String },
    /// The process ran to its end. `success` tells whether it exited with
    /// status zero, `stdout` is what it wrote to its standard output, and
    /// `report` describes the whole of its captured output and status.
    Exited { success: bool, stdout: Vec<u8>, report: String },
}

/// `ExecReply` with its texts as character sequences.
pub enum ExecReplyView {
    NotSpawned { reason: Seq<char> },
    Exited { success: bool, stdout: Seq<u8>, report: Seq<char> },
}

impl View for ExecReply {
    type V = ExecReplyView;

    open spec fn view(&self) -> ExecReplyView {
        match self {
            ExecReply::NotSpawned { reason } => ExecReplyView::NotSpawned { reason: reason@ },
            ExecReply::Exited { success, stdout, report } => ExecReplyView::Exited {
                success: *success,
                stdout: stdout@,
                report: report@,
            },
        }
    }
}

/// The arguments that ask which stacks are up.
pub open spec fn status_args() -> Seq<Seq<char>> {
    seq!["ls"@, "-q"@]
}

/// The arguments that bring a stack down.
pub open spec fn stop_args() -> Seq<Seq<char>> {
    seq!["down"@]
}

/// The arguments that bring a stack up, detached.
pub open spec fn start_args() -> Seq<Seq<char>> {
    seq!["up"@, "-d"@]
}

/// The arguments that pull a stack's images.
pub open spec fn pull_args() -> Seq<Seq<char>> {
    seq!["pull"@]
}

/// The `docker compose` command with the given arguments, run in `dir`
/// where one is given.
pub open spec fn compose_command(args: Seq<Seq<char>>, dir: Option<Seq<char>>) -> InvocationView {
    InvocationView { program: "docker"@, args: seq!["compose"@] + args, dir }
}

/// The parts with one space between each two.
pub open spec fn spaced(parts: Seq<Seq<char>>) -> Seq<char>
    decreases parts.len(),
{
    if parts.len() == 0 {
        Seq::empty()
    } else if parts.len() == 1 {
        parts[0]
    } else {
        spaced(parts.drop_last()) + seq![' '] + parts.last()
    }
}

/// What the end of a command with the arguments `args` means: its
/// standard output if it ran and exited with status zero; otherwise the
/// failure, with the arguments and what is known of the cause.
pub open spec fn checked(args: Seq<Seq<char>>, reply: ExecReplyView) -> Result<
    Seq<u8>,
    ContainerErrorView,
> {
    match reply {
        ExecReplyView::NotSpawned { reason } => Err(
            ContainerErrorView::FailedToExecCommand { error: reason, command: spaced(args) },
        ),
        ExecReplyView::Exited { success, stdout, report } => if success {
            Ok(stdout)
        } else {
            Err(ContainerErrorView::FailedToExecCommand { error: report, command: spaced(args) })
        },
    }
}

/// Where the first line of `text` ends: at its first line feed, or at its
/// end if it holds none.
pub open spec fn line_end(text: Seq<char>) -> nat
    decreases text.len(),
{
    if text.len() == 0 || text[0] == '\n' {
        0
    } else {
        1 + line_end(text.drop_first())
    }
}

/// The line without the carriage return that ends it, if one does.
pub open spec fn without_cr(line: Seq<char>) -> Seq<char> {
    if line.len() > 0 && line.last() == '\r' {
        line.drop_last()
    } else {
        line
    }
}

/// The lines of `text`. A line ends at a line feed, or at a carriage
/// return followed by one; neither belongs to the line. What follows the
/// last line feed is a line too, taken as it stands, unless it is empty.
pub open spec fn lines_of(text: Seq<char>) -> Seq<Seq<char>>
    decreases text.len(),
{
    if text.len() == 0 {
        Seq::empty()
    } else {
        let end = line_end(text) as int;
        if end >= text.len() {
            seq![text]
        } else {
            seq![without_cr(text.take(end))] + lines_of(text.skip(end + 1))
        }
    }
}

/// For each name, in order, whether it is one of the lines of `listing`.
pub open spec fn online_flags(names: Seq<Seq<char>>, listing: Seq<char>) -> Seq<bool> {
    names.map_values(|name: Seq<char>| lines_of(listing).contains(name))
}

/// The names of the projects, in order.
pub open spec fn project_names(projects: Seq<ProjectInfo>) -> Seq<Seq<char>> {
    projects.map_values(|p: ProjectInfo| p@.name)
}

/// The text that `String::from_utf8_lossy` of std makes of the bytes:
/// their text as UTF-8, with a replacement character where they are not.
pub uninterp spec fn lossy_text(bytes: Seq<u8>) -> Seq<char>;

/// Decodes with `String::from_utf8_lossy` of std, which is a function of
/// the bytes alone; the contract gives its result its name. Bytes that
/// are valid UTF-8 are kept as they are: the text encodes to them.
#[verifier::external_body]
fn decode_lossy(bytes: &Vec<u8>) -> (text: String)
    ensures
        text@ == lossy_text(bytes@),
        vstd::utf8::valid_utf8(bytes@) ==> vstd::utf8::encode_utf8(text@) == bytes@,
{
    String::from_utf8_lossy(bytes).into_owned()
}

/// The first line ends inside the text or at its end, at a line feed if
/// inside, and holds no line feed.
pub proof fn lemma_line_end_bounds(text: Seq<char>)
    ensures
        0 <= line_end(text) <= text.len(),
        line_end(text) < text.len() ==> text[line_end(text) as int] == '\n',
        forall|k: int| 0 <= k < line_end(text) ==> text[k] != '\n',
    decreases text.len(),
{
    if text.len() == 0 || text[0] == '\n' {
    } else {
        let rest = text.drop_first();
        lemma_line_end_bounds(rest);
        assert forall|k: int| 0 <= k < line_end(text) implies text[k] != '\n' by {
            if k > 0 {
                assert(rest[k - 1] == text[k]);
            }
        }
    }
}

/// The first line of `text` ends at `end` if no line feed comes before
/// `end` and one stands there, or the text ends there.
pub proof fn lemma_line_end_is(text: Seq<char>, end: int)
    requires
        0 <= end <= text.len(),
        forall|k: int| 0 <= k < end ==> text[k] != '\n',
        end < text.len() ==> text[end] == '\n',
    ensures
        line_end(text) == end,
{
    lemma_line_end_bounds(text);
    let found = line_end(text) as int;
    if found < end {
        assert(text[found] == '\n');
    } else if found > end {
        assert(text[end] != '\n');
    }
}

/// The lifecycle controller. It holds no state: what is up is asked of
/// the command line each time.
#[derive(Default)]
pub struct ContainerService;

impl ContainerService {
    /// The texts as owned strings.
    fn arguments(words: &[&str]) -> (args: Vec<String>)
        ensures
            args@.len() == words@.len(),
            forall|i: int| 0 <= i < words@.len() ==> (#[trigger] args@[i])@ == words@[i]@,
    {
        let mut args: Vec<String> = Vec::new();
        let mut i: usize = 0;
        while i < words.len()
            invariant
                i <= words@.len(),
                args@.len() == i,
                forall|k: int| 0 <= k < i ==> (#[trigger] args@[k])@ == words@[k]@,
            decreases words@.len() - i,
        {
            args.push(owned(words[i]));
            i += 1;
        }
        args
    }

    /// The `docker compose` command with the given arguments.
    fn compose(args: Vec<String>, dir: Option<String>) -> (command: Invocation)
        ensures
            command@ == compose_command(
                text_views(args@),
                match dir {
                    Some(d) => Some(d@),
                    None => None,
                },
            ),
    {
        let mut all: Vec<String> = Vec::new();
        all.push(owned("compose"));
        let mut i: usize = 0;
        while i < args.len()
            invariant
                i <= args.len(),
                text_views(all@) == seq!["compose"@] + text_views(args@).take(i as int),
            decreases args.len() - i,
        {
            let ghost before = text_views(all@);
            all.push(args[i].clone());
            assert(text_views(all@) =~= before.push(args@[i as int]@));
            assert(text_views(args@).take(i + 1) =~= text_views(args@).take(i as int).push(
                args@[i as int]@,
            ));
            i += 1;
        }
        assert(text_views(args@).take(args.len() as int) =~= text_views(args@));
        Invocation { program: owned("docker"), args: all, dir }
    }

    /// The command that asks which stacks are up. It names no project and
    /// no directory: one run answers for every project.
    pub fn status_query() -> (command: Invocation)
        ensures
            command@ == compose_command(status_args(), None),
    {
        let args = Self::arguments(&["ls", "-q"]);
        assert(text_views(args@) =~= status_args());
        Self::compose(args, None)
    }

    /// The command that brings the project's stack down, run in the
    /// project's directory.
    pub fn stop_command(project: &ProjectInfo) -> (command: Invocation)
        ensures
            command@ == compose_command(stop_args(), Some(project@.dir)),
    {
        let args = Self::arguments(&["down"]);
        assert(text_views(args@) =~= stop_args());
        Self::compose(args, Some(project.dir.clone()))
    }

    /// The command that brings the project's stack up, detached, run in
    /// the project's directory.
    pub fn start_command(project: &ProjectInfo) -> (command: Invocation)
        ensures
            command@ == compose_command(start_args(), Some(project@.dir)),
    {
        let args = Self::arguments(&["up", "-d"]);
        assert(text_views(args@) =~= start_args());
        Self::compose(args, Some(project.dir.clone()))
    }

    /// The command that pulls the images of the project's stack, run in
    /// the project's directory.
    pub fn pull_command(project: &ProjectInfo) -> (command: Invocation)
        ensures
            command@ == compose_command(pull_args(), Some(project@.dir)),
    {
        let args = Self::arguments(&["pull"]);
        assert(text_views(args@) =~= pull_args());
        Self::compose(args, Some(project.dir.clone()))
    }

    /// The arguments with one space between each two.
    pub fn join_args(args: &Vec<String>) -> (command: String)
        ensures
            command@ == spaced(text_views(args@)),
    {
        let mut command = String::new();
        let mut i: usize = 0;
        assert(text_views(args@).take(0) =~= Seq::empty());
        while i < args.len()
            invariant
                i <= args.len(),
                command@ == spaced(text_views(args@).take(i as int)),
            decreases args.len() - i,
        {
            let ghost upto = text_views(args@).take(i + 1);
            proof {
                reveal_strlit(" ");
                assert(" "@ =~= seq![' ']);
                assert(upto.drop_last() =~= text_views(args@).take(i as int));
                assert(upto.last() == args@[i as int]@);
            }
            if i > 0 {
                command.append(" ");
            }
            command.append(args[i].as_str());
            proof {
                if i == 0 {
                    assert(command@ =~= upto[0]);
                }
            }
            i += 1;
        }
        assert(text_views(args@).take(args.len() as int) =~= text_views(args@));
        command
    }

    /// Tells what the end of the command with the arguments `args` means:
    /// its standard output if it succeeded, the failure otherwise.
    pub fn exec_docker_compose_command(args: &Vec<String>, reply: ExecReply) -> (res: Result<
        Vec<u8>,
        ContainerServiceError,
    >)
        ensures
            match res {
                Ok(stdout) => checked(text_views(args@), reply@) == Ok::<
                    Seq<u8>,
                    ContainerErrorView,
                >(stdout@),
                Err(e) => checked(text_views(args@), reply@) == Err::<Seq<u8>, ContainerErrorView>(
                    e@,
                ),
            },
    {
        match reply {
            ExecReply::NotSpawned { reason } => Err(
                ContainerServiceError::FailedToExecCommand {
                    command: Self::join_args(args),
                    error: reason,
                },
            ),
            ExecReply::Exited { success, stdout, report } => {
                if !success {
                    return Err(
                        ContainerServiceError::FailedToExecCommand {
                            command: Self::join_args(args),
                            error: report,
                        },
                    );
                }
                Ok(stdout)
            },
        }
    }

    /// The lines of a text.
    pub fn lines(text: &str) -> (lines: Vec<Vec<char>>)
        ensures
            lines@.map_values(|l: Vec<char>| l@) == lines_of(text@),
    {
        let chars = chars_of(text);
        let mut lines: Vec<Vec<char>> = Vec::new();
        let mut line: Vec<char> = Vec::new();
        let mut start: usize = 0;
        let mut i: usize = 0;
        assert(chars@.skip(0) =~= chars@);
        while i < chars.len()
            invariant
                chars@ == text@,
                start <= i <= chars.len(),
                line@ == chars@.subrange(start as int, i as int),
                forall|k: int| start <= k < i ==> chars@[k] != '\n',
                lines_of(chars@) == lines@.map_values(|l: Vec<char>| l@) + lines_of(
                    chars@.skip(start as int),
                ),
            decreases chars.len() - i,
        {
            let c = chars[i];
            if c == '\n' {
                let ghost rest = chars@.skip(start as int);
                let ghost done = lines@.map_values(|l: Vec<char>| l@);
                proof {
                    lemma_line_end_is(rest, i - start);
                    assert(rest.take(i - start) =~= line@);
                    assert(rest.skip(i - start + 1) =~= chars@.skip(i + 1));
                }
                if line.len() > 0 && line[line.len() - 1] == '\r' {
                    line.pop();
                }
                assert(line@ =~= without_cr(rest.take(i - start)));
                lines.push(line);
                line = Vec::new();
                start = i + 1;
                assert(line@ =~= chars@.subrange(start as int, i + 1));
                assert(lines@.map_values(|l: Vec<char>| l@) =~= done.push(lines@.last()@));
                assert(lines_of(rest) =~= seq![lines@.last()@] + lines_of(chars@.skip(i + 1)));
            } else {
                line.push(c);
                assert(line@ =~= chars@.subrange(start as int, i + 1));
            }
            i += 1;
        }
        proof {
            let rest = chars@.skip(start as int);
            let done = lines@.map_values(|l: Vec<char>| l@);
            if start < chars.len() {
                lemma_line_end_is(rest, rest.len() as int);
                assert(line@ =~= rest);
            }
        }
        if start < chars.len() {
            let ghost done = lines@.map_values(|l: Vec<char>| l@);
            lines.push(line);
            assert(lines@.map_values(|l: Vec<char>| l@) =~= done.push(lines@.last()@));
        }
        lines
    }

    /// Whether `name` is one of `lines`.
    fn is_listed(lines: &Vec<Vec<char>>, name: &Vec<char>) -> (found: bool)
        ensures
            found == lines@.map_values(|l: Vec<char>| l@).contains(name@),
    {
        let ghost views = lines@.map_values(|l: Vec<char>| l@);
        let mut i: usize = 0;
        while i < lines.len()
            invariant
                i <= lines.len(),
                views == lines@.map_values(|l: Vec<char>| l@),
                forall|k: int| 0 <= k < i ==> views[k] != name@,
            decreases lines.len() - i,
        {
            if same_chars(&lines[i], name) {
                assert(views[i as int] == name@);
                return true;
            }
            i += 1;
        }
        false
    }

    /// For each project in order, whether its name is one of the lines of
    /// `listing`.
    pub fn online_among(projects: &[ProjectInfo], listing: &str) -> (flags: Vec<bool>)
        ensures
            flags@ == online_flags(project_names(projects@), listing@),
    {
        let active = Self::lines(listing);
        let mut flags: Vec<bool> = Vec::new();
        let mut i: usize = 0;
        while i < projects.len()
            invariant
                i <= projects@.len(),
                flags@.len() == i,
                active@.map_values(|l: Vec<char>| l@) == lines_of(listing@),
                forall|k: int|
                    0 <= k < i ==> flags@[k] == lines_of(listing@).contains(
                        (#[trigger] projects@[k])@.name,
                    ),
            decreases projects@.len() - i,
        {
            let name = chars_of(projects[i].name.as_str());
            flags.push(Self::is_listed(&active, &name));
            i += 1;
        }
        assert(flags@ =~= online_flags(project_names(projects@), listing@));
        flags
    }

    /// Tells from the end of the status query, for each project in order,
    /// whether its stack is up: whether its name is a line of what the
    /// query wrote, read as text. Output that is valid UTF-8 is read as
    /// it stands. Fails as the query did.
    pub fn are_online(projects: &[ProjectInfo], reply: ExecReply) -> (res: Result<
        Vec<bool>,
        ContainerServiceError,
    >)
        ensures
            match checked(status_args(), reply@) {
                Ok(stdout) => res matches Ok(flags) && flags@ == online_flags(
                    project_names(projects@),
                    lossy_text(stdout),
                ) && (vstd::utf8::valid_utf8(stdout) ==> vstd::utf8::encode_utf8(
                    lossy_text(stdout),
                ) == stdout),
                Err(error) => res matches Err(e) && e@ == error,
            },
    {
        let args = Self::arguments(&["ls", "-q"]);
        assert(text_views(args@) =~= status_args());
        let stdout = match Self::exec_docker_compose_command(&args, reply) {
            Ok(stdout) => stdout,
            Err(e) => {
                return Err(e);
            },
        };
        let listing = decode_lossy(&stdout);
        Ok(Self::online_among(projects, listing.as_str()))
    }

    /// Tells from the end of the status query whether the project's stack
    /// is up, by the test that `are_online` makes for each of its projects.
    pub fn is_online(project: &ProjectInfo, reply: ExecReply) -> (res: Result<
        bool,
        ContainerServiceError,
    >)
        ensures
            match checked(status_args(), reply@) {
                Ok(stdout) => res matches Ok(up) && up == lines_of(lossy_text(stdout)).contains(
                    project@.name,
                ) && (vstd::utf8::valid_utf8(stdout) ==> vstd::utf8::encode_utf8(
                    lossy_text(stdout),
                ) == stdout),
                Err(error) => res matches Err(e) && e@ == error,
            },
    {
        let mut single: Vec<ProjectInfo> = Vec::new();
        single.push(project.clone());
        match Self::are_online(single.as_slice(), reply) {
            Ok(flags) => Ok(flags[0]),
            Err(e) => Err(e),
        }
    }

    /// Tells from the end of the command whether it succeeded.
    fn settled(args: &Vec<String>, reply: ExecReply) -> (res: Result<(), ContainerServiceError>)
        ensures
            match checked(text_views(args@), reply@) {
                Ok(_) => res is Ok,
                Err(error) => res matches Err(e) && e@ == error,
            },
    {
        match Self::exec_docker_compose_command(args, reply) {
            Ok(_) => Ok(()),
            Err(e) => Err(e),
        }
    }

    /// Tells from the end of the stop command whether the project's stack
    /// was brought down.
    pub fn stop(reply: ExecReply) -> (res: Result<(), ContainerServiceError>)
        ensures
            match checked(stop_args(), reply@) {
                Ok(_) => res is Ok,
                Err(error) => res matches Err(e) && e@ == error,
            },
    {
        let args = Self::arguments(&["down"]);
        assert(text_views(args@) =~= stop_args());
        Self::settled(&args, reply)
    }

    /// Tells from the end of the start command whether the project's
    /// stack was brought up.
    pub fn start(reply: ExecReply) -> (res: Result<(), ContainerServiceError>)
        ensures
            match checked(start_args(), reply@) {
                Ok(_) => res is Ok,
                Err(error) => res matches Err(e) && e@ == error,
            },
    {
        let args = Self::arguments(&["up", "-d"]);
        assert(text_views(args@) =~= start_args());
        Self::settled(&args, reply)
    }

    /// Tells from the end of the pull command whether the images of the
    /// project's stack were pulled.
    pub fn pull(reply: ExecReply) -> (res: Result<(), ContainerServiceError>)
        ensures
            match checked(pull_args(), reply@) {
                Ok(_) => res is Ok,
                Err(error) => res matches Err(e) && e@ == error,
            },
    {
        let args = Self::arguments(&["pull"]);
        assert(text_views(args@) =~= pull_args());
        Self::settled(&args, reply)
    }
}

} // verus!
