use vstd::prelude::*;
use vstd::string::*;

use crate::store::StoreError;

verus! {

/// Which way a toggle request drives every registered interface.
#[derive(Clone, Copy, Debug, PartialEq, Eq, Structural)]
pub enum Direction {
    Up,
    Down,
}

/// The subcommand handed to the VPN tool for a direction.
pub open spec fn verb_spec(d: Direction) -> Seq<char> {
    match d {
        Direction::Up => "up"@,
        Direction::Down => "down"@,
    }
}

/// The label that opens every report line for a direction.
pub open spec fn label_spec(d: Direction) -> Seq<char> {
    match d {
        Direction::Up => "VPN ON"@,
        Direction::Down => "VPN OFF"@,
    }
}

impl Direction {
    pub fn verb(&self) -> (r: &'static str)
        ensures
            r@ == verb_spec(*self),
    {
        match self {
            Direction::Up => "up",
            Direction::Down => "down",
        }
    }

    pub fn label(&self) -> (r: &'static str)
        ensures
            r@ == label_spec(*self),
    {
        match self {
            Direction::Up => "VPN ON",
            Direction::Down => "VPN OFF",
        }
    }
}


/// How the VPN tool fared on one path.
#[derive(Clone, Debug)]
pub enum Outcome {
    /// The tool ran and exited with success.
    Success,
    /// The tool ran and exited with failure; holds what it wrote on standard error.
    Failed(String),
    /// The tool could not be launched; holds the launch error's description.
    SpawnError(String),
}

/// One path together with how the tool fared on it.
#[derive(Clone, Debug)]
pub struct PathResult {
    pub path: String,
    pub outcome: Outcome,
}

/// The classification part of a report line.
pub open spec fn outcome_text(o: Outcome) -> Seq<char> {
    match o {
        Outcome::Success => "Success"@,
        Outcome::Failed(e) => "Failed - "@ + e@,
        Outcome::SpawnError(e) => "Error - "@ + e@,
    }
}

/// `<label> for <path>: <classification>`, newline-terminated.
pub open spec fn line_spec(d: Direction, path: Seq<char>, o: Outcome) -> Seq<char> {
    label_spec(d) + " for "@ + path + ": "@ + outcome_text(o) + "\n"@
}

/// The report for a sequence of results: their lines, in order.
pub open spec fn report_spec(d: Direction, results: Seq<PathResult>) -> Seq<char>
    decreases results.len(),
{
    if results.len() == 0 {
        Seq::empty()
    } else {
        report_spec(d, results.drop_last()) + line_spec(
            d,
            results.last().path@,
            results.last().outcome,
        )
    }
}

/// Renders the report line for one path.
pub fn outcome_line(d: Direction, path: &str, o: &Outcome) -> (r: String)
    ensures
        r@ == line_spec(d, path@, *o),
{
    let mut r = String::from_str(d.label());
    r.append(" for ");
    r.append(path);
    r.append(": ");
    match o {
        Outcome::Success => r.append("Success"),
        Outcome::Failed(e) => {
            r.append("Failed - ");
            r.append(e.as_str());
        },
        Outcome::SpawnError(e) => {
            r.append("Error - ");
            r.append(e.as_str());
        },
    }
    r.append("\n");
    proof {
        assert(r@ =~= line_spec(d, path@, *o));
    }
    r
}

/// Renders the whole report: one line per result, in order.
pub fn render_report(d: Direction, results: &Vec<PathResult>) -> (r: String)
    ensures
        r@ == report_spec(d, results@),
{
    let mut r = String::new();
    let mut i: usize = 0;
    while i < results.len()
        invariant
            i <= results@.len(),
            r@ == report_spec(d, results@.subrange(0, i as int)),
        decreases results.len() - i,
    {
        let line = outcome_line(d, results[i].path.as_str(), &results[i].outcome);
        r.append(line.as_str());
        proof {
            assert(results@.subrange(0, i + 1).drop_last() =~= results@.subrange(0, i as int));
        }
        i = i + 1;
    }
    proof {
        assert(results@.subrange(0, i as int) =~= results@);
    }
    r
}


/// What became of one launch of the VPN tool, as the caller observed it.
#[derive(Clone, Debug)]
pub enum CommandEvent {
    /// The tool ran to completion: whether its exit status was success, and its standard error.
    Exited { success: bool, stderr: Vec<u8> },
    /// The tool could not be launched; holds the launch error's description.
    SpawnFailed(String),
}

/// The text that lossy UTF-8 decoding makes of a byte sequence.
pub uninterp spec fn utf8_lossy_of(b: Seq<u8>) -> Seq<char>;

/// Relies on `String::from_utf8_lossy`: decodes the bytes, replacing each invalid
/// sequence with U+FFFD; the text depends on the bytes alone.
#[verifier::external_body]
fn decode_lossy(b: &Vec<u8>) -> (r: String)
    ensures
        r@ == utf8_lossy_of(b@),
{
    String::from_utf8_lossy(b.as_slice()).into_owned()
}

/// The outcome that an observed event stands for.
pub open spec fn classified(ev: CommandEvent, o: Outcome) -> bool {
    match ev {
        CommandEvent::Exited { success, stderr } => if success {
            o is Success
        } else {
            o is Failed && o->Failed_0@ == utf8_lossy_of(stderr@)
        },
        CommandEvent::SpawnFailed(e) => o is SpawnError && o->SpawnError_0@ == e@,
    }
}

/// Classifies a launch of the tool: a successful exit, a failed exit with its
/// standard error as text, or a launch error.
pub fn classify(ev: &CommandEvent) -> (o: Outcome)
    ensures
        classified(*ev, o),
{
    match ev {
        CommandEvent::Exited { success, stderr } => if *success {
            Outcome::Success
        } else {
            Outcome::Failed(decode_lossy(stderr))
        },
        CommandEvent::SpawnFailed(e) => Outcome::SpawnError(e.clone()),
    }
}

/// Why a toggle request failed as a whole.
#[derive(Clone, Debug)]
pub enum ToggleError {
    /// The path list could not be read; no external command was run.
    PathListUnavailable(StoreError),
}

impl ToggleError {
    pub fn message(&self) -> (r: String)
        ensures
            r@ == match *self {
                ToggleError::PathListUnavailable(e) => e.message_spec(),
            },
    {
        match self {
            ToggleError::PathListUnavailable(e) => e.message(),
        }
    }
}

/// One launch of the VPN tool that a toggle run asks for: `<tool> <verb> <path>`.
#[derive(Clone, Debug)]
pub struct Invocation {
    pub verb: String,
    pub path: String,
}

/// A toggle request in progress: the paths to process, in order, and the
/// results gathered so far for a prefix of them.
pub struct ToggleRun {
    direction: Direction,
    paths: Vec<String>,
    results: Vec<PathResult>,
}

impl ToggleRun {
    pub closed spec fn direction_spec(&self) -> Direction {
        self.direction
    }

    pub closed spec fn paths_spec(&self) -> Seq<String> {
        self.paths@
    }

    pub closed spec fn results_spec(&self) -> Seq<PathResult> {
        self.results@
    }

    /// The results belong to the first paths, one each, in order.
    pub open spec fn wf(&self) -> bool {
        &&& self.results_spec().len() <= self.paths_spec().len()
        &&& forall|i: int|
            0 <= i < self.results_spec().len() ==> #[trigger] self.results_spec()[i].path@
                == self.paths_spec()[i]@
    }

    /// Some path still awaits its launch of the tool.
    pub open spec fn pending_spec(&self) -> bool {
        self.results_spec().len() < self.paths_spec().len()
    }

    /// Starts a toggle from the outcome of reading the path list. A failed read
    /// aborts the request before any external command, with `PathListUnavailable`.
    pub fn start(direction: Direction, listed: Result<Vec<String>, StoreError>) -> (r: Result<
        ToggleRun,
        ToggleError,
    >)
        ensures
            listed is Err <==> r is Err,
            listed is Err ==> r == Err::<ToggleRun, ToggleError>(
                ToggleError::PathListUnavailable(listed->Err_0),
            ),
            r is Ok ==> {
                &&& r->Ok_0.wf()
                &&& r->Ok_0.direction_spec() == direction
                &&& r->Ok_0.paths_spec() == listed->Ok_0@
                &&& r->Ok_0.results_spec().len() == 0
            },
    {
        match listed {
            Ok(paths) => Ok(ToggleRun { direction, paths, results: Vec::new() }),
            Err(e) => Err(ToggleError::PathListUnavailable(e)),
        }
    }

    pub fn direction(&self) -> (r: Direction)
        ensures
            r == self.direction_spec(),
    {
        self.direction
    }

    pub fn is_pending(&self) -> (r: bool)
        ensures
            r == self.pending_spec(),
    {
        self.results.len() < self.paths.len()
    }

    /// The launch that the run needs next: the direction's verb on the first path
    /// without a result; `None` once every path has one.
    pub fn next_invocation(&self) -> (r: Option<Invocation>)
        requires
            self.wf(),
        ensures
            r is None <==> !self.pending_spec(),
            r is Some ==> {
                &&& r->Some_0.verb@ == verb_spec(self.direction_spec())
                &&& r->Some_0.path@ == self.paths_spec()[self.results_spec().len() as int]@
            },
    {
        if self.results.len() < self.paths.len() {
            let k = self.results.len();
            Some(Invocation { verb: String::from_str(self.direction.verb()), path: self.paths[k].clone() })
        } else {
            None
        }
    }

    /// Records what the launch for the next pending path did. A failure of any
    /// kind is kept as that path's result; it never stops the run.
    pub fn record(&mut self, ev: &CommandEvent)
        requires
            old(self).wf(),
            old(self).pending_spec(),
        ensures
            final(self).wf(),
            final(self).direction_spec() == old(self).direction_spec(),
            final(self).paths_spec() == old(self).paths_spec(),
            final(self).results_spec().len() == old(self).results_spec().len() + 1,
            final(self).results_spec().drop_last() == old(self).results_spec(),
            final(self).results_spec().last().path@ == old(self).paths_spec()[old(self).results_spec().len() as int]@,
            classified(*ev, final(self).results_spec().last().outcome),
    {
        let k = self.results.len();
        let path = self.paths[k].clone();
        let outcome = classify(ev);
        self.results.push(PathResult { path, outcome });
        proof {
            assert(self.results@.drop_last() =~= old(self).results@);
        }
    }

    /// The report so far: one line per recorded result, in path order.
    pub fn report(&self) -> (r: String)
        ensures
            r@ == report_spec(self.direction_spec(), self.results_spec()),
    {
        render_report(self.direction, &self.results)
    }

    /// The structured results recorded so far.
    pub fn results(&self) -> (r: &Vec<PathResult>)
        ensures
            r@ == self.results_spec(),
    {
        &self.results
    }
}


/// A toggle over an empty registry has nothing to launch and reports nothing.
pub proof fn law_empty_registry_toggle(run: ToggleRun)
    requires
        run.wf(),
        run.paths_spec().len() == 0,
    ensures
        !run.pending_spec(),
        report_spec(run.direction_spec(), run.results_spec()) == Seq::<char>::empty(),
{
}

/// A run that has no pending path holds one result per path, in path order,
/// whatever each launch did.
pub proof fn law_full_list_processed(run: ToggleRun)
    requires
        run.wf(),
        !run.pending_spec(),
    ensures
        run.results_spec().len() == run.paths_spec().len(),
        forall|i: int|
            0 <= i < run.paths_spec().len() ==> #[trigger] run.results_spec()[i].path@
                == run.paths_spec()[i]@,
{
}

} // verus!
