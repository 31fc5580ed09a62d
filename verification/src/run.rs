//! Whole runs: the requests that a session makes of a file system that
//! answers in a given way.

use vstd::prelude::*;
use crate::args::ArgsView;
use crate::error::UsageError;
use crate::session::Outcome;
use crate::session::Reply;
use crate::session::Request;
use crate::session::Session;
use crate::session::Stage;
use crate::times::Times;
use crate::times::chosen;

verus! {

/// What the file system holds for one run, as far as the run can tell.
pub struct World {
    /// Whether the target exists when the run begins.
    pub target_exists: bool,
    /// Whether the target exists once its creation was attempted.
    pub target_appears: bool,
    /// The times of the target when they are read, if they can be read.
    pub target_times: Option<Times>,
    /// The times of the probe file, if they can be read.
    pub probe_times: Option<Times>,
    /// Whether the reference file exists.
    pub reference_exists: bool,
    /// The times of the reference file, if they can be read.
    pub reference_times: Option<Times>,
}

/// The answer that hands on what was read.
pub open spec fn read(times: Option<Times>) -> Reply {
    match times {
        Some(times) => Reply::Times(times),
        None => Reply::Unreadable,
    }
}

impl World {
    /// The answer of this file system to a request.
    pub open spec fn answer(self, request: Request) -> Reply {
        match request {
            Request::FindTarget => Reply::Exists(self.target_exists),
            Request::ConfirmTarget => Reply::Exists(self.target_appears),
            Request::ReadTarget => read(self.target_times),
            Request::ReadProbe => read(self.probe_times),
            Request::FindReference => Reply::Exists(self.reference_exists),
            Request::ReadReference => read(self.reference_times),
            _ => Reply::Done,
        }
    }
}

impl Stage {
    /// A bound on the requests that can still follow the pending one.
    pub open spec fn rank(self) -> nat {
        match self {
            Stage::Probe => 9,
            Stage::Lookup => 8,
            Stage::Creation => 7,
            Stage::Confirmation => 6,
            Stage::TargetTimes => 5,
            Stage::ProbeTimes { .. } => 4,
            Stage::ReferenceLookup { .. } => 3,
            Stage::ReferenceTimes { .. } => 2,
            Stage::Update { .. } => 1,
            Stage::End(_) => 0,
        }
    }
}

impl Session {
    /// The requests that the session makes from here on, in their order, when
    /// each is answered by `world`. The last one is a [`Request::Finish`].
    pub open spec fn run(self, world: World) -> Seq<Request>
        decreases self.stage.rank(),
    {
        if self.stage is End {
            seq![self.pending()]
        } else {
            seq![self.pending()] + self.after(world.answer(self.pending())).run(world)
        }
    }
}

/// Whether one of the requests sets the times of the target.
pub open spec fn sets_times(requests: Seq<Request>) -> bool {
    exists|i: int| 0 <= i < requests.len() && #[trigger] requests[i] is SetTimes
}

/// The way in which a run that made these requests ended.
pub open spec fn ending(requests: Seq<Request>) -> Outcome
    recommends
        requests.len() > 0,
        requests.last() is Finish,
{
    requests.last()->Finish_0
}

/// The end of a run that went well.
pub open spec fn done() -> Seq<Request> {
    seq![Request::Finish(Outcome::Success)]
}

/// The request to set the times that the flags ask for, if they ask for any,
/// and the end of the run.
pub open spec fn updating(args: ArgsView, current: Times, fresh: Times) -> Seq<Request> {
    match chosen(args.access, args.modify, current, fresh) {
        Some(times) => seq![Request::SetTimes(times)] + done(),
        None => done(),
    }
}

/// The requests of a run from its look for the reference file on, where the
/// target's own times are `current`. The run is refused if the reference
/// file is missing. Else the times of that file are read and are the new
/// ones; if they cannot be read, the run ends there.
pub open spec fn referring(args: ArgsView, world: World, current: Times) -> Seq<Request> {
    if !world.reference_exists {
        seq![
            Request::FindReference,
            Request::Finish(Outcome::Usage(UsageError::ReferenceUnreadable)),
        ]
    } else {
        seq![Request::FindReference, Request::ReadReference] + match world.reference_times {
            Some(fresh) => updating(args, current, fresh),
            None => done(),
        }
    }
}

/// The requests of a run from the reading of the target's times on. The
/// target's own times and those of the probe file are read; if either cannot
/// be read, the run ends there. Without a reference file the times of the
/// probe file are the new ones.
pub open spec fn reading(args: ArgsView, world: World) -> Seq<Request> {
    match world.target_times {
        None => seq![Request::ReadTarget] + done(),
        Some(current) => seq![Request::ReadTarget, Request::ReadProbe] + match world.probe_times {
            None => done(),
            Some(now) => if args.source is Some {
                referring(args, world, current)
            } else {
                updating(args, current, now)
            },
        },
    }
}

/// The requests of a whole run, written out: what the options `args` ask of
/// a file system `world`.
///
/// The probe file comes first, then the look at the target. With `-c` the
/// run ends there: well if the target exists, and as a failure if it is
/// missing. Without `-c`, a target that is missing is created, and the run
/// fails if it is still missing then. After that the times are read and set,
/// as [`reading`] says.
pub open spec fn script(args: ArgsView, world: World) -> Seq<Request> {
    let found = seq![Request::CreateProbe, Request::FindTarget];
    let made = found + seq![Request::CreateTarget, Request::ConfirmTarget];
    let failed = seq![Request::Finish(Outcome::CreationFailure)];
    if args.no_create {
        if world.target_exists {
            found + done()
        } else {
            found + failed
        }
    } else if world.target_exists {
        found + reading(args, world)
    } else if world.target_appears {
        made + reading(args, world)
    } else {
        made + failed
    }
}

/// A run that knows the times to choose from sets the chosen ones and ends.
proof fn lemma_run_updating(args: ArgsView, world: World, current: Times, fresh: Times)
    ensures
        Session::begin(args).at(Session::begin(args).settled(current, fresh)).run(world)
            == updating(args, current, fresh),
{
    reveal_with_fuel(Session::run, 3);
    let from = Session::begin(args).at(Session::begin(args).settled(current, fresh));
    assert(from.run(world) =~= updating(args, current, fresh));
}

/// A run that looks for the reference file goes on as [`referring`] says.
proof fn lemma_run_referring(args: ArgsView, world: World, current: Times)
    requires
        args.source is Some,
    ensures
        Session::begin(args).at(Stage::ReferenceLookup { current }).run(world) == referring(
            args,
            world,
            current,
        ),
{
    reveal_with_fuel(Session::run, 3);
    let from = Session::begin(args).at(Stage::ReferenceLookup { current });
    if world.reference_exists && world.reference_times is Some {
        lemma_run_updating(args, world, current, world.reference_times->Some_0);
    }
    assert(from.run(world) =~= referring(args, world, current));
}

/// A run that is to read the target's times goes on as [`reading`] says.
proof fn lemma_run_reading(args: ArgsView, world: World)
    ensures
        Session::begin(args).at(Stage::TargetTimes).run(world) == reading(args, world),
{
    reveal_with_fuel(Session::run, 3);
    let from = Session::begin(args).at(Stage::TargetTimes);
    if world.target_times is Some && world.probe_times is Some {
        let current = world.target_times->Some_0;
        if args.source is Some {
            lemma_run_referring(args, world, current);
        } else {
            lemma_run_updating(args, world, current, world.probe_times->Some_0);
        }
    }
    assert(from.run(world) =~= reading(args, world));
}

/// A run from the beginning makes exactly the requests of its script.
pub proof fn lemma_run_is_script(args: ArgsView, world: World)
    ensures
        Session::begin(args).run(world) == script(args, world),
{
    reveal_with_fuel(Session::run, 5);
    lemma_run_reading(args, world);
    assert(Session::begin(args).run(world) =~= script(args, world));
}

} // verus!
