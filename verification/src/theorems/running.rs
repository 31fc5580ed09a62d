//! What holds of every run.

use vstd::prelude::*;
use crate::args::ArgsView;
use crate::error::UsageError;
use crate::run::World;
use crate::run::ending;
use crate::run::lemma_run_is_script;
use crate::run::sets_times;
use crate::session::Outcome;
use crate::session::Reply;
use crate::session::Request;
use crate::session::Session;
use crate::times::Times;

verus! {

/// An answer of the kind that the pending request asks for brings the run
/// nearer to its end, and leaves its options as they are.
pub proof fn theorem_answer_advances(session: Session, reply: Reply)
    requires
        session.pending().answered_by(reply),
    ensures
        session.after(reply).stage.rank() < session.stage.rank(),
        session.after(reply) == session.at(session.after(reply).stage),
{
}

/// Any other answer changes nothing, and no answer changes a run that is
/// over.
pub proof fn theorem_other_answer_is_ignored(session: Session, reply: Reply)
    requires
        !session.pending().answered_by(reply),
    ensures
        session.after(reply) == session,
{
}

/// A file system answers every request but the last in kind.
pub proof fn theorem_world_answers_in_kind(world: World, request: Request)
    requires
        !(request is Finish),
    ensures
        request.answered_by(world.answer(request)),
{
}

/// Every run ends, and ends once: its last request is to finish, and no
/// request before that one is.
pub proof fn theorem_run_ends(args: ArgsView, world: World)
    ensures
        ({
            let run = Session::begin(args).run(world);
            &&& 3 <= run.len() <= 10
            &&& run.last() is Finish
            &&& forall|i: int| 0 <= i < run.len() - 1 ==> !(#[trigger] run[i] is Finish)
        }),
{
    lemma_run_is_script(args, world);
}

/// The times of the target are set at most once, just before the run ends
/// well, and only where a time was asked for.
pub proof fn theorem_times_are_set_once(args: ArgsView, world: World, i: int)
    requires
        0 <= i < Session::begin(args).run(world).len(),
        Session::begin(args).run(world)[i] is SetTimes,
    ensures
        ({
            let run = Session::begin(args).run(world);
            &&& args.access || args.modify
            &&& i == run.len() - 2
            &&& ending(run) == Outcome::Success
        }),
{
    lemma_run_is_script(args, world);
}

/// Without `-c`, a target that is missing is created: the request to create
/// it follows the look at the target, whatever the other flags. The run then
/// goes on if the target is there, and else fails.
pub proof fn theorem_missing_target_is_created(args: ArgsView, world: World)
    requires
        !args.no_create,
        !world.target_exists,
    ensures
        ({
            let run = Session::begin(args).run(world);
            &&& run.take(4) == seq![
                Request::CreateProbe,
                Request::FindTarget,
                Request::CreateTarget,
                Request::ConfirmTarget,
            ]
            &&& ending(run) == Outcome::CreationFailure <==> !world.target_appears
        }),
{
    lemma_run_is_script(args, world);
    let run = Session::begin(args).run(world);
    assert(run.take(4) =~= seq![
        Request::CreateProbe,
        Request::FindTarget,
        Request::CreateTarget,
        Request::ConfirmTarget,
    ]);
}

/// With `-c`, a target that is missing is not created: the run looks for it
/// and fails with a non-zero exit code, whatever the other flags. No times
/// are set.
pub proof fn theorem_missing_target_is_not_created(args: ArgsView, world: World)
    requires
        args.no_create,
        !world.target_exists,
    ensures
        Session::begin(args).run(world) == seq![
            Request::CreateProbe,
            Request::FindTarget,
            Request::Finish(Outcome::CreationFailure),
        ],
        !Session::begin(args).run(world).contains(Request::CreateTarget),
        !sets_times(Session::begin(args).run(world)),
        ending(Session::begin(args).run(world)).code() != 0,
{
    lemma_run_is_script(args, world);
}

/// With `-c`, a target that exists is left as it is: the run looks at it and
/// ends well, whatever the other flags. Nothing is created and no times are
/// set.
pub proof fn theorem_existing_target_is_left_alone(args: ArgsView, world: World)
    requires
        args.no_create,
        world.target_exists,
    ensures
        Session::begin(args).run(world) == seq![
            Request::CreateProbe,
            Request::FindTarget,
            Request::Finish(Outcome::Success),
        ],
        !sets_times(Session::begin(args).run(world)),
        ending(Session::begin(args).run(world)).code() == 0,
{
    lemma_run_is_script(args, world);
}

/// With `-a` alone, the access time of a target that exists becomes that of
/// the probe file, and its modification time is written back as it was read.
pub proof fn theorem_access_alone_keeps_modification(
    args: ArgsView,
    world: World,
    current: Times,
    now: Times,
)
    requires
        world.target_exists,
        world.target_times == Some(current),
        world.probe_times == Some(now),
        args.access,
        !args.modify,
        !args.no_create,
        args.source is None,
    ensures
        Session::begin(args).run(world) == seq![
            Request::CreateProbe,
            Request::FindTarget,
            Request::ReadTarget,
            Request::ReadProbe,
            Request::SetTimes(Times { accessed: now.accessed, modified: current.modified }),
            Request::Finish(Outcome::Success),
        ],
{
    lemma_run_is_script(args, world);
}

/// With `-m` alone, the modification time of a target that exists becomes
/// that of the probe file, and its access time is written back as it was
/// read.
pub proof fn theorem_modify_alone_keeps_access(
    args: ArgsView,
    world: World,
    current: Times,
    now: Times,
)
    requires
        world.target_exists,
        world.target_times == Some(current),
        world.probe_times == Some(now),
        args.modify,
        !args.access,
        !args.no_create,
        args.source is None,
    ensures
        Session::begin(args).run(world) == seq![
            Request::CreateProbe,
            Request::FindTarget,
            Request::ReadTarget,
            Request::ReadProbe,
            Request::SetTimes(Times { accessed: current.accessed, modified: now.modified }),
            Request::Finish(Outcome::Success),
        ],
{
    lemma_run_is_script(args, world);
}

/// With `-a`, `-m` and a reference file that exists, both times of a target
/// that exists become those of the reference file.
pub proof fn theorem_reference_times_are_copied(args: ArgsView, world: World, copied: Times)
    requires
        world.target_exists,
        world.target_times is Some,
        world.probe_times is Some,
        world.reference_exists,
        world.reference_times == Some(copied),
        args.access,
        args.modify,
        !args.no_create,
        args.source is Some,
    ensures
        Session::begin(args).run(world) == seq![
            Request::CreateProbe,
            Request::FindTarget,
            Request::ReadTarget,
            Request::ReadProbe,
            Request::FindReference,
            Request::ReadReference,
            Request::SetTimes(copied),
            Request::Finish(Outcome::Success),
        ],
{
    lemma_run_is_script(args, world);
}

/// A reference file that is missing ends the run with a non-zero exit code,
/// and the target stays as it was: no times are set, and nothing is created.
/// This is said of a target that exists, is not left alone by `-c` and has
/// times that can be read, as those of the probe file can, so that the run
/// comes to look for the reference file; and of a target that is missing and
/// is not created, be it for `-c` or because the attempt fails, so that the
/// run fails before.
pub proof fn theorem_missing_reference_is_refused(args: ArgsView, world: World)
    requires
        args.source is Some,
        !world.reference_exists,
        world.target_exists ==> !args.no_create && world.target_times is Some
            && world.probe_times is Some,
        !world.target_exists ==> args.no_create || !world.target_appears,
    ensures
        ({
            let run = Session::begin(args).run(world);
            &&& ending(run).code() != 0
            &&& ending(run) == if world.target_exists {
                Outcome::Usage(UsageError::ReferenceUnreadable)
            } else {
                Outcome::CreationFailure
            }
            &&& !sets_times(run)
            &&& world.target_exists || args.no_create ==> !run.contains(Request::CreateTarget)
        }),
{
    lemma_run_is_script(args, world);
}

/// A reference file that is missing is found missing after the target was
/// created, too: where the target was missing and is there once it was
/// created, and its times and those of the probe file can be read, the run is
/// refused for the reference file, and no times are set.
pub proof fn theorem_missing_reference_is_refused_after_creation(args: ArgsView, world: World)
    requires
        args.source is Some,
        !world.reference_exists,
        !args.no_create,
        !world.target_exists,
        world.target_appears,
        world.target_times is Some,
        world.probe_times is Some,
    ensures
        Session::begin(args).run(world) == seq![
            Request::CreateProbe,
            Request::FindTarget,
            Request::CreateTarget,
            Request::ConfirmTarget,
            Request::ReadTarget,
            Request::ReadProbe,
            Request::FindReference,
            Request::Finish(Outcome::Usage(UsageError::ReferenceUnreadable)),
        ],
        ending(Session::begin(args).run(world)) == Outcome::Usage(UsageError::ReferenceUnreadable),
        ending(Session::begin(args).run(world)).code() != 0,
        !sets_times(Session::begin(args).run(world)),
{
    lemma_run_is_script(args, world);
}

/// With neither `-a` nor `-m`, no times are set; a target that is missing is
/// still created, unless `-c` forbids it.
pub proof fn theorem_no_times_unless_asked(args: ArgsView, world: World)
    requires
        !args.access,
        !args.modify,
    ensures
        !sets_times(Session::begin(args).run(world)),
        !world.target_exists && !args.no_create ==> Session::begin(args).run(world).contains(
            Request::CreateTarget,
        ),
{
    lemma_run_is_script(args, world);
    let run = Session::begin(args).run(world);
    if !world.target_exists && !args.no_create {
        assert(run[2] == Request::CreateTarget);
    }
}

} // verus!
