//! One run of the tool, as a sequence of requests to the file system.
//!
//! The session decides; its driver acts. The driver performs the request
//! that is pending, hands the file system's answer to [`Session::step`], and
//! goes on until the request is [`Request::Finish`].

use vstd::prelude::*;
use crate::args::Args;
use crate::args::ArgsView;
use crate::error::UsageError;
use crate::times::Times;
use crate::times::chosen;
use crate::times::choose_times;

verus! {

/// How a run ends.
#[derive(Clone, Copy, Debug, PartialEq, Eq, Structural)]
pub enum Outcome {
    /// Everything asked for was done.
    Success,
    /// The target did not exist and is not there now: `-c` forbade its
    /// creation, or the attempt to create it did not bring it about.
    CreationFailure,
    /// The run was refused.
    Usage(UsageError),
}

impl Outcome {
    /// The exit code of the process: zero for success only.
    pub open spec fn code(self) -> int {
        if self is Success {
            0
        } else {
            1
        }
    }

    /// Computes [`Outcome::code`].
    pub fn exit_code(&self) -> (code: i32)
        ensures
            code == self.code(),
    {
        match self {
            Outcome::Success => 0,
            _ => 1,
        }
    }
}

/// What the driver is to do next.
#[derive(Clone, Copy, Debug, PartialEq, Eq)]
pub enum Request {
    /// Create the probe file, whose times stand for the present moment.
    /// Answered by [`Reply::Done`].
    CreateProbe,
    /// Find out whether the target exists. Answered by [`Reply::Exists`].
    FindTarget,
    /// Try to create the target as an empty file; whether that works does not
    /// matter here. Answered by [`Reply::Done`].
    CreateTarget,
    /// Find out whether the target exists now. Answered by [`Reply::Exists`].
    ConfirmTarget,
    /// Read the times of the target. Answered by [`Reply::Times`], or by
    /// [`Reply::Unreadable`] where they cannot be read.
    ReadTarget,
    /// Read the times of the probe file. Answered as [`Request::ReadTarget`]
    /// is.
    ReadProbe,
    /// Find out whether the reference file exists. Answered by
    /// [`Reply::Exists`].
    FindReference,
    /// Read the times of the reference file. Answered as
    /// [`Request::ReadTarget`] is.
    ReadReference,
    /// Set the times of the target to these; whether that works does not
    /// matter. Answered by [`Reply::Done`].
    SetTimes(Times),
    /// Stop: the run is over and ends in this way.
    Finish(Outcome),
}

/// What the file system answered to a request.
#[derive(Clone, Copy, Debug, PartialEq, Eq)]
pub enum Reply {
    /// The request was carried out.
    Done,
    /// Whether the file exists.
    Exists(bool),
    /// The times of the file.
    Times(Times),
    /// The times of the file could not be read.
    Unreadable,
}

impl Request {
    /// Whether the reply is of the kind that answers the request. Nothing
    /// answers the request to finish.
    pub open spec fn answered_by(self, reply: Reply) -> bool {
        match self {
            Request::CreateProbe | Request::CreateTarget | Request::SetTimes(_) => reply is Done,
            Request::FindTarget | Request::ConfirmTarget | Request::FindReference => reply is Exists,
            Request::ReadTarget | Request::ReadProbe | Request::ReadReference => reply is Times
                || reply is Unreadable,
            Request::Finish(_) => false,
        }
    }
}

/// How far a run has come: what it waits for and what it has learnt.
#[derive(Clone, Copy, Debug, PartialEq, Eq)]
pub enum Stage {
    /// Waits for the probe file.
    Probe,
    /// Waits to learn whether the target exists.
    Lookup,
    /// Waits for the attempt to create the target.
    Creation,
    /// Waits to learn whether the target exists after that attempt.
    Confirmation,
    /// Waits for the target's own times.
    TargetTimes,
    /// Knows the target's times; waits for those of the probe file.
    ProbeTimes { current: Times },
    /// Waits to learn whether the reference file exists.
    ReferenceLookup { current: Times },
    /// Waits for the times of the reference file.
    ReferenceTimes { current: Times },
    /// Waits for the times to be set.
    Update { times: Times },
    /// Over.
    End(Outcome),
}

/// A run of the tool: the options that steer it and the stage it has reached.
#[derive(Clone, Copy, Debug, PartialEq, Eq)]
pub struct Session {
    /// Change the access time.
    pub access: bool,
    /// Create nothing: leave a target that exists as it is, and fail on one
    /// that is missing.
    pub no_create: bool,
    /// Change the modification time.
    pub modify: bool,
    /// Take the new times from a reference file.
    pub reference: bool,
    /// How far the run has come.
    pub stage: Stage,
}

impl Session {
    /// The run that the options ask for, before anything is done.
    pub open spec fn begin(args: ArgsView) -> Session {
        Session {
            access: args.access,
            no_create: args.no_create,
            modify: args.modify,
            reference: args.source is Some,
            stage: Stage::Probe,
        }
    }

    /// The request that the run waits for.
    pub open spec fn pending(self) -> Request {
        match self.stage {
            Stage::Probe => Request::CreateProbe,
            Stage::Lookup => Request::FindTarget,
            Stage::Creation => Request::CreateTarget,
            Stage::Confirmation => Request::ConfirmTarget,
            Stage::TargetTimes => Request::ReadTarget,
            Stage::ProbeTimes { .. } => Request::ReadProbe,
            Stage::ReferenceLookup { .. } => Request::FindReference,
            Stage::ReferenceTimes { .. } => Request::ReadReference,
            Stage::Update { times } => Request::SetTimes(times),
            Stage::End(outcome) => Request::Finish(outcome),
        }
    }

    /// The run at another stage.
    pub open spec fn at(self, stage: Stage) -> Session {
        Session { stage, ..self }
    }

    /// The stage that follows once the target's times `current` and the new
    /// times `fresh` are known: the update, if a time was asked for, else the
    /// end.
    pub open spec fn settled(self, current: Times, fresh: Times) -> Stage {
        match chosen(self.access, self.modify, current, fresh) {
            Some(times) => Stage::Update { times },
            None => Stage::End(Outcome::Success),
        }
    }

    /// The run after the answer to its pending request. With `-c` the look at
    /// the target ends the run: well if the target exists, and as a failure
    /// if it is missing. Times that cannot be read end the run there, without
    /// a complaint and without an update. An answer of another kind than the
    /// request asks for changes nothing, and neither does any answer once the
    /// run is over.
    pub open spec fn after(self, reply: Reply) -> Session {
        match (self.stage, reply) {
            (Stage::Probe, Reply::Done) => self.at(Stage::Lookup),
            (Stage::Lookup, Reply::Exists(true)) => if self.no_create {
                self.at(Stage::End(Outcome::Success))
            } else {
                self.at(Stage::TargetTimes)
            },
            (Stage::Lookup, Reply::Exists(false)) => if self.no_create {
                self.at(Stage::End(Outcome::CreationFailure))
            } else {
                self.at(Stage::Creation)
            },
            (Stage::Creation, Reply::Done) => self.at(Stage::Confirmation),
            (Stage::Confirmation, Reply::Exists(true)) => self.at(Stage::TargetTimes),
            (Stage::Confirmation, Reply::Exists(false)) => self.at(
                Stage::End(Outcome::CreationFailure),
            ),
            (Stage::TargetTimes, Reply::Times(current)) => self.at(Stage::ProbeTimes { current }),
            (Stage::ProbeTimes { current }, Reply::Times(fresh)) => if self.reference {
                self.at(Stage::ReferenceLookup { current })
            } else {
                self.at(self.settled(current, fresh))
            },
            (Stage::ReferenceLookup { current }, Reply::Exists(true)) => self.at(
                Stage::ReferenceTimes { current },
            ),
            (Stage::ReferenceLookup { .. }, Reply::Exists(false)) => self.at(
                Stage::End(Outcome::Usage(UsageError::ReferenceUnreadable)),
            ),
            (Stage::ReferenceTimes { current }, Reply::Times(fresh)) => self.at(
                self.settled(current, fresh),
            ),
            (Stage::Update { .. }, Reply::Done) => self.at(Stage::End(Outcome::Success)),
            (Stage::TargetTimes, Reply::Unreadable) => self.at(Stage::End(Outcome::Success)),
            (Stage::ProbeTimes { .. }, Reply::Unreadable) => self.at(Stage::End(Outcome::Success)),
            (Stage::ReferenceTimes { .. }, Reply::Unreadable) => self.at(
                Stage::End(Outcome::Success),
            ),
            _ => self,
        }
    }

    /// Begins the run that the options ask for.
    pub fn new(args: &Args) -> (session: Session)
        ensures
            session == Session::begin(args@),
    {
        Session {
            access: args.access,
            no_create: args.no_create,
            modify: args.modify,
            reference: args.source.is_some(),
            stage: Stage::Probe,
        }
    }

    /// The request that the driver is to perform now.
    pub fn request(&self) -> (request: Request)
        ensures
            request == self.pending(),
    {
        match self.stage {
            Stage::Probe => Request::CreateProbe,
            Stage::Lookup => Request::FindTarget,
            Stage::Creation => Request::CreateTarget,
            Stage::Confirmation => Request::ConfirmTarget,
            Stage::TargetTimes => Request::ReadTarget,
            Stage::ProbeTimes { .. } => Request::ReadProbe,
            Stage::ReferenceLookup { .. } => Request::FindReference,
            Stage::ReferenceTimes { .. } => Request::ReadReference,
            Stage::Update { times } => Request::SetTimes(times),
            Stage::End(outcome) => Request::Finish(outcome),
        }
    }

    /// Takes the answer to the pending request and moves on.
    pub fn step(self, reply: Reply) -> (next: Session)
        ensures
            next == self.after(reply),
    {
        let stage = match (self.stage, reply) {
            (Stage::Probe, Reply::Done) => Stage::Lookup,
            (Stage::Lookup, Reply::Exists(exists)) => if self.no_create {
                if exists {
                    Stage::End(Outcome::Success)
                } else {
                    Stage::End(Outcome::CreationFailure)
                }
            } else if exists {
                Stage::TargetTimes
            } else {
                Stage::Creation
            },
            (Stage::Creation, Reply::Done) => Stage::Confirmation,
            (Stage::Confirmation, Reply::Exists(exists)) => if exists {
                Stage::TargetTimes
            } else {
                Stage::End(Outcome::CreationFailure)
            },
            (Stage::TargetTimes, Reply::Times(current)) => Stage::ProbeTimes { current },
            (Stage::ProbeTimes { current }, Reply::Times(fresh)) => if self.reference {
                Stage::ReferenceLookup { current }
            } else {
                self.settle(current, fresh)
            },
            (Stage::ReferenceLookup { current }, Reply::Exists(exists)) => if exists {
                Stage::ReferenceTimes { current }
            } else {
                Stage::End(Outcome::Usage(UsageError::ReferenceUnreadable))
            },
            (Stage::ReferenceTimes { current }, Reply::Times(fresh)) => self.settle(current, fresh),
            (Stage::Update { .. }, Reply::Done) => Stage::End(Outcome::Success),
            (Stage::TargetTimes, Reply::Unreadable) => Stage::End(Outcome::Success),
            (Stage::ProbeTimes { .. }, Reply::Unreadable) => Stage::End(Outcome::Success),
            (Stage::ReferenceTimes { .. }, Reply::Unreadable) => Stage::End(Outcome::Success),
            (stage, _) => stage,
        };
        Session { stage, ..self }
    }

    /// Computes [`Session::settled`].
    fn settle(&self, current: Times, fresh: Times) -> (stage: Stage)
        ensures
            stage == self.settled(current, fresh),
    {
        match choose_times(self.access, self.modify, current, fresh) {
            Some(times) => Stage::Update { times },
            None => Stage::End(Outcome::Success),
        }
    }
}

} // verus!
