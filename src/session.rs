use vstd::prelude::*;
use vstd::utf8::encode_utf8;

use crate::invocation::{
    build_invocation, request_invocation, strings_view, variables_view, CompileRequest,
};
use crate::outcome::{decode_lossy, exit_reply, reply_of, CompileError, CompiledPdf, Reply};

verus! {

/// Where one request's compilation stands. Each stage is left at most once.
#[derive(PartialEq, Eq, Structural, Clone, Copy, Debug)]
pub enum Stage {
    InvocationBuilt,
    ProcessSpawned,
    InputWritten,
    Succeeded,
    TemplateFailed,
    InfrastructureFailed,
}

/// How writing the template to the compiler's input ended.
pub enum WriteOutcome {
    /// Every byte was written and the input closed.
    Written,
    /// The compiler closed its input before reading everything (a broken
    /// pipe): it exited early, and its exit status tells why.
    ChildClosedInput,
    /// Any other failure, with the system's description.
    Failed(String),
}

/// What the process runner reports back.
pub enum Event {
    /// The compiler could not be started; the system's description.
    SpawnFailed(String),
    Spawned,
    InputDone(WriteOutcome),
    /// Waiting for the compiler or reading its output failed.
    WaitFailed(String),
    /// The compiler exited; everything it wrote to its two output streams.
    Exited { succeeded: bool, stdout: Vec<u8>, stderr: Vec<u8> },
}

/// What the process runner is asked to do next.
pub enum Action {
    /// Write these bytes to the compiler's input and close it, while draining
    /// its output and diagnostics and waiting for it to exit.
    Exchange(Vec<u8>),
    /// Go on draining the output streams until the compiler exits.
    AwaitExit,
    /// Answer the request; the compiler, if still running, is released.
    Respond(Result<CompiledPdf, CompileError>),
}

/// One request's compilation, from the built invocation to its reply.
pub struct Session {
    stage: Stage,
    template: String,
}

pub open spec fn is_terminal(stage: Stage) -> bool {
    stage == Stage::Succeeded || stage == Stage::TemplateFailed || stage == Stage::InfrastructureFailed
}

/// The events that a stage can take: the spawn result while nothing runs, the
/// write result once the compiler runs, its exit after that; none at the end.
pub open spec fn accepts(stage: Stage, event: Event) -> bool {
    match stage {
        Stage::InvocationBuilt => event is SpawnFailed || event is Spawned,
        Stage::ProcessSpawned => event is InputDone,
        Stage::InputWritten => event is WaitFailed || event is Exited,
        _ => false,
    }
}

/// The stage that follows `stage` on an event that it accepts.
pub open spec fn next_stage(stage: Stage, event: Event) -> Stage {
    match event {
        Event::SpawnFailed(_) => Stage::InfrastructureFailed,
        Event::Spawned => Stage::ProcessSpawned,
        Event::InputDone(WriteOutcome::Failed(_)) => Stage::InfrastructureFailed,
        Event::InputDone(_) => Stage::InputWritten,
        Event::WaitFailed(_) => Stage::InfrastructureFailed,
        Event::Exited { succeeded, .. } => if succeeded {
            Stage::Succeeded
        } else {
            Stage::TemplateFailed
        },
    }
}

/// The reply that ends a request on `event`, for the events that end one.
pub open spec fn event_reply(event: Event) -> Reply {
    match event {
        Event::SpawnFailed(m) => Reply::Infrastructure(m@),
        Event::InputDone(WriteOutcome::Failed(m)) => Reply::Infrastructure(m@),
        Event::WaitFailed(m) => Reply::Infrastructure(m@),
        Event::Exited { succeeded, stdout, stderr } => exit_reply(succeeded, stdout@, stderr@),
        _ => Reply::Infrastructure(Seq::empty()),
    }
}

/// Compiling one template twice without variables hands the compiler the same
/// arguments and the same input bytes; since every reply is a function of the
/// events alone (see `Session::step`), any variation comes from the compiler.
pub proof fn lemma_compilation_deterministic(first: CompileRequest, second: CompileRequest)
    requires
        first.template@ == second.template@,
        first.jobs == second.jobs,
        variables_view(first.variables).len() == 0,
        variables_view(second.variables).len() == 0,
    ensures
        request_invocation(first) == request_invocation(second),
        encode_utf8(first.template@) == encode_utf8(second.template@),
{
    assert(variables_view(first.variables) =~= variables_view(second.variables));
}

impl Session {
    pub closed spec fn stage_spec(&self) -> Stage {
        self.stage
    }

    /// The document text this session feeds to the compiler.
    pub closed spec fn template_spec(&self) -> Seq<char> {
        self.template@
    }

    /// Takes a request and builds the compiler's arguments; the session then
    /// waits to hear whether the compiler started.
    pub fn start(request: CompileRequest) -> (r: (Session, Vec<String>))
        ensures
            r.0.stage_spec() == Stage::InvocationBuilt,
            r.0.template_spec() == request.template@,
            strings_view(r.1@) == request_invocation(request),
    {
        let args = build_invocation(&request);
        (Session { stage: Stage::InvocationBuilt, template: request.template }, args)
    }

    pub fn stage(&self) -> (r: Stage)
        ensures
            r == self.stage_spec(),
    {
        self.stage
    }

    pub fn accepts(&self, event: &Event) -> (r: bool)
        ensures
            r == accepts(self.stage_spec(), *event),
    {
        match self.stage {
            Stage::InvocationBuilt => match event {
                Event::SpawnFailed(_) | Event::Spawned => true,
                _ => false,
            },
            Stage::ProcessSpawned => match event {
                Event::InputDone(_) => true,
                _ => false,
            },
            Stage::InputWritten => match event {
                Event::WaitFailed(_) | Event::Exited { .. } => true,
                _ => false,
            },
            _ => false,
        }
    }

    /// Moves the session on by one event and says what to do next. Starting
    /// the compiler leads to the exchange of the template's UTF-8 bytes; a
    /// written input, or one the compiler closed early, leads to awaiting the
    /// exit; every failure and the exit lead to the reply.
    pub fn step(&mut self, event: Event) -> (action: Action)
        requires
            accepts(old(self).stage_spec(), event),
        ensures
            final(self).stage_spec() == next_stage(old(self).stage_spec(), event),
            final(self).template_spec() == old(self).template_spec(),
            is_terminal(final(self).stage_spec()) <==> action is Respond,
            event is Spawned ==> action is Exchange && action->Exchange_0@ == encode_utf8(
                old(self).template_spec(),
            ),
            final(self).stage_spec() == Stage::InputWritten ==> action is AwaitExit,
            action is Respond ==> reply_of(action->Respond_0) == event_reply(event),
    {
        match event {
            Event::SpawnFailed(m) => {
                self.stage = Stage::InfrastructureFailed;
                Action::Respond(Err(CompileError::IoError(m)))
            },
            Event::Spawned => {
                self.stage = Stage::ProcessSpawned;
                Action::Exchange(self.template.as_str().as_bytes_vec())
            },
            Event::InputDone(WriteOutcome::Failed(m)) => {
                self.stage = Stage::InfrastructureFailed;
                Action::Respond(Err(CompileError::IoError(m)))
            },
            Event::InputDone(_) => {
                self.stage = Stage::InputWritten;
                Action::AwaitExit
            },
            Event::WaitFailed(m) => {
                self.stage = Stage::InfrastructureFailed;
                Action::Respond(Err(CompileError::IoError(m)))
            },
            Event::Exited { succeeded, stdout, stderr } => {
                if succeeded {
                    self.stage = Stage::Succeeded;
                    Action::Respond(Ok(CompiledPdf(stdout)))
                } else {
                    self.stage = Stage::TemplateFailed;
                    Action::Respond(Err(CompileError::InvalidTemplate(decode_lossy(&stderr))))
                }
            },
        }
    }
}

} // verus!
