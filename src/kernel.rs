use vstd::prelude::*;

use crate::integrator::RenderProgress;

verus! {

/// A command from the control loop to the render worker.
#[derive(Debug, Clone, Copy, PartialEq, Eq, Structural)]
pub enum KernelCommand {
    /// Begin rendering.
    Start,
    /// Render again from scratch, after the camera moved.
    Restart,
    /// Shut the worker down.
    Finish,
}

/// A single-slot mailbox between the control loop and the render worker.
///
/// A new command replaces a pending one, so rapid camera moves collapse into one restart.
#[derive(Debug)]
pub struct Mailbox {
    slot: Option<KernelCommand>,
}

impl Mailbox {
    /// The command waiting to be taken, if any.
    pub closed spec fn pending(&self) -> Option<KernelCommand> {
        self.slot
    }

    /// An empty mailbox.
    pub fn new() -> (r: Self)
        ensures
            r.pending() is None,
    {
        Mailbox { slot: None }
    }

    /// Leaves `cmd` in the slot, replacing whatever was pending; `None` withdraws it.
    pub fn post(&mut self, cmd: Option<KernelCommand>)
        ensures
            final(self).pending() == cmd,
    {
        self.slot = cmd;
    }

    /// Whether a command is waiting; the worker sleeps while none is.
    pub fn has_command(&self) -> (r: bool)
        ensures
            r == self.pending() is Some,
    {
        self.slot.is_some()
    }

    /// Takes the pending command out of the slot.
    pub fn take(&mut self) -> (r: Option<KernelCommand>)
        ensures
            r == old(self).pending(),
            final(self).pending() is None,
    {
        let r = self.slot;
        self.slot = None;
        r
    }
}

/// What the render worker is doing.
#[derive(Debug, Clone, Copy, PartialEq, Eq, Structural)]
pub enum WorkerState {
    /// Blocked on the mailbox before the first render: only a start begins one.
    Idle,
    /// Blocked on the mailbox after a render returned.
    Waiting,
    /// Running a render; the control loop may ask it to stop early.
    Rendering,
    /// Shut down for good.
    Stopped,
}

/// The state a blocked worker, in state `from`, moves to on taking `cmd` from the mailbox.
///
/// Before its first render the worker begins only on a start; a restart then is dropped.
/// After a render, a start or a restart begins the next one. A finish always stops it.
pub open spec fn after_command(from: WorkerState, cmd: Option<KernelCommand>) -> WorkerState {
    match cmd {
        None => from,
        Some(KernelCommand::Start) => WorkerState::Rendering,
        Some(KernelCommand::Restart) => if from == WorkerState::Idle {
            WorkerState::Idle
        } else {
            WorkerState::Rendering
        },
        Some(KernelCommand::Finish) => WorkerState::Stopped,
    }
}

/// The decisions of the render worker, apart from the waiting and the rendering themselves.
#[derive(Debug)]
pub struct Worker {
    state: WorkerState,
}

impl Worker {
    pub closed spec fn state(&self) -> WorkerState {
        self.state
    }

    /// A worker waiting for its first start.
    pub fn new() -> (r: Self)
        ensures
            r.state() == WorkerState::Idle,
    {
        Worker { state: WorkerState::Idle }
    }

    /// What the worker is doing now.
    pub fn current(&self) -> (r: WorkerState)
        ensures
            r == self.state(),
    {
        self.state
    }

    /// Acts on a command taken from the mailbox: `Start` begins a render, and so does
    /// `Restart` once a render has run; the caller clears the termination request first.
    /// `Finish` stops the worker; no command, or a restart before any start, leaves it
    /// blocked. Returns whether a render is to begin.
    pub fn on_command(&mut self, cmd: Option<KernelCommand>) -> (r: bool)
        requires
            old(self).state() == WorkerState::Idle || old(self).state() == WorkerState::Waiting,
        ensures
            final(self).state() == after_command(old(self).state(), cmd),
            r == (final(self).state() == WorkerState::Rendering),
            old(self).state() == WorkerState::Idle ==> (r <==> cmd == Some(KernelCommand::Start)),
    {
        match cmd {
            None => false,
            Some(KernelCommand::Start) => {
                self.state = WorkerState::Rendering;
                true
            },
            Some(KernelCommand::Restart) => {
                if self.state == WorkerState::Idle {
                    false
                } else {
                    self.state = WorkerState::Rendering;
                    true
                }
            },
            Some(KernelCommand::Finish) => {
                self.state = WorkerState::Stopped;
                false
            },
        }
    }

    /// Records that the render returned, finished or cut short: the worker waits again.
    pub fn on_render_returned(&mut self)
        requires
            old(self).state() == WorkerState::Rendering,
        ensures
            final(self).state() == WorkerState::Waiting,
    {
        self.state = WorkerState::Waiting;
    }
}

/// Something the user did in the control loop.
#[derive(Debug, Clone, Copy, PartialEq, Eq, Structural)]
pub enum ControlEvent {
    StartPressed,
    PausePressed,
    CameraMoved,
    WindowClosed,
}

/// How the control loop answers an event: whether it asks the running render to stop, and
/// what it leaves in the mailbox (`None` withdraws a pending command).
#[derive(Debug, Clone, Copy, PartialEq, Eq, Structural)]
pub struct Reaction {
    pub request_termination: bool,
    pub post: Option<KernelCommand>,
}

/// The control loop's answer to `event`; camera moves count only once a render has begun.
pub open spec fn reaction_to(event: ControlEvent, render_started: bool) -> Option<Reaction> {
    match event {
        ControlEvent::StartPressed => Some(
            Reaction { request_termination: false, post: Some(KernelCommand::Start) },
        ),
        ControlEvent::PausePressed => Some(Reaction { request_termination: true, post: None }),
        ControlEvent::CameraMoved => if render_started {
            Some(Reaction { request_termination: true, post: Some(KernelCommand::Restart) })
        } else {
            None
        },
        ControlEvent::WindowClosed => Some(
            Reaction { request_termination: true, post: Some(KernelCommand::Finish) },
        ),
    }
}

/// The control loop's answer to `event`, or `None` when the event is ignored.
pub fn react(event: ControlEvent, render_started: bool) -> (r: Option<Reaction>)
    ensures
        r == reaction_to(event, render_started),
{
    match event {
        ControlEvent::StartPressed => Some(
            Reaction { request_termination: false, post: Some(KernelCommand::Start) },
        ),
        ControlEvent::PausePressed => Some(Reaction { request_termination: true, post: None }),
        ControlEvent::CameraMoved => {
            if render_started {
                Some(Reaction { request_termination: true, post: Some(KernelCommand::Restart) })
            } else {
                None
            }
        },
        ControlEvent::WindowClosed => Some(
            Reaction { request_termination: true, post: Some(KernelCommand::Finish) },
        ),
    }
}

/// A camera move while a render is under way cancels it and restarts it: the render runs
/// no further pass, so it returns before completing the passes it was asked for; the move
/// leaves a restart in the mailbox, so the worker's wait ends; and taking that restart
/// begins a new render.
pub proof fn lemma_move_cancels_and_restarts(p: RenderProgress, m: Mailbox)
    requires
        p.wf(),
        p.done() < p.total(),
        m.pending() == reaction_to(ControlEvent::CameraMoved, true).unwrap().post,
    ensures
        reaction_to(ControlEvent::CameraMoved, true) is Some,
        reaction_to(ControlEvent::CameraMoved, true).unwrap().request_termination,
        p.next_pass(true) is None,
        p.done() < p.total(),
        m.pending() == Some(KernelCommand::Restart),
        after_command(WorkerState::Waiting, m.pending()) == WorkerState::Rendering,
{
}

/// The worker never renders before a start: from the first wait only a start begins a
/// render. After a render, every command ends the wait: a start or a restart begins the
/// next render, and a finish stops the worker for good.
pub proof fn lemma_commands_end_wait(cmd: KernelCommand)
    ensures
        after_command(WorkerState::Idle, Some(cmd)) == WorkerState::Rendering <==> cmd
            == KernelCommand::Start,
        after_command(WorkerState::Waiting, Some(cmd)) != WorkerState::Waiting,
        after_command(WorkerState::Waiting, Some(cmd)) == WorkerState::Stopped <==> cmd
            == KernelCommand::Finish,
{
}

} // verus!
