//! Deferred command queue.
//!
//! Commands are heterogeneous deferred operations staged now and replayed
//! later, in the same synchronous call, against a shared store. The queue is
//! built directly on the type-erased buffer: each staged command is one
//! record, its payload bytes beside a [`CommandMeta`] naming the dispatch
//! operation and the failure handler.
//!
//! Per command the life cycle is: pending (no handler yet), registered (a
//! handler attached, explicitly through [`FallibleCommandConfig::on_err`] or
//! implicitly, defaulting to log-and-continue, at the terminal submission
//! step), applied (dispatched during an apply pass, the handler consulted if
//! and only if dispatch failed). No command reaches the queue unregistered,
//! and no transition skips registration.

use vstd::prelude::*;

use crate::type_erased::TypeErasedVec;

verus! {

/// Which handler a staged command's failure is routed to.
#[derive(Clone, Copy, Debug, PartialEq, Eq, Structural)]
pub enum HandlerKind {
    /// Emit one diagnostic record for the failure and continue: the default.
    Log,
    /// Raise a fatal fault that aborts the apply pass: opt-in strict mode.
    Panic,
    /// Discard the failure with no visible trace.
    Ignore,
    /// Route the failure to the caller-supplied handler carrying this tag.
    Custom(u64),
}

/// Builtin command error handlers.
pub struct CommandErrorHandler;

impl CommandErrorHandler {
    /// If the command failed, log the error and continue. This is the default
    /// behavior if no error handler is attached.
    pub fn log() -> (h: HandlerKind)
        ensures
            h == HandlerKind::Log,
    {
        HandlerKind::Log
    }

    /// If the command failed, raise a fatal fault that aborts the apply pass.
    pub fn panic() -> (h: HandlerKind)
        ensures
            h == HandlerKind::Panic,
    {
        HandlerKind::Panic
    }

    /// If the command failed, ignore the error and silently succeed.
    pub fn ignore() -> (h: HandlerKind)
        ensures
            h == HandlerKind::Ignore,
    {
        HandlerKind::Ignore
    }
}

/// Where in its apply pass a command stood: handed to the handler beside the
/// failure value, so a diagnostic can name the failing command.
#[derive(Clone, Copy, Debug, PartialEq, Eq, Structural)]
pub struct CommandContext {
    pub index: usize,
}

/// A broken caller invariant: fatal by design, never recoverable.
#[derive(Clone, Copy, Debug, PartialEq, Eq, Structural)]
pub enum FatalFault {
    /// A handler was attached to a command that already had one.
    HandlerAlreadyAttached,
    /// A failure was routed to the abort handler during an apply pass.
    AbortHandlerFired { ctx: CommandContext },
}

/// What the queue stores beside each command's payload: which operation
/// dispatches it, and where its failure is routed.
#[derive(Clone, Copy, Debug, PartialEq, Eq, Structural)]
pub struct CommandMeta {
    pub operation: u64,
    pub handler: HandlerKind,
}

/// A sink that accepts staged commands: payload bytes plus the metadata that
/// tells an apply pass how to dispatch the command and where to route its
/// failure.
pub trait AddCommand {
    /// The commands staged so far, in insertion order.
    spec fn staged(&self) -> Seq<(Seq<u8>, CommandMeta)>;

    /// Stages one command after every previously staged one.
    fn add_command(&mut self, payload: Vec<u8>, meta: CommandMeta)
        ensures
            final(self).staged() == old(self).staged().push((payload@, meta)),
    ;
}

/// The shared store's single mutation entry point: applies the command
/// described by `operation` and its erased payload, returning `None` on
/// success or `Some` failure value. Implemented by the caller; this core
/// assumes nothing about what an implementation does.
pub trait CommandStore<E> {
    fn dispatch(&mut self, operation: u64, payload: Vec<u8>) -> Option<E>;
}

/// One entry of an apply pass's trace: which command ran (by queue position),
/// with which operation and handler, and its failure value if dispatch
/// failed. The caller performs the handler's visible effect (emitting the
/// diagnostic for a logged failure, invoking the tagged custom handler) from
/// this trace, each failure routed exactly once.
#[derive(Debug)]
pub struct ApplyRecord<E> {
    pub context: CommandContext,
    pub operation: u64,
    pub handler: HandlerKind,
    pub failure: Option<E>,
}

/// The outcome of one apply pass: the per-command trace, and the fatal fault
/// if a failure reached the abort handler.
#[derive(Debug)]
pub struct ApplyReport<E> {
    pub records: Vec<ApplyRecord<E>>,
    pub fault: Option<FatalFault>,
}

/// The record is the trace of command `i`: right position, and the command's
/// own operation and handler.
pub open spec fn record_traces<E>(
    rec: ApplyRecord<E>,
    cmd: (Seq<u8>, CommandMeta),
    i: int,
) -> bool {
    &&& rec.context.index == i
    &&& rec.operation == cmd.1.operation
    &&& rec.handler == cmd.1.handler
}

/// Routes one dispatch outcome: builds the trace record for the command at
/// `index`, carrying its failure (if any) to the handler staged beside the
/// command, and decides whether the pass aborts — exactly when a failure was
/// routed to the abort handler, and never otherwise.
pub fn route_outcome<E>(meta: CommandMeta, index: usize, failure: Option<E>) -> (r: (
    ApplyRecord<E>,
    Option<FatalFault>,
))
    ensures
        r.0.context.index == index,
        r.0.operation == meta.operation,
        r.0.handler == meta.handler,
        r.0.failure == failure,
        r.1 == (if meta.handler == HandlerKind::Panic && failure is Some {
            Some(FatalFault::AbortHandlerFired { ctx: CommandContext { index } })
        } else {
            None::<FatalFault>
        }),
{
    let aborts = match meta.handler {
        HandlerKind::Panic => failure.is_some(),
        _ => false,
    };
    let record = ApplyRecord {
        context: CommandContext { index },
        operation: meta.operation,
        handler: meta.handler,
        failure,
    };
    if aborts {
        (record, Some(FatalFault::AbortHandlerFired { ctx: CommandContext { index } }))
    } else {
        (record, None)
    }
}

/// The deferred command queue: stages command payloads with their dispatch
/// and failure-routing metadata, and replays them in first-in-first-out
/// order. Its view (`@`) is the staged commands, oldest first.
pub struct CommandQueue {
    buffer: TypeErasedVec<CommandMeta>,
}

impl View for CommandQueue {
    type V = Seq<(Seq<u8>, CommandMeta)>;

    closed spec fn view(&self) -> Seq<(Seq<u8>, CommandMeta)> {
        self.buffer@
    }
}

impl CommandQueue {
    /// An empty queue.
    pub fn new() -> (q: Self)
        ensures
            q@ == Seq::<(Seq<u8>, CommandMeta)>::empty(),
    {
        CommandQueue { buffer: TypeErasedVec::new() }
    }

    /// Staged-command count.
    pub fn len(&self) -> (n: usize)
        ensures
            n == self@.len(),
    {
        self.buffer.len()
    }

    /// True exactly when nothing is staged.
    pub fn is_empty(&self) -> (r: bool)
        ensures
            r == (self@.len() == 0),
    {
        self.buffer.is_empty()
    }

    /// Cancels every staged-but-unapplied command: irreversible, and silently
    /// discards the pending work.
    pub fn clear(&mut self)
        ensures
            final(self)@ == Seq::<(Seq<u8>, CommandMeta)>::empty(),
    {
        self.buffer.clear();
    }

    /// Replays every staged command against `store`, in insertion order, each
    /// dispatched exactly once; the queue is empty afterwards. The returned
    /// trace has one record per dispatched command, carrying its failure (if
    /// any) to the handler named beside it, so each failure is routed exactly
    /// once and one command's failure never keeps the remaining commands from
    /// applying. The one exception is the abort handler: a failure routed to
    /// it raises a fatal fault, the pass stops there, and the commands staged
    /// after the faulting one are discarded undispatched.
    pub fn apply_all<E, S: CommandStore<E>>(&mut self, store: &mut S) -> (report: ApplyReport<E>)
        ensures
            final(self)@ == Seq::<(Seq<u8>, CommandMeta)>::empty(),
            ({
                let cmds = old(self)@;
                match report.fault {
                    None => {
                        &&& report.records@.len() == cmds.len()
                        &&& forall|i: int|
                            0 <= i < cmds.len() ==> record_traces(
                                #[trigger] report.records@[i],
                                cmds[i],
                                i,
                            )
                        &&& forall|i: int|
                            0 <= i < cmds.len() ==> !((#[trigger] report.records@[i]).handler
                                == HandlerKind::Panic && report.records@[i].failure is Some)
                    },
                    Some(fault) => {
                        &&& fault matches FatalFault::AbortHandlerFired { ctx }
                        &&& ctx.index < cmds.len()
                        &&& report.records@.len() == ctx.index + 1
                        &&& forall|i: int|
                            0 <= i <= ctx.index ==> record_traces(
                                #[trigger] report.records@[i],
                                cmds[i],
                                i,
                            )
                        &&& report.records@[ctx.index as int].handler == HandlerKind::Panic
                        &&& report.records@[ctx.index as int].failure is Some
                        &&& forall|i: int|
                            0 <= i < ctx.index ==> !((#[trigger] report.records@[i]).handler
                                == HandlerKind::Panic && report.records@[i].failure is Some)
                    },
                }
            }),
    {
        let ghost cmds = self@;
        let mut pending = self.buffer.drain();
        let mut records: Vec<ApplyRecord<E>> = Vec::new();
        let mut fault: Option<FatalFault> = None;
        while pending.len() > 0 && fault.is_none()
            invariant
                records@.len() + pending@.len() == cmds.len(),
                forall|i: int|
                    0 <= i < pending@.len() ==> (#[trigger] pending@[i]).0@ == cmds[records@.len()
                        + i].0 && pending@[i].1 == cmds[records@.len() + i].1,
                forall|i: int|
                    0 <= i < records@.len() ==> record_traces(
                        #[trigger] records@[i],
                        cmds[i],
                        i,
                    ),
                match fault {
                    None => forall|i: int|
                        0 <= i < records@.len() ==> !((#[trigger] records@[i]).handler
                            == HandlerKind::Panic && records@[i].failure is Some),
                    Some(f) => {
                        &&& f matches FatalFault::AbortHandlerFired { ctx }
                        &&& records@.len() > 0
                        &&& ctx.index + 1 == records@.len()
                        &&& records@[ctx.index as int].handler == HandlerKind::Panic
                        &&& records@[ctx.index as int].failure is Some
                        &&& forall|i: int|
                            0 <= i < ctx.index ==> !((#[trigger] records@[i]).handler
                                == HandlerKind::Panic && records@[i].failure is Some)
                    },
                },
            decreases pending@.len(),
        {
            let index = records.len();
            let (payload, meta) = pending.remove(0);
            let failure = store.dispatch(meta.operation, payload);
            let (record, aborted) = route_outcome(meta, index, failure);
            records.push(record);
            fault = aborted;
        }
        ApplyReport { records, fault }
    }
}

impl AddCommand for CommandQueue {
    open spec fn staged(&self) -> Seq<(Seq<u8>, CommandMeta)> {
        self@
    }

    fn add_command(&mut self, payload: Vec<u8>, meta: CommandMeta) {
        self.buffer.push(payload, meta);
    }
}

/// Staging object for one fallible command: holds the command's payload and
/// dispatch operation, and at most one failure handler, until the required
/// terminal submission step hands the command to a queue.
pub struct FallibleCommandConfig {
    payload: Vec<u8>,
    operation: u64,
    handler: Option<HandlerKind>,
}

/// Like [`FallibleCommandConfig`], for the last command of a chain: the
/// terminal staging object hands nothing back for further chaining. Its
/// handler and submission semantics are identical.
pub struct FinalFallibleCommandConfig {
    payload: Vec<u8>,
    operation: u64,
    handler: Option<HandlerKind>,
}

impl FallibleCommandConfig {
    /// The payload staged in this object.
    pub closed spec fn staged_payload(&self) -> Seq<u8> {
        self.payload@
    }

    /// The dispatch operation staged in this object.
    pub closed spec fn staged_operation(&self) -> u64 {
        self.operation
    }

    /// The handler attached so far, if any: `None` is the pending state.
    pub closed spec fn attached_handler(&self) -> Option<HandlerKind> {
        self.handler
    }

    /// Stages one command, pending: no handler attached yet.
    pub fn new(payload: Vec<u8>, operation: u64) -> (c: Self)
        ensures
            c.staged_payload() == payload@,
            c.staged_operation() == operation,
            c.attached_handler() is None,
    {
        FallibleCommandConfig { payload, operation, handler: None }
    }

    /// Attaches the failure handler, normally one of
    /// [`CommandErrorHandler`]'s. Allowed exactly once per command: a second
    /// attempt is a programmer error and raises a fatal fault, and no second
    /// attachment is recorded.
    pub fn on_err(&mut self, handler: HandlerKind) -> (r: Result<(), FatalFault>)
        ensures
            final(self).staged_payload() == old(self).staged_payload(),
            final(self).staged_operation() == old(self).staged_operation(),
            match old(self).attached_handler() {
                None => r is Ok && final(self).attached_handler() == Some(handler),
                Some(h) => r == Err::<(), FatalFault>(FatalFault::HandlerAlreadyAttached)
                    && final(self).attached_handler() == Some(h),
            },
    {
        match self.handler {
            None => {
                self.handler = Some(handler);
                Ok(())
            },
            Some(_) => Err(FatalFault::HandlerAlreadyAttached),
        }
    }

    /// The required terminal step: hands the command to `sink`. If no handler
    /// was attached by now, the default log-and-continue handler is attached
    /// at this moment, so the command reaches the queue registered either
    /// way.
    pub fn submit<T: AddCommand>(self, sink: &mut T)
        ensures
            final(sink).staged() == old(sink).staged().push(
                (
                    self.staged_payload(),
                    (CommandMeta {
                        operation: self.staged_operation(),
                        handler: match self.attached_handler() {
                            Some(h) => h,
                            None => HandlerKind::Log,
                        },
                    }),
                ),
            ),
    {
        let FallibleCommandConfig { payload, operation, handler } = self;
        let handler = match handler {
            Some(h) => h,
            None => HandlerKind::Log,
        };
        sink.add_command(payload, CommandMeta { operation, handler });
    }
}

impl FinalFallibleCommandConfig {
    /// The payload staged in this object.
    pub closed spec fn staged_payload(&self) -> Seq<u8> {
        self.payload@
    }

    /// The dispatch operation staged in this object.
    pub closed spec fn staged_operation(&self) -> u64 {
        self.operation
    }

    /// The handler attached so far, if any: `None` is the pending state.
    pub closed spec fn attached_handler(&self) -> Option<HandlerKind> {
        self.handler
    }

    /// Stages one command, pending: no handler attached yet.
    pub fn new(payload: Vec<u8>, operation: u64) -> (c: Self)
        ensures
            c.staged_payload() == payload@,
            c.staged_operation() == operation,
            c.attached_handler() is None,
    {
        FinalFallibleCommandConfig { payload, operation, handler: None }
    }

    /// Attaches the failure handler. Allowed exactly once per command: a
    /// second attempt is a programmer error and raises a fatal fault, and no
    /// second attachment is recorded.
    pub fn on_err(&mut self, handler: HandlerKind) -> (r: Result<(), FatalFault>)
        ensures
            final(self).staged_payload() == old(self).staged_payload(),
            final(self).staged_operation() == old(self).staged_operation(),
            match old(self).attached_handler() {
                None => r is Ok && final(self).attached_handler() == Some(handler),
                Some(h) => r == Err::<(), FatalFault>(FatalFault::HandlerAlreadyAttached)
                    && final(self).attached_handler() == Some(h),
            },
    {
        match self.handler {
            None => {
                self.handler = Some(handler);
                Ok(())
            },
            Some(_) => Err(FatalFault::HandlerAlreadyAttached),
        }
    }

    /// The required terminal step: hands the command to `sink`, attaching the
    /// default log-and-continue handler if none was attached by now.
    pub fn submit<T: AddCommand>(self, sink: &mut T)
        ensures
            final(sink).staged() == old(sink).staged().push(
                (
                    self.staged_payload(),
                    (CommandMeta {
                        operation: self.staged_operation(),
                        handler: match self.attached_handler() {
                            Some(h) => h,
                            None => HandlerKind::Log,
                        },
                    }),
                ),
            ),
    {
        let FinalFallibleCommandConfig { payload, operation, handler } = self;
        let handler = match handler {
            Some(h) => h,
            None => HandlerKind::Log,
        };
        sink.add_command(payload, CommandMeta { operation, handler });
    }
}

} // verus!
