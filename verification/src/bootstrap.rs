//! The bootstrap of the guest runtime: what is done, in which order, and
//! where the engine and the bytecode are kept until the entry point runs.
//!
//! The embedding reads the source, drives the engine and installs the
//! bindings; [`boot_step`] tells it what to do next. What the bootstrap
//! produced lies in a [`Runtime`], which is filled once and emptied once.

use crate::bridge::{args_view, begin_spec, Bridge};
use crate::console::{console_line_spec, console_log};
use crate::error::{BridgeError, ErrorView};
use crate::record::{HttpRequest, RequestView};
use crate::value::GuestValue;
use vstd::prelude::*;
use vstd::string::StringExecFns;

verus! {

/// A place for one value that is set once and taken once.
pub enum Slot<T> {
    /// Nothing was set yet.
    Empty,
    /// The value lies here.
    Full(T),
    /// The value was taken.
    Taken,
}

impl<T> Slot<T> {
    /// An empty slot.
    pub fn new() -> (r: Slot<T>)
        ensures
            r is Empty,
    {
        Slot::Empty
    }

    /// Whether nothing was set yet.
    pub fn is_empty(&self) -> (r: bool)
        ensures
            r == (*self is Empty),
    {
        match self {
            Slot::Empty => true,
            _ => false,
        }
    }

    /// Whether a value lies in the slot.
    pub fn is_full(&self) -> (r: bool)
        ensures
            r == (*self is Full),
    {
        match self {
            Slot::Full(_) => true,
            _ => false,
        }
    }

    /// Sets the value, if nothing was set before; else hands the value
    /// back and leaves the slot as it is.
    pub fn try_set(&mut self, value: T) -> (r: Result<(), T>)
        ensures
            *old(self) is Empty ==> r is Ok && *final(self) == Slot::Full(value),
            !(*old(self) is Empty) ==> r == Err::<(), T>(value) && *final(self) == *old(self),
    {
        if self.is_empty() {
            *self = Slot::Full(value);
            Ok(())
        } else {
            Err(value)
        }
    }

    /// Takes the value, if one lies in the slot; else leaves the slot as
    /// it is.
    pub fn try_take(&mut self) -> (r: Option<T>)
        ensures
            *old(self) is Full ==> r == Some((*old(self))->Full_0) && *final(self) is Taken,
            !(*old(self) is Full) ==> r is None && *final(self) == *old(self),
    {
        let mut held: Slot<T> = Slot::Taken;
        core::mem::swap(self, &mut held);
        match held {
            Slot::Full(value) => Some(value),
            other => {
                *self = other;
                None
            },
        }
    }

    /// Sets the value of a slot in which nothing was set before.
    pub fn set(&mut self, value: T)
        requires
            *old(self) is Empty,
        ensures
            *final(self) == Slot::Full(value),
    {
        *self = Slot::Full(value);
    }

    /// Takes the value out of a slot in which one lies.
    pub fn take(&mut self) -> (r: T)
        requires
            *old(self) is Full,
        ensures
            r == (*old(self))->Full_0,
            *final(self) is Taken,
    {
        self.try_take().unwrap()
    }
}

/// Where a runtime stands.
#[derive(Clone, Copy, PartialEq, Eq, Structural, Debug)]
pub enum Phase {
    /// The bootstrap has not stored anything yet.
    Uninitialized,
    /// The engine and the bytecode lie ready for the entry point.
    Initialized,
    /// The entry point took them.
    Consumed,
}

/// The engine context and the bytecode of one process. Both are stored
/// together, once, and taken together, once.
pub struct Runtime<C> {
    context: Slot<C>,
    bytecode: Slot<Vec<u8>>,
}

impl<C> Runtime<C> {
    #[verifier::type_invariant]
    spec fn in_step(self) -> bool {
        &&& self.context is Empty <==> self.bytecode is Empty
        &&& self.context is Full <==> self.bytecode is Full
    }

    /// The phase of the runtime.
    pub closed spec fn phase(&self) -> Phase {
        match self.context {
            Slot::Empty => Phase::Uninitialized,
            Slot::Full(_) => Phase::Initialized,
            Slot::Taken => Phase::Consumed,
        }
    }

    /// The engine context that lies in an initialised runtime.
    pub closed spec fn context(&self) -> C {
        self.context->Full_0
    }

    /// The bytecode that lies in an initialised runtime.
    pub closed spec fn bytecode(&self) -> Seq<u8> {
        self.bytecode->Full_0@
    }

    /// A runtime in which nothing is stored.
    pub fn new() -> (r: Runtime<C>)
        ensures
            r.phase() == Phase::Uninitialized,
    {
        Runtime { context: Slot::Empty, bytecode: Slot::Empty }
    }

    /// The phase of the runtime.
    pub fn current_phase(&self) -> (r: Phase)
        ensures
            r == self.phase(),
    {
        match self.context {
            Slot::Empty => Phase::Uninitialized,
            Slot::Full(_) => Phase::Initialized,
            Slot::Taken => Phase::Consumed,
        }
    }

    /// Stores what the bootstrap produced. Storing twice is an error of
    /// the program.
    pub fn store(&mut self, context: C, bytecode: Vec<u8>)
        requires
            old(self).phase() == Phase::Uninitialized,
        ensures
            final(self).phase() == Phase::Initialized,
            final(self).context() == context,
            final(self).bytecode() == bytecode@,
    {
        *self = Runtime { context: Slot::Full(context), bytecode: Slot::Full(bytecode) };
    }

    /// Takes the engine context and the bytecode for the one evaluation.
    /// Taking before anything was stored, or twice, is an error of the
    /// program.
    pub fn take(&mut self) -> (r: (C, Vec<u8>))
        requires
            old(self).phase() == Phase::Initialized,
        ensures
            final(self).phase() == Phase::Consumed,
            r.0 == old(self).context(),
            r.1@ == old(self).bytecode(),
    {
        proof {
            use_type_invariant(&*self);
        }
        let mut held: Runtime<C> = Runtime { context: Slot::Taken, bytecode: Slot::Taken };
        core::mem::swap(self, &mut held);
        let Runtime { context, bytecode } = held;
        let mut context = context;
        let mut bytecode = bytecode;
        (context.take(), bytecode.take())
    }

    /// Stores what the bootstrap produced, if nothing was stored before;
    /// else hands both back and leaves the runtime as it is.
    pub fn try_store(&mut self, context: C, bytecode: Vec<u8>) -> (r: Result<(), (C, Vec<u8>)>)
        ensures
            old(self).phase() == Phase::Uninitialized ==> r is Ok && final(self).phase()
                == Phase::Initialized && final(self).context() == context && final(self).bytecode()
                == bytecode@,
            old(self).phase() != Phase::Uninitialized ==> r == Err::<(), (C, Vec<u8>)>(
                (context, bytecode),
            ) && *final(self) == *old(self),
    {
        match self.current_phase() {
            Phase::Uninitialized => {
                self.store(context, bytecode);
                Ok(())
            },
            _ => Err((context, bytecode)),
        }
    }

    /// Takes the engine context and the bytecode, if they lie ready; else
    /// leaves the runtime as it is.
    pub fn try_take(&mut self) -> (r: Option<(C, Vec<u8>)>)
        ensures
            old(self).phase() == Phase::Initialized ==> r is Some && r->Some_0.0 == old(
                self,
            ).context() && r->Some_0.1@ == old(self).bytecode() && final(self).phase()
                == Phase::Consumed,
            old(self).phase() != Phase::Initialized ==> r is None && *final(self) == *old(self),
    {
        match self.current_phase() {
            Phase::Initialized => Some(self.take()),
            _ => None,
        }
    }
}

/// A function of the host that the guest finds among its globals.
#[derive(Clone, Copy, PartialEq, Eq, Structural, Debug)]
pub enum Binding {
    /// `console.log`
    ConsoleLog,
    /// The entry point of the outbound HTTP capability.
    HttpSend,
}

/// The global object on which a binding is a property; `None` for a
/// binding that is a global itself.
pub open spec fn binding_object_spec(binding: Binding) -> Option<Seq<char>> {
    match binding {
        Binding::ConsoleLog => Some("console"@),
        Binding::HttpSend => None,
    }
}

/// The name under which a binding is installed.
pub open spec fn binding_name_spec(binding: Binding) -> Seq<char> {
    match binding {
        Binding::ConsoleLog => "log"@,
        Binding::HttpSend => "reqwest_get"@,
    }
}

impl Binding {
    /// The global object on which the binding is a property; `None` for a
    /// binding that is a global itself.
    pub fn object(&self) -> (r: Option<&'static str>)
        ensures
            match r {
                Some(name) => binding_object_spec(*self) == Some(name@),
                None => binding_object_spec(*self) is None,
            },
    {
        match self {
            Binding::ConsoleLog => Some("console"),
            Binding::HttpSend => None,
        }
    }

    /// The name under which the binding is installed.
    pub fn name(&self) -> (r: &'static str)
        ensures
            r@ == binding_name_spec(*self),
    {
        match self {
            Binding::ConsoleLog => "log",
            Binding::HttpSend => "reqwest_get",
        }
    }
}

/// What a call of a binding asks the embedding to do.
#[derive(Debug, PartialEq, Eq)]
pub enum Effect {
    /// Write the line to the standard output; the call returns the
    /// engine's "no value".
    Write(String),
    /// Send the request; the call returns what `finish_call` makes of the
    /// outcome.
    Send(HttpRequest),
}

/// The mathematical value of an [`Effect`].
pub enum EffectView {
    Write(Seq<char>),
    Send(RequestView),
}

impl View for Effect {
    type V = EffectView;

    open spec fn view(&self) -> EffectView {
        match self {
            Effect::Write(line) => EffectView::Write(line@),
            Effect::Send(request) => EffectView::Send(request@),
        }
    }
}

impl Effect {
    /// What the call returns to the guest at once: the engine's "no value"
    /// after a line was written; nothing yet for a request, whose outcome
    /// decides.
    pub fn reply(&self) -> (r: Option<GuestValue>)
        ensures
            match self@ {
                EffectView::Write(_) => r matches Some(value) && value@
                    == crate::value::ValueView::Undefined,
                EffectView::Send(_) => r is None,
            },
    {
        match self {
            Effect::Write(_) => Some(GuestValue::Undefined),
            Effect::Send(_) => None,
        }
    }
}

/// What a call of a binding yields.
pub open spec fn dispatch_spec(
    binding: Binding,
    allowed: Seq<Seq<char>>,
    args: Seq<crate::value::ValueView>,
) -> Result<EffectView, ErrorView> {
    match binding {
        Binding::ConsoleLog => match console_line_spec(args) {
            Ok(line) => Ok(EffectView::Write(line)),
            Err(error) => Err(error),
        },
        Binding::HttpSend => match begin_spec(allowed, args) {
            Ok(request) => Ok(EffectView::Send(request)),
            Err(error) => Err(error),
        },
    }
}

/// Calls a binding with the arguments of the guest.
pub fn dispatch(binding: Binding, bridge: &Bridge, args: &Vec<GuestValue>) -> (r: Result<
    Effect,
    BridgeError,
>)
    ensures
        match r {
            Ok(effect) => dispatch_spec(binding, bridge@, args_view(args@)) == Ok::<
                EffectView,
                ErrorView,
            >(effect@),
            Err(error) => dispatch_spec(binding, bridge@, args_view(args@)) == Err::<
                EffectView,
                ErrorView,
            >(error@),
        },
{
    match binding {
        Binding::ConsoleLog => match console_log(args) {
            Ok(line) => Ok(Effect::Write(line)),
            Err(error) => Err(error),
        },
        Binding::HttpSend => match bridge.begin_call(args) {
            Ok(request) => Ok(Effect::Send(request)),
            Err(error) => Err(error),
        },
    }
}

/// The name under which the guest source is compiled; diagnostics show it.
pub fn module_name() -> (r: String)
    ensures
        r@ == "function.mjs"@,
{
    String::from_str("function.mjs")
}

/// Where the bootstrap stands.
#[derive(Clone, Copy, PartialEq, Eq, Structural, Debug)]
pub enum BootStage {
    Start,
    /// The whole source is being read from the input.
    ReadingSource,
    /// A fresh engine context compiles the source.
    Compiling,
    /// `console.log` is being installed.
    InstallingConsole,
    /// The HTTP entry point is being installed.
    InstallingHttp,
    /// The context and the bytecode are being stored.
    Storing,
    /// The runtime is initialised.
    Ready,
    /// The bootstrap failed; there is no way on.
    Failed,
}

/// What the embedding reports to the bootstrap.
#[derive(Clone, Copy, PartialEq, Eq, Structural, Debug)]
pub enum BootEvent {
    Begin,
    SourceRead { ok: bool },
    Compiled { ok: bool },
    Installed { ok: bool },
    Stored,
}

/// Why a bootstrap fails.
#[derive(Clone, Copy, PartialEq, Eq, Structural, Debug)]
pub enum BootFailure {
    SourceUnreadable,
    CompileError,
    InstallError,
    OutOfOrder,
}

/// What the embedding does next.
#[derive(Clone, Copy, PartialEq, Eq, Structural, Debug)]
pub enum BootAction {
    /// Read the input to its end.
    ReadSource,
    /// Create the engine context and compile the source as a module.
    Compile,
    /// Install a binding on the global object.
    Install(Binding),
    /// Store the context and the bytecode in the runtime.
    Store,
    /// The bootstrap is complete.
    Finish,
    /// Give up: the failure is fatal.
    Abort(BootFailure),
    /// The bootstrap has ended already: do nothing.
    Nothing,
}

/// The transition table of the bootstrap.
pub open spec fn boot_step_spec(stage: BootStage, event: BootEvent) -> (BootStage, BootAction) {
    match (stage, event) {
        (BootStage::Start, BootEvent::Begin) => (BootStage::ReadingSource, BootAction::ReadSource),
        (BootStage::ReadingSource, BootEvent::SourceRead { ok: true }) => (
            BootStage::Compiling,
            BootAction::Compile,
        ),
        (BootStage::ReadingSource, BootEvent::SourceRead { ok: false }) => (
            BootStage::Failed,
            BootAction::Abort(BootFailure::SourceUnreadable),
        ),
        (BootStage::Compiling, BootEvent::Compiled { ok: true }) => (
            BootStage::InstallingConsole,
            BootAction::Install(Binding::ConsoleLog),
        ),
        (BootStage::Compiling, BootEvent::Compiled { ok: false }) => (
            BootStage::Failed,
            BootAction::Abort(BootFailure::CompileError),
        ),
        (BootStage::InstallingConsole, BootEvent::Installed { ok: true }) => (
            BootStage::InstallingHttp,
            BootAction::Install(Binding::HttpSend),
        ),
        (BootStage::InstallingConsole, BootEvent::Installed { ok: false }) => (
            BootStage::Failed,
            BootAction::Abort(BootFailure::InstallError),
        ),
        (BootStage::InstallingHttp, BootEvent::Installed { ok: true }) => (
            BootStage::Storing,
            BootAction::Store,
        ),
        (BootStage::InstallingHttp, BootEvent::Installed { ok: false }) => (
            BootStage::Failed,
            BootAction::Abort(BootFailure::InstallError),
        ),
        (BootStage::Storing, BootEvent::Stored) => (BootStage::Ready, BootAction::Finish),
        (BootStage::Ready, _) => (BootStage::Ready, BootAction::Nothing),
        (BootStage::Failed, _) => (BootStage::Failed, BootAction::Nothing),
        _ => (BootStage::Failed, BootAction::Abort(BootFailure::OutOfOrder)),
    }
}

fn boot_out_of_order() -> (r: (BootStage, BootAction))
    ensures
        r == (BootStage::Failed, BootAction::Abort(BootFailure::OutOfOrder)),
{
    (BootStage::Failed, BootAction::Abort(BootFailure::OutOfOrder))
}

fn boot_failed(failure: BootFailure) -> (r: (BootStage, BootAction))
    ensures
        r == (BootStage::Failed, BootAction::Abort(failure)),
{
    (BootStage::Failed, BootAction::Abort(failure))
}

/// The stage after `event` and the action that it calls for.
pub fn boot_step(stage: BootStage, event: BootEvent) -> (r: (BootStage, BootAction))
    ensures
        r == boot_step_spec(stage, event),
{
    match stage {
        BootStage::Ready => (BootStage::Ready, BootAction::Nothing),
        BootStage::Failed => (BootStage::Failed, BootAction::Nothing),
        BootStage::Start => match event {
            BootEvent::Begin => (BootStage::ReadingSource, BootAction::ReadSource),
            _ => boot_out_of_order(),
        },
        BootStage::ReadingSource => match event {
            BootEvent::SourceRead { ok } => if ok {
                (BootStage::Compiling, BootAction::Compile)
            } else {
                boot_failed(BootFailure::SourceUnreadable)
            },
            _ => boot_out_of_order(),
        },
        BootStage::Compiling => match event {
            BootEvent::Compiled { ok } => if ok {
                (BootStage::InstallingConsole, BootAction::Install(Binding::ConsoleLog))
            } else {
                boot_failed(BootFailure::CompileError)
            },
            _ => boot_out_of_order(),
        },
        BootStage::InstallingConsole => match event {
            BootEvent::Installed { ok } => if ok {
                (BootStage::InstallingHttp, BootAction::Install(Binding::HttpSend))
            } else {
                boot_failed(BootFailure::InstallError)
            },
            _ => boot_out_of_order(),
        },
        BootStage::InstallingHttp => match event {
            BootEvent::Installed { ok } => if ok {
                (BootStage::Storing, BootAction::Store)
            } else {
                boot_failed(BootFailure::InstallError)
            },
            _ => boot_out_of_order(),
        },
        BootStage::Storing => match event {
            BootEvent::Stored => (BootStage::Ready, BootAction::Finish),
            _ => boot_out_of_order(),
        },
    }
}

/// Begins the bootstrap: the first thing to do is to read the source.
pub fn init() -> (r: (BootStage, BootAction))
    ensures
        r == boot_step_spec(BootStage::Start, BootEvent::Begin),
        r == (BootStage::ReadingSource, BootAction::ReadSource),
{
    boot_step(BootStage::Start, BootEvent::Begin)
}

/// The stage reached from `stage` by a sequence of events.
pub open spec fn boot_stage_after(stage: BootStage, events: Seq<BootEvent>) -> BootStage
    decreases events.len(),
{
    if events.len() == 0 {
        stage
    } else {
        boot_step_spec(boot_stage_after(stage, events.drop_last()), events.last()).0
    }
}

/// The events of a bootstrap in which nothing fails.
pub open spec fn complete_boot() -> Seq<BootEvent> {
    seq![
        BootEvent::Begin,
        BootEvent::SourceRead { ok: true },
        BootEvent::Compiled { ok: true },
        BootEvent::Installed { ok: true },
        BootEvent::Installed { ok: true },
        BootEvent::Stored,
    ]
}

/// What the events that led to a stage must have been.
pub open spec fn boot_history(stage: BootStage, events: Seq<BootEvent>) -> bool {
    match stage {
        BootStage::Start => events == complete_boot().take(0),
        BootStage::ReadingSource => events == complete_boot().take(1),
        BootStage::Compiling => events == complete_boot().take(2),
        BootStage::InstallingConsole => events == complete_boot().take(3),
        BootStage::InstallingHttp => events == complete_boot().take(4),
        BootStage::Storing => events == complete_boot().take(5),
        BootStage::Ready => events.len() >= 6 && events.take(6) == complete_boot(),
        BootStage::Failed => true,
    }
}

proof fn lemma_boot_history(events: Seq<BootEvent>)
    ensures
        boot_history(boot_stage_after(BootStage::Start, events), events),
    decreases events.len(),
{
    let happy = complete_boot();
    if events.len() == 0 {
        assert(events =~= happy.take(0));
    } else {
        let before = events.drop_last();
        lemma_boot_history(before);
        let stage = boot_stage_after(BootStage::Start, before);
        let next = boot_stage_after(BootStage::Start, events);
        assert(events =~= before.push(events.last()));
        if next == BootStage::Ready {
            if stage == BootStage::Ready {
                assert(events.take(6) =~= before.take(6));
            } else {
                assert(stage == BootStage::Storing);
                assert(events =~= happy);
                assert(events.take(6) =~= events);
            }
        } else if next == BootStage::ReadingSource {
            assert(events =~= happy.take(1));
        } else if next == BootStage::Compiling {
            assert(events =~= happy.take(2));
        } else if next == BootStage::InstallingConsole {
            assert(events =~= happy.take(3));
        } else if next == BootStage::InstallingHttp {
            assert(events =~= happy.take(4));
        } else if next == BootStage::Storing {
            assert(events =~= happy.take(5));
        }
    }
}

/// The runtime becomes ready in one way only: the source was read to its
/// end, then compiled, then both bindings were installed, then the result
/// was stored, and nothing failed. Every sequence of events that ends in
/// `Ready` begins with exactly these six events.
pub proof fn law_ready_needs_every_step(events: Seq<BootEvent>)
    requires
        boot_stage_after(BootStage::Start, events) == BootStage::Ready,
    ensures
        events.len() >= 6,
        events.take(6) == complete_boot(),
{
    lemma_boot_history(events);
}

/// Each action of the bootstrap has one place: the source is compiled
/// only when it was read whole, bindings are installed only on a compiled
/// module, and the result is stored only when both bindings are in.
pub proof fn law_boot_order(stage: BootStage, event: BootEvent)
    ensures
        boot_step_spec(stage, event).1 == BootAction::Compile ==> stage == BootStage::ReadingSource
            && event == (BootEvent::SourceRead { ok: true }),
        boot_step_spec(stage, event).1 == BootAction::Install(Binding::ConsoleLog) ==> stage
            == BootStage::Compiling && event == (BootEvent::Compiled { ok: true }),
        boot_step_spec(stage, event).1 == BootAction::Install(Binding::HttpSend) ==> stage
            == BootStage::InstallingConsole && event == (BootEvent::Installed { ok: true }),
        boot_step_spec(stage, event).1 == BootAction::Store ==> stage == BootStage::InstallingHttp
            && event == (BootEvent::Installed { ok: true }),
        boot_step_spec(stage, event).1 == BootAction::Finish ==> stage == BootStage::Storing
            && event == BootEvent::Stored,
{
}

/// A bootstrap that failed stays failed, and a runtime that is ready stays
/// ready: there is no way back to the start.
pub proof fn law_boot_end_is_final(stage: BootStage, events: Seq<BootEvent>)
    requires
        stage == BootStage::Failed || stage == BootStage::Ready,
    ensures
        boot_stage_after(stage, events) == stage,
    decreases events.len(),
{
    if events.len() > 0 {
        law_boot_end_is_final(stage, events.drop_last());
    }
}

} // verus!
