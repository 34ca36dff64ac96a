//! The build pipeline and the host driver, as one transition function.
//!
//! A build runs as two processes. The first process (the parent) opens the
//! guest source and starts the same program again with a marker set in its
//! environment. The second process (the snapshot pass) preinitialises the
//! engine module, optimises the snapshot and writes the output. Back in the
//! parent, a successful child is followed by one instantiation of the built
//! module and one call of its entry point.
//!
//! The embedding performs each [`Action`] and reports what happened as an
//! [`Event`]; [`step`] decides what comes next.

use vstd::prelude::*;
use vstd::string::StringExecFns;

verus! {

/// What the command line selects: the guest source and the module to write.
#[derive(Debug, Clone, PartialEq, Eq)]
pub struct Options {
    pub input: String,
    pub output: String,
}

/// The output path taken when the command line names none.
pub open spec fn default_output_spec() -> Seq<char> {
    "index.wasm"@
}

/// The name of the environment marker that selects the snapshot pass.
pub open spec fn marker_name_spec() -> Seq<char> {
    "SPIN_JS_WIZEN"@
}

/// The value of the environment marker that selects the snapshot pass.
pub open spec fn marker_value_spec() -> Seq<char> {
    "1"@
}

/// The arguments handed to the child process: the input path, `-o`, the
/// output path.
pub open spec fn child_arguments_spec(input: Seq<char>, output: Seq<char>) -> Seq<Seq<char>> {
    seq![input, "-o"@, output]
}

/// The texts of a vector of strings.
pub open spec fn texts(v: Seq<String>) -> Seq<Seq<char>> {
    Seq::new(v.len(), |i: int| v[i]@)
}

impl Options {
    /// Options for `input`, writing to `output` or, when none is given, to
    /// `index.wasm`.
    pub fn new(input: String, output: Option<String>) -> (r: Options)
        ensures
            r.input@ == input@,
            r.output@ == match output {
                Some(path) => path@,
                None => default_output_spec(),
            },
    {
        let output = match output {
            Some(path) => path,
            None => String::from_str("index.wasm"),
        };
        Options { input, output }
    }

    /// The arguments with which the parent starts the snapshot pass.
    pub fn child_arguments(&self) -> (r: Vec<String>)
        ensures
            texts(r@) == child_arguments_spec(self.input@, self.output@),
    {
        let mut args: Vec<String> = Vec::new();
        args.push(self.input.clone());
        args.push(String::from_str("-o"));
        args.push(self.output.clone());
        assert(texts(args@) =~= child_arguments_spec(self.input@, self.output@));
        args
    }
}

/// The name of the environment marker that selects the snapshot pass.
pub fn marker_name() -> (r: String)
    ensures
        r@ == marker_name_spec(),
{
    String::from_str("SPIN_JS_WIZEN")
}

/// The value that the parent gives the marker.
pub fn marker_value() -> (r: String)
    ensures
        r@ == marker_value_spec(),
{
    String::from_str("1")
}

/// Whether this process is the snapshot pass: the marker is set, and set to
/// `1`.
pub fn is_snapshot_pass(marker: &Option<String>) -> (r: bool)
    ensures
        r == (marker matches Some(value) && value@ == marker_value_spec()),
{
    match marker {
        Some(value) => {
            let one = String::from_str("1");
            *value == one
        },
        None => false,
    }
}

/// How the engine module is preinitialised.
#[derive(Clone, Copy, PartialEq, Eq, Structural, Debug)]
pub struct SnapshotSettings {
    /// The module may import the system interface.
    pub allow_wasi: bool,
    /// The module sees the standard streams of the process.
    pub inherit_stdio: bool,
    /// Bulk memory operations are enabled.
    pub bulk_memory: bool,
}

impl SnapshotSettings {
    /// The settings of every build: system interface allowed, standard
    /// streams inherited, bulk memory on.
    pub fn fixed() -> (r: SnapshotSettings)
        ensures
            r == (SnapshotSettings { allow_wasi: true, inherit_stdio: true, bulk_memory: true }),
    {
        SnapshotSettings { allow_wasi: true, inherit_stdio: true, bulk_memory: true }
    }
}

/// How the snapshot is optimised.
#[derive(Clone, Copy, PartialEq, Eq, Structural, Debug)]
pub struct OptimizeSettings {
    pub optimization_level: u32,
    pub shrink_level: u32,
    pub debug_info: bool,
    /// The stripping pass runs after the optimisation.
    pub strip: bool,
}

impl OptimizeSettings {
    /// The settings of every build: the highest optimisation level, no
    /// shrinking, no debug information, and the stripping pass.
    pub fn fixed() -> (r: OptimizeSettings)
        ensures
            r == (OptimizeSettings {
                optimization_level: 3,
                shrink_level: 0,
                debug_info: false,
                strip: true,
            }),
    {
        OptimizeSettings { optimization_level: 3, shrink_level: 0, debug_info: false, strip: true }
    }
}

/// How the built module is instantiated.
#[derive(Clone, Copy, PartialEq, Eq, Structural, Debug)]
pub struct InstanceSettings {
    /// The guest sees the standard input, output and error of the host.
    pub inherit_stdio: bool,
    /// Backtraces of the guest carry the details of its debug information.
    pub backtrace_details: bool,
    pub multi_memory: bool,
    pub module_linking: bool,
}

impl InstanceSettings {
    /// The settings of every run: standard streams passed through,
    /// detailed backtraces, multiple memories and module linking on.
    pub fn fixed() -> (r: InstanceSettings)
        ensures
            r == (InstanceSettings {
                inherit_stdio: true,
                backtrace_details: true,
                multi_memory: true,
                module_linking: true,
            }),
    {
        InstanceSettings {
            inherit_stdio: true,
            backtrace_details: true,
            multi_memory: true,
            module_linking: true,
        }
    }
}

/// The name of the pass that removes metadata from the module.
pub fn strip_pass_name() -> (r: String)
    ensures
        r@ == "strip"@,
{
    String::from_str("strip")
}

/// The name of the function that a host calls once per instantiation.
pub fn entry_point_name() -> (r: String)
    ensures
        r@ == "_start"@,
{
    String::from_str("_start")
}

/// Where a process stands.
#[derive(Clone, Copy, PartialEq, Eq, Structural, Debug)]
pub enum Stage {
    /// Nothing has happened yet.
    Start,
    /// Parent: the guest source is being opened.
    Opening,
    /// Parent: the snapshot pass runs as a child process.
    AwaitingChild,
    /// Parent: the built module is instantiated and its entry point runs.
    Running,
    /// Snapshot pass: the engine module is being preinitialised.
    Preinitializing,
    /// Snapshot pass: the snapshot is being optimised.
    Optimizing,
    /// Snapshot pass: the output file is being written.
    Writing,
    /// The process ended with success.
    Finished,
    /// The process ended with a failure.
    Failed,
}

/// What the embedding reports.
#[derive(Clone, Copy, PartialEq, Eq, Structural, Debug)]
pub enum Event {
    /// The process started; `snapshot` says whether the marker selected the
    /// snapshot pass.
    Launched { snapshot: bool },
    /// The guest source was opened, or could not be.
    Opened { ok: bool },
    /// The child process ended.
    ChildExited { success: bool },
    /// The entry point returned, or raised.
    EntryReturned { ok: bool },
    /// Preinitialisation produced a snapshot, or failed.
    Preinitialized { ok: bool },
    /// The snapshot was optimised, or could not be read for optimisation.
    Optimized { readable: bool },
    /// The output file was written, or could not be.
    Written { ok: bool },
}

/// Why a process fails.
#[derive(Clone, Copy, PartialEq, Eq, Structural, Debug)]
pub enum Failure {
    /// The guest source could not be opened.
    SourceUnavailable,
    /// The snapshot pass ended without success.
    ChildFailed,
    /// The entry point raised.
    EntryFailed,
    /// Bootstrap or the preinitialising tool failed.
    Preinitialization,
    /// The snapshot could not be read for optimisation.
    UnreadableModule,
    /// The output file could not be written.
    OutputUnwritable,
    /// An event arrived that the current stage does not expect.
    OutOfOrder,
}

/// What the embedding does next.
#[derive(Clone, Copy, PartialEq, Eq, Structural, Debug)]
pub enum Action {
    /// Open the guest source named by the options.
    OpenSource,
    /// Set the marker and start this program again, with the child's
    /// arguments and the source on its standard input.
    SpawnChild,
    /// Announce the build, instantiate the module with the system interface
    /// and the capability bridge linked in, and call the entry point.
    Instantiate(InstanceSettings),
    /// Clear the marker and preinitialise the engine module.
    Preinitialize(SnapshotSettings),
    /// Optimise the snapshot.
    Optimize(OptimizeSettings),
    /// Write the optimised module to the output path.
    WriteOutput,
    /// End the process with status zero.
    Succeed,
    /// End the process with a diagnostic and a status other than zero.
    Fail(Failure),
    /// The process has ended already: do nothing.
    Nothing,
}

/// The transition table.
pub open spec fn step_spec(stage: Stage, event: Event) -> (Stage, Action) {
    match (stage, event) {
        (Stage::Start, Event::Launched { snapshot: false }) => (Stage::Opening, Action::OpenSource),
        (Stage::Start, Event::Launched { snapshot: true }) => (
            Stage::Preinitializing,
            Action::Preinitialize(
                SnapshotSettings { allow_wasi: true, inherit_stdio: true, bulk_memory: true },
            ),
        ),
        (Stage::Opening, Event::Opened { ok: true }) => (Stage::AwaitingChild, Action::SpawnChild),
        (Stage::Opening, Event::Opened { ok: false }) => (
            Stage::Failed,
            Action::Fail(Failure::SourceUnavailable),
        ),
        (Stage::AwaitingChild, Event::ChildExited { success: true }) => (
            Stage::Running,
            Action::Instantiate(
                InstanceSettings {
                    inherit_stdio: true,
                    backtrace_details: true,
                    multi_memory: true,
                    module_linking: true,
                },
            ),
        ),
        (Stage::AwaitingChild, Event::ChildExited { success: false }) => (
            Stage::Failed,
            Action::Fail(Failure::ChildFailed),
        ),
        (Stage::Running, Event::EntryReturned { ok: true }) => (Stage::Finished, Action::Succeed),
        (Stage::Running, Event::EntryReturned { ok: false }) => (
            Stage::Failed,
            Action::Fail(Failure::EntryFailed),
        ),
        (Stage::Preinitializing, Event::Preinitialized { ok: true }) => (
            Stage::Optimizing,
            Action::Optimize(
                OptimizeSettings {
                    optimization_level: 3,
                    shrink_level: 0,
                    debug_info: false,
                    strip: true,
                },
            ),
        ),
        (Stage::Preinitializing, Event::Preinitialized { ok: false }) => (
            Stage::Failed,
            Action::Fail(Failure::Preinitialization),
        ),
        (Stage::Optimizing, Event::Optimized { readable: true }) => (
            Stage::Writing,
            Action::WriteOutput,
        ),
        (Stage::Optimizing, Event::Optimized { readable: false }) => (
            Stage::Failed,
            Action::Fail(Failure::UnreadableModule),
        ),
        (Stage::Writing, Event::Written { ok: true }) => (Stage::Finished, Action::Succeed),
        (Stage::Writing, Event::Written { ok: false }) => (
            Stage::Failed,
            Action::Fail(Failure::OutputUnwritable),
        ),
        (Stage::Finished, _) => (Stage::Finished, Action::Nothing),
        (Stage::Failed, _) => (Stage::Failed, Action::Nothing),
        _ => (Stage::Failed, Action::Fail(Failure::OutOfOrder)),
    }
}

/// The stage after `event` and the action that it calls for.
pub fn step(stage: Stage, event: Event) -> (r: (Stage, Action))
    ensures
        r == step_spec(stage, event),
{
    match stage {
        Stage::Finished => (Stage::Finished, Action::Nothing),
        Stage::Failed => (Stage::Failed, Action::Nothing),
        Stage::Start => match event {
            Event::Launched { snapshot } => if snapshot {
                (Stage::Preinitializing, Action::Preinitialize(SnapshotSettings::fixed()))
            } else {
                (Stage::Opening, Action::OpenSource)
            },
            _ => out_of_order(),
        },
        Stage::Opening => match event {
            Event::Opened { ok } => if ok {
                (Stage::AwaitingChild, Action::SpawnChild)
            } else {
                (Stage::Failed, Action::Fail(Failure::SourceUnavailable))
            },
            _ => out_of_order(),
        },
        Stage::AwaitingChild => match event {
            Event::ChildExited { success } => if success {
                (Stage::Running, Action::Instantiate(InstanceSettings::fixed()))
            } else {
                (Stage::Failed, Action::Fail(Failure::ChildFailed))
            },
            _ => out_of_order(),
        },
        Stage::Running => match event {
            Event::EntryReturned { ok } => if ok {
                (Stage::Finished, Action::Succeed)
            } else {
                (Stage::Failed, Action::Fail(Failure::EntryFailed))
            },
            _ => out_of_order(),
        },
        Stage::Preinitializing => match event {
            Event::Preinitialized { ok } => if ok {
                (Stage::Optimizing, Action::Optimize(OptimizeSettings::fixed()))
            } else {
                (Stage::Failed, Action::Fail(Failure::Preinitialization))
            },
            _ => out_of_order(),
        },
        Stage::Optimizing => match event {
            Event::Optimized { readable } => if readable {
                (Stage::Writing, Action::WriteOutput)
            } else {
                (Stage::Failed, Action::Fail(Failure::UnreadableModule))
            },
            _ => out_of_order(),
        },
        Stage::Writing => match event {
            Event::Written { ok } => if ok {
                (Stage::Finished, Action::Succeed)
            } else {
                (Stage::Failed, Action::Fail(Failure::OutputUnwritable))
            },
            _ => out_of_order(),
        },
    }
}

fn out_of_order() -> (r: (Stage, Action))
    ensures
        r == (Stage::Failed, Action::Fail(Failure::OutOfOrder)),
{
    (Stage::Failed, Action::Fail(Failure::OutOfOrder))
}

/// The exit status that an action ends the process with, if it ends it.
pub open spec fn exit_status_spec(action: Action) -> Option<int> {
    match action {
        Action::Succeed => Some(0),
        Action::Fail(_) => Some(1),
        _ => None,
    }
}

/// The exit status that an action ends the process with, if it ends it: zero
/// for success, one for every failure.
pub fn exit_status(action: Action) -> (r: Option<i32>)
    ensures
        match r {
            Some(code) => exit_status_spec(action) == Some(code as int),
            None => exit_status_spec(action) is None,
        },
{
    match action {
        Action::Succeed => Some(0),
        Action::Fail(_) => Some(1),
        _ => None,
    }
}

/// The diagnostic printed with a failure.
pub fn diagnostic(failure: Failure) -> (r: String)
    ensures
        r@ == diagnostic_spec(failure),
{
    match failure {
        Failure::SourceUnavailable => String::from_str("Couldn't open the input"),
        Failure::ChildFailed => String::from_str("Couldn't create wasm from input"),
        Failure::EntryFailed => String::from_str("The entry point failed"),
        Failure::Preinitialization => String::from_str("Preinitialization failed"),
        Failure::UnreadableModule => String::from_str(
            "Unable to read wasm binary for wasm-opt optimizations",
        ),
        Failure::OutputUnwritable => String::from_str("Couldn't write the output"),
        Failure::OutOfOrder => String::from_str("Unexpected event"),
    }
}

/// The diagnostic printed with a failure.
pub open spec fn diagnostic_spec(failure: Failure) -> Seq<char> {
    match failure {
        Failure::SourceUnavailable => "Couldn't open the input"@,
        Failure::ChildFailed => "Couldn't create wasm from input"@,
        Failure::EntryFailed => "The entry point failed"@,
        Failure::Preinitialization => "Preinitialization failed"@,
        Failure::UnreadableModule => "Unable to read wasm binary for wasm-opt optimizations"@,
        Failure::OutputUnwritable => "Couldn't write the output"@,
        Failure::OutOfOrder => "Unexpected event"@,
    }
}

/// The stage reached from `stage` by a sequence of events.
pub open spec fn stage_after(stage: Stage, events: Seq<Event>) -> Stage
    decreases events.len(),
{
    if events.len() == 0 {
        stage
    } else {
        step_spec(stage_after(stage, events.drop_last()), events.last()).0
    }
}

/// The actions called for, one for each event, on the way from `stage`.
pub open spec fn actions_after(stage: Stage, events: Seq<Event>) -> Seq<Action>
    decreases events.len(),
{
    if events.len() == 0 {
        Seq::empty()
    } else {
        actions_after(stage, events.drop_last()).push(
            step_spec(stage_after(stage, events.drop_last()), events.last()).1,
        )
    }
}

/// Drives the transition function over a whole sequence of events.
pub fn run(stage: Stage, events: &Vec<Event>) -> (r: (Stage, Vec<Action>))
    ensures
        r.0 == stage_after(stage, events@),
        r.1@ == actions_after(stage, events@),
{
    let mut current = stage;
    let mut actions: Vec<Action> = Vec::new();
    let mut i: usize = 0;
    while i < events.len()
        invariant
            i <= events.len(),
            current == stage_after(stage, events@.take(i as int)),
            actions@ == actions_after(stage, events@.take(i as int)),
        decreases events.len() - i,
    {
        proof {
            assert(events@.take(i + 1).drop_last() =~= events@.take(i as int));
            assert(events@.take(i + 1).last() == events@[i as int]);
        }
        let next = step(current, events[i]);
        current = next.0;
        actions.push(next.1);
        i = i + 1;
    }
    proof {
        assert(events@.take(events@.len() as int) =~= events@);
    }
    (current, actions)
}

/// What the events up to a stage must have held.
pub open spec fn accounted(stage: Stage, events: Seq<Event>) -> bool {
    &&& (stage == Stage::Optimizing || stage == Stage::Writing) ==> events.contains(
        Event::Preinitialized { ok: true },
    )
    &&& stage == Stage::Writing ==> events.contains(Event::Optimized { readable: true })
    &&& (stage == Stage::Preinitializing || stage == Stage::Optimizing || stage == Stage::Writing)
        ==> events.contains(Event::Launched { snapshot: true })
    &&& (stage == Stage::AwaitingChild || stage == Stage::Running) ==> events.contains(
        Event::Opened { ok: true },
    )
    &&& stage == Stage::Running ==> events.contains(Event::ChildExited { success: true })
}

proof fn lemma_accounted(events: Seq<Event>)
    ensures
        accounted(stage_after(Stage::Start, events), events),
    decreases events.len(),
{
    if events.len() > 0 {
        let before = events.drop_last();
        lemma_accounted(before);
        assert(events =~= before.push(events.last()));
        assert(events.contains(events.last())) by {
            assert(events[events.len() - 1] == events.last());
        }
        assert forall|e: Event| before.contains(e) implies events.contains(e) by {
            let i = choose|i: int| 0 <= i < before.len() && before[i] == e;
            assert(events[i] == e);
        }
    }
}

/// The output is written only after a snapshot was taken and optimised: in
/// every run from the start, an action that writes the output is preceded
/// by the event that preinitialisation succeeded and by the event that the
/// snapshot was read and optimised.
pub proof fn law_output_needs_both_phases(events: Seq<Event>, i: int)
    requires
        0 <= i < events.len(),
        actions_after(Stage::Start, events)[i] == Action::WriteOutput,
    ensures
        events.take(i).contains(Event::Preinitialized { ok: true }),
        events[i] == (Event::Optimized { readable: true }),
    decreases events.len(),
{
    let before = events.drop_last();
    lemma_actions_len(Stage::Start, before);
    if i == events.len() - 1 {
        lemma_accounted(before);
        assert(events.take(i) =~= before);
        assert(actions_after(Stage::Start, events)[i] == step_spec(
            stage_after(Stage::Start, before),
            events.last(),
        ).1);
    } else {
        assert(actions_after(Stage::Start, events)[i] == actions_after(Stage::Start, before)[i]);
        law_output_needs_both_phases(before, i);
        assert(before.take(i) =~= events.take(i));
    }
}

proof fn lemma_actions_len(stage: Stage, events: Seq<Event>)
    ensures
        actions_after(stage, events).len() == events.len(),
    decreases events.len(),
{
    if events.len() > 0 {
        lemma_actions_len(stage, events.drop_last());
    }
}

/// What has not been called for yet, by the stage.
pub open spec fn not_yet(stage: Stage, actions: Seq<Action>) -> bool {
    &&& (stage != Stage::Running && stage != Stage::Finished && stage != Stage::Failed)
        ==> forall|i: int| 0 <= i < actions.len() ==> !((#[trigger] actions[i]) is Instantiate)
    &&& (stage != Stage::Writing && stage != Stage::Finished && stage != Stage::Failed)
        ==> forall|i: int| 0 <= i < actions.len() ==> (#[trigger] actions[i]) != Action::WriteOutput
}

proof fn lemma_not_yet(events: Seq<Event>)
    ensures
        not_yet(stage_after(Stage::Start, events), actions_after(Stage::Start, events)),
    decreases events.len(),
{
    if events.len() > 0 {
        let before = events.drop_last();
        lemma_not_yet(before);
        let old_actions = actions_after(Stage::Start, before);
        let actions = actions_after(Stage::Start, events);
        let last = step_spec(stage_after(Stage::Start, before), events.last()).1;
        assert(actions == old_actions.push(last));
        assert forall|i: int| 0 <= i < old_actions.len() implies actions[i] == old_actions[i] by {}
    }
}

/// The module is instantiated at most once in a process, and the output is
/// written at most once: in every run from the start, no action that
/// instantiates follows another, and no action that writes follows
/// another.
pub proof fn law_at_most_once(events: Seq<Event>, i: int, j: int)
    requires
        0 <= i < j < events.len(),
    ensures
        actions_after(Stage::Start, events)[j] is Instantiate ==> !(actions_after(
            Stage::Start,
            events,
        )[i] is Instantiate),
        actions_after(Stage::Start, events)[j] == Action::WriteOutput ==> actions_after(
            Stage::Start,
            events,
        )[i] != Action::WriteOutput,
    decreases events.len(),
{
    let before = events.drop_last();
    lemma_actions_len(Stage::Start, before);
    let old_actions = actions_after(Stage::Start, before);
    if j == events.len() - 1 {
        lemma_not_yet(before);
        assert(actions_after(Stage::Start, events)[i] == old_actions[i]);
    } else {
        assert(actions_after(Stage::Start, events)[i] == old_actions[i]);
        assert(actions_after(Stage::Start, events)[j] == old_actions[j]);
        law_at_most_once(before, i, j);
    }
}

/// A build that failed stays failed, and one that finished stays finished:
/// no later event calls for any action.
pub proof fn law_end_is_final(stage: Stage, events: Seq<Event>)
    requires
        stage == Stage::Failed || stage == Stage::Finished,
    ensures
        stage_after(stage, events) == stage,
        forall|i: int|
            0 <= i < events.len() ==> #[trigger] actions_after(stage, events)[i]
                == Action::Nothing,
        actions_after(stage, events).len() == events.len(),
    decreases events.len(),
{
    if events.len() > 0 {
        law_end_is_final(stage, events.drop_last());
    }
}

/// A failed phase writes no output: when preinitialisation fails, or the
/// snapshot cannot be read, the process ends with a status other than zero,
/// and nothing that is reported afterwards makes it write the output.
pub proof fn law_failed_phase_writes_nothing(stage: Stage, event: Event, later: Seq<Event>)
    requires
        (stage == Stage::Preinitializing && event == Event::Preinitialized { ok: false }) || (stage
            == Stage::Optimizing && event == Event::Optimized { readable: false }),
    ensures
        exit_status_spec(step_spec(stage, event).1) == Some(1int),
        step_spec(stage, event).1 != Action::WriteOutput,
        !actions_after(step_spec(stage, event).0, later).contains(Action::WriteOutput),
{
    law_end_is_final(Stage::Failed, later);
}

} // verus!
