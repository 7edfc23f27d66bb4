use vstd::prelude::*;

use crate::config::LaunchConfig;
use crate::menu::MenuChoice;
use crate::toggle::{DllState, RenamePlan};
use crate::validate::Presence;

verus! {

/// Where a run of the launcher stands: each stage waits for one kind of event.
#[derive(Clone, Copy, Debug, PartialEq, Eq, Structural)]
pub enum Stage {
    /// Waiting for the configuration to be read and parsed.
    AwaitingConfig,
    /// Waiting for the existence of the configured paths.
    AwaitingProbe,
    /// Waiting for the line typed at the menu.
    AwaitingChoice,
    /// Waiting for the outcome of the rename.
    AwaitingRename,
    /// Waiting for the outcome of starting the executable.
    AwaitingSpawn,
    /// Waiting for the user to press enter.
    AwaitingAck,
    /// Nothing more happens.
    Done,
}

/// What the outside world reports back to the run.
#[derive(Clone, Copy, Debug, PartialEq, Eq, Structural)]
pub enum Event {
    /// The configuration was parsed (`true`) or could not be had (`false`).
    ConfigLoaded(bool),
    /// Which configured paths exist.
    Probed(Presence),
    /// The selection made at the menu.
    Chosen(MenuChoice),
    /// How the rename went.
    Renamed(RenameOutcome),
    /// Whether the executable was started.
    Spawned(bool),
    /// The user pressed enter.
    Acknowledged,
}

/// What the driving program is to do next.
#[derive(Clone, Copy, Debug, PartialEq, Eq, Structural)]
pub enum Effect {
    /// Check which configured paths exist.
    ProbePaths,
    /// Show the menu and read one line.
    ShowMenu,
    /// Rename the DLL so that it ends in the given state.
    Toggle(DllState),
    /// Start the executable, detached.
    Launch,
    /// Ask the user to press enter.
    PromptAck,
    /// Terminate at once, with success.
    Exit,
}

/// How an attempted rename went.
#[derive(Clone, Copy, Debug, PartialEq, Eq, Structural)]
pub enum RenameOutcome {
    /// The rename was planned and the file system carried it out.
    Renamed,
    /// The target name already existed: nothing was done.
    AlreadyInPlace,
    /// Neither name existed: nothing was done.
    SourceMissing,
    /// The file system refused the rename.
    Failed,
}

/// The outcome of a planned rename, given whether the file system carried it
/// out when the plan asked for it.
pub open spec fn outcome_of(plan: RenamePlan, rename_succeeded: bool) -> RenameOutcome {
    match plan {
        RenamePlan::Rename => if rename_succeeded {
            RenameOutcome::Renamed
        } else {
            RenameOutcome::Failed
        },
        RenamePlan::AlreadyInPlace => RenameOutcome::AlreadyInPlace,
        RenamePlan::SourceMissing => RenameOutcome::SourceMissing,
    }
}

/// One transition: the next stage, and the effect to perform, if any. An
/// event that the stage does not wait for changes nothing.
pub open spec fn next(stage: Stage, event: Event) -> (Stage, Option<Effect>) {
    match (stage, event) {
        (Stage::AwaitingConfig, Event::ConfigLoaded(ok)) => if ok {
            (Stage::AwaitingProbe, Some(Effect::ProbePaths))
        } else {
            (Stage::AwaitingAck, Some(Effect::PromptAck))
        },
        (Stage::AwaitingProbe, Event::Probed(p)) => if p.executable && (p.active_dll
            || p.disabled_dll) {
            (Stage::AwaitingChoice, Some(Effect::ShowMenu))
        } else {
            (Stage::AwaitingAck, Some(Effect::PromptAck))
        },
        (Stage::AwaitingChoice, Event::Chosen(c)) => match c {
            MenuChoice::DisableMod => (Stage::AwaitingRename, Some(Effect::Toggle(DllState::Disabled))),
            MenuChoice::EnableMod => (Stage::AwaitingRename, Some(Effect::Toggle(DllState::Active))),
            MenuChoice::Exit => (Stage::Done, Some(Effect::Exit)),
            MenuChoice::Invalid => (Stage::AwaitingAck, Some(Effect::PromptAck)),
        },
        (Stage::AwaitingRename, Event::Renamed(o)) => if o == RenameOutcome::Failed {
            (Stage::AwaitingAck, Some(Effect::PromptAck))
        } else {
            (Stage::AwaitingSpawn, Some(Effect::Launch))
        },
        (Stage::AwaitingSpawn, Event::Spawned(_)) => (Stage::AwaitingAck, Some(Effect::PromptAck)),
        (Stage::AwaitingAck, Event::Acknowledged) => (Stage::Done, None),
        _ => (stage, None),
    }
}

/// The effects that a run performs from `stage` on, event by event.
pub open spec fn effects_of(stage: Stage, events: Seq<Event>) -> Seq<Effect>
    decreases events.len(),
{
    if events.len() == 0 {
        seq![]
    } else {
        let (s, e) = next(stage, events[0]);
        let rest = effects_of(s, events.drop_first());
        match e {
            Some(x) => seq![x] + rest,
            None => rest,
        }
    }
}

/// Whether an effect touches the file system or starts a process.
pub open spec fn is_rename_or_spawn(e: Effect) -> bool {
    e is Toggle || e is Launch
}

/// The first stage of every run, and what it asks for: nothing, until the
/// configuration has been read.
pub fn initial_stage() -> (r: Stage)
    ensures
        r == Stage::AwaitingConfig,
{
    Stage::AwaitingConfig
}

/// Takes one step of a run.
pub fn step(stage: Stage, event: Event) -> (r: (Stage, Option<Effect>))
    ensures
        r == next(stage, event),
{
    match (stage, event) {
        (Stage::AwaitingConfig, Event::ConfigLoaded(ok)) => if ok {
            (Stage::AwaitingProbe, Some(Effect::ProbePaths))
        } else {
            (Stage::AwaitingAck, Some(Effect::PromptAck))
        },
        (Stage::AwaitingProbe, Event::Probed(p)) => if p.executable && (p.active_dll
            || p.disabled_dll) {
            (Stage::AwaitingChoice, Some(Effect::ShowMenu))
        } else {
            (Stage::AwaitingAck, Some(Effect::PromptAck))
        },
        (Stage::AwaitingChoice, Event::Chosen(c)) => match c {
            MenuChoice::DisableMod => (Stage::AwaitingRename, Some(Effect::Toggle(DllState::Disabled))),
            MenuChoice::EnableMod => (Stage::AwaitingRename, Some(Effect::Toggle(DllState::Active))),
            MenuChoice::Exit => (Stage::Done, Some(Effect::Exit)),
            MenuChoice::Invalid => (Stage::AwaitingAck, Some(Effect::PromptAck)),
        },
        (Stage::AwaitingRename, Event::Renamed(o)) => match o {
            RenameOutcome::Failed => (Stage::AwaitingAck, Some(Effect::PromptAck)),
            _ => (Stage::AwaitingSpawn, Some(Effect::Launch)),
        },
        (Stage::AwaitingSpawn, Event::Spawned(_)) => (Stage::AwaitingAck, Some(Effect::PromptAck)),
        (Stage::AwaitingAck, Event::Acknowledged) => (Stage::Done, None),
        _ => (stage, None),
    }
}

/// Reports how a planned rename went.
pub fn rename_outcome(plan: RenamePlan, rename_succeeded: bool) -> (r: RenameOutcome)
    ensures
        r == outcome_of(plan, rename_succeeded),
{
    match plan {
        RenamePlan::Rename => if rename_succeeded {
            RenameOutcome::Renamed
        } else {
            RenameOutcome::Failed
        },
        RenamePlan::AlreadyInPlace => RenameOutcome::AlreadyInPlace,
        RenamePlan::SourceMissing => RenameOutcome::SourceMissing,
    }
}

/// The paths of a toggle toward `target`, as `(from, to)`: toward the
/// disabled state the live name is renamed into the other, and back.
pub fn toggle_paths(cfg: &LaunchConfig, target: DllState) -> (r: (String, String))
    ensures
        target == DllState::Disabled ==> r.0@ == cfg.active_dll@ && r.1@ == cfg.disabled_dll@,
        target == DllState::Active ==> r.0@ == cfg.disabled_dll@ && r.1@ == cfg.active_dll@,
{
    match target {
        DllState::Disabled => (cfg.active_dll.clone(), cfg.disabled_dll.clone()),
        DllState::Active => (cfg.disabled_dll.clone(), cfg.active_dll.clone()),
    }
}

/// Once a run has ended, no event brings any effect.
pub proof fn lemma_done_is_final(events: Seq<Event>)
    ensures
        effects_of(Stage::Done, events) == Seq::<Effect>::empty(),
    decreases events.len(),
{
    if events.len() > 0 {
        lemma_done_is_final(events.drop_first());
    }
}

/// While waiting for acknowledgment, no event brings any effect: only the
/// acknowledgment moves the run, and it ends it.
pub proof fn lemma_ack_has_no_effect(events: Seq<Event>)
    ensures
        effects_of(Stage::AwaitingAck, events) == Seq::<Effect>::empty(),
    decreases events.len(),
{
    if events.len() > 0 {
        if events[0] == Event::Acknowledged {
            lemma_done_is_final(events.drop_first());
        } else {
            lemma_ack_has_no_effect(events.drop_first());
        }
    }
}

/// An invalid selection goes straight to the acknowledgment prompt, and
/// whatever happens afterwards, nothing is renamed and nothing is started.
pub proof fn lemma_invalid_choice_acknowledged(events: Seq<Event>)
    ensures
        effects_of(Stage::AwaitingChoice, seq![Event::Chosen(MenuChoice::Invalid)] + events)
            == seq![Effect::PromptAck],
        forall|i: int|
            0 <= i < effects_of(
                Stage::AwaitingChoice,
                seq![Event::Chosen(MenuChoice::Invalid)] + events,
            ).len() ==> !is_rename_or_spawn(
                #[trigger] effects_of(
                    Stage::AwaitingChoice,
                    seq![Event::Chosen(MenuChoice::Invalid)] + events,
                )[i],
            ),
{
    let all = seq![Event::Chosen(MenuChoice::Invalid)] + events;
    assert(all[0] == Event::Chosen(MenuChoice::Invalid));
    assert(all.drop_first() =~= events);
    lemma_ack_has_no_effect(events);
    assert(effects_of(Stage::AwaitingChoice, all) =~= seq![Effect::PromptAck]);
}

/// Choosing to exit terminates the run at once: the exit is the only effect,
/// whatever happens afterwards; no rename, launch or prompt follows.
pub proof fn lemma_exit_is_immediate(events: Seq<Event>)
    ensures
        effects_of(Stage::AwaitingChoice, seq![Event::Chosen(MenuChoice::Exit)] + events)
            == seq![Effect::Exit],
{
    let all = seq![Event::Chosen(MenuChoice::Exit)] + events;
    assert(all[0] == Event::Chosen(MenuChoice::Exit));
    assert(all.drop_first() =~= events);
    lemma_done_is_final(events);
    assert(effects_of(Stage::AwaitingChoice, all) =~= seq![Effect::Exit]);
}

} // verus!
