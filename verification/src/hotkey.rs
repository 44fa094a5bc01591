//! Registration of the global hotkey that toggles drawing, as a transaction.
//!
//! A new key is registered under the other of two identifiers before the old one is released,
//! so a conflict leaves the old key in place. The operating system is an outside party: every
//! registration is handed out as a [`RegistrationCall`] and its answer comes back through
//! [`HotkeyManager::resume`].

use vstd::prelude::*;

verus! {

pub const PRIMARY_ID: i32 = 1;

pub const SECONDARY_ID: i32 = 2;

/// Identifier under which a standalone settings window reserves a candidate while it saves.
pub const SETTINGS_PROBE_ID: i32 = 3;

/// First message number that applications may use for themselves.
pub const WM_APP: u32 = 0x8000;

/// Sent synchronously by the settings window to the overlay; the request itself stays in a
/// [`ChangeSlot`], so no pointer travels in the message.
pub const WM_HOTKEY_CHANGE: u32 = WM_APP + 3;

/// Modifier bit that suppresses repeated hotkey messages while the key is held.
pub const MOD_NOREPEAT: u32 = 0x4000;

/// A key with its modifier bits.
#[derive(Clone, Copy, Debug, PartialEq, Eq, Hash, Structural)]
pub struct HotkeyChord {
    pub modifiers: u32,
    pub virtual_key: u32,
}

/// What the registration logic reads of a configured hotkey: the chord it stands for (none when
/// disabled, or the reason why it names no chord) and its name for people.
#[derive(Debug)]
pub struct HotkeyConfig {
    pub chord: Result<Option<HotkeyChord>, String>,
    pub display_name: String,
}

impl Clone for HotkeyConfig {
    fn clone(&self) -> (copy: Self)
        ensures
            copy == *self,
    {
        let chord = match &self.chord {
            Ok(chord) => Ok(*chord),
            Err(detail) => Err(detail.clone()),
        };
        HotkeyConfig { chord, display_name: self.display_name.clone() }
    }
}

/// A hotkey that is registered with the operating system.
#[derive(Debug)]
pub struct ActiveHotkey {
    pub id: i32,
    pub chord: HotkeyChord,
    pub display_name: String,
}

impl Clone for ActiveHotkey {
    fn clone(&self) -> (copy: Self)
        ensures
            copy == *self,
    {
        ActiveHotkey { id: self.id, chord: self.chord, display_name: self.display_name.clone() }
    }
}

/// What a prepared change would undo.
#[derive(Debug)]
pub enum PendingChange {
    Unchanged,
    Changed { previous: Option<ActiveHotkey> },
}

/// One request to the operating system.
#[derive(Clone, Copy, Debug, PartialEq, Eq, Structural)]
pub enum RegistrationCall {
    Register { id: i32, chord: HotkeyChord },
    Unregister { id: i32 },
}

/// What the caller does next: make the call and report its answer, or take the result.
#[derive(Debug)]
pub enum HotkeyStep {
    Call(RegistrationCall),
    Done(Result<(), HotkeyError>),
}

/// Why a hotkey change did not happen. `detail` and `cleanup` are the system's own words.
#[derive(Debug)]
pub enum HotkeyError {
    StrayRemains { display_name: String },
    ChangeInProgress,
    InvalidConfig { detail: String },
    CandidateRejected { display_name: String, detail: String },
    OldNotReleased { old: String, detail: String },
    OldAndCandidateStuck { old: String, candidate: String, detail: String, cleanup: String },
    NothingToCommit,
    NothingToRollBack,
    PreviousNotRestored { previous: String, candidate: String, detail: String },
    CandidateNotReleased { candidate: String, detail: String },
    BothStuck { candidate: String, previous: String, detail: String, cleanup: String },
    PreviousNotReenabled { previous: String, detail: String },
    CandidateNotRemoved { candidate: String, detail: String },
}

/// The call whose answer is awaited, with what that answer decides.
#[derive(Debug)]
pub enum Stage {
    Idle,
    /// The candidate is being registered beside the active key.
    Registering { next: ActiveHotkey },
    /// The active key is being released; `successor` is what takes its place.
    ReleasingOld { successor: Option<ActiveHotkey> },
    /// The active key could not be released, so the registered candidate is taken back.
    WithdrawingCandidate { next: ActiveHotkey, detail: String },
    /// The previous key is being registered again beside the candidate.
    Restoring { previous: ActiveHotkey },
    /// The candidate is being released; the previous key is back.
    ReleasingCandidate { previous: ActiveHotkey },
    /// The candidate could not be released, so the previous key is taken back again.
    WithdrawingPrevious { previous: ActiveHotkey, detail: String },
    /// The previous key is being registered again where none is active.
    Reenabling { previous: ActiveHotkey },
    /// The candidate is being released where no key was active before.
    Removing,
}

/// Tracks what is registered, what a prepared change would undo, and the call in flight.
#[derive(Debug)]
pub struct HotkeyManager {
    pub active: Option<ActiveHotkey>,
    /// A registration that could not be released. While it exists changes are refused, so that
    /// its identifier is never reused; it is released again at shutdown.
    pub stray: Option<ActiveHotkey>,
    pub pending: Option<PendingChange>,
    pub stage: Stage,
    /// The change in flight is committed as soon as it succeeds.
    pub commit_on_success: bool,
}

/// The identifier that the active key does not use.
pub open spec fn free_id(active: Option<ActiveHotkey>) -> i32 {
    if active is Some && active->0.id == PRIMARY_ID {
        SECONDARY_ID
    } else {
        PRIMARY_ID
    }
}

pub open spec fn chord_of(active: Option<ActiveHotkey>) -> Option<HotkeyChord> {
    match active {
        Some(hotkey) => Some(hotkey.chord),
        None => None,
    }
}

impl HotkeyManager {
    pub open spec fn idle(self) -> bool {
        self.stage is Idle
    }

    /// Two hotkeys of this manager never share an identifier, and only its two identifiers occur.
    pub open spec fn valid_pair(first: Option<ActiveHotkey>, second: Option<ActiveHotkey>) -> bool {
        &&& first is Some ==> (first->0.id == PRIMARY_ID || first->0.id == SECONDARY_ID)
        &&& second is Some ==> (second->0.id == PRIMARY_ID || second->0.id == SECONDARY_ID)
        &&& first is Some && second is Some ==> first->0.id != second->0.id
    }

    /// The invariant that every operation keeps.
    pub open spec fn well_formed(self) -> bool {
        &&& Self::valid_pair(self.active, self.stray)
        &&& !(self.stage is Idle) ==> self.pending is None && self.stray is None
        &&& self.pending is Some ==> self.stray is None
        &&& self.pending matches Some(PendingChange::Changed { previous })
            ==> Self::valid_pair(self.active, previous)
        &&& match self.stage {
            Stage::Idle => !self.commit_on_success,
            Stage::Registering { next } => Self::valid_pair(self.active, Some(next)),
            Stage::ReleasingOld { successor } => self.active is Some && Self::valid_pair(
                self.active,
                successor,
            ),
            Stage::WithdrawingCandidate { next, .. } => self.active is Some && Self::valid_pair(
                self.active,
                Some(next),
            ),
            Stage::Restoring { previous } => self.active is Some && Self::valid_pair(
                self.active,
                Some(previous),
            ) && !self.commit_on_success,
            Stage::ReleasingCandidate { previous } => self.active is Some && Self::valid_pair(
                self.active,
                Some(previous),
            ) && !self.commit_on_success,
            Stage::WithdrawingPrevious { previous, .. } => self.active is Some && Self::valid_pair(
                self.active,
                Some(previous),
            ) && !self.commit_on_success,
            Stage::Reenabling { previous } => self.active is None && Self::valid_pair(
                None,
                Some(previous),
            ) && !self.commit_on_success,
            Stage::Removing => self.active is Some && !self.commit_on_success,
        }
    }

    /// The same manager with no call in flight.
    pub open spec fn settled(self) -> Self {
        HotkeyManager { stage: Stage::Idle, commit_on_success: false, ..self }
    }

    /// The same manager waiting for the answer that `stage` describes.
    pub open spec fn waiting(self, stage: Stage) -> Self {
        HotkeyManager { stage, ..self }
    }

    /// The outcome of a change that went through with `next` in force.
    pub open spec fn changed(self, next: Option<ActiveHotkey>) -> (Self, HotkeyStep) {
        (
            HotkeyManager {
                active: next,
                pending: if self.commit_on_success {
                    None
                } else {
                    Some(PendingChange::Changed { previous: self.active })
                },
                ..self.settled()
            },
            HotkeyStep::Done(Ok(())),
        )
    }

    pub open spec fn failed(self, error: HotkeyError) -> (Self, HotkeyStep) {
        (self.settled(), HotkeyStep::Done(Err(error)))
    }

    /// What starting a change to `config` leads to.
    pub open spec fn prepare_next(self, config: HotkeyConfig, commit: bool) -> (Self, HotkeyStep) {
        let begun = HotkeyManager { commit_on_success: commit, ..self };
        if self.stray is Some {
            self.failed(HotkeyError::StrayRemains { display_name: self.stray->0.display_name })
        } else if self.pending is Some {
            self.failed(HotkeyError::ChangeInProgress)
        } else {
            match config.chord {
                Err(detail) => self.failed(HotkeyError::InvalidConfig { detail }),
                Ok(candidate) => if chord_of(self.active) == candidate {
                    (
                        HotkeyManager {
                            pending: if commit {
                                None
                            } else {
                                Some(PendingChange::Unchanged)
                            },
                            ..self.settled()
                        },
                        HotkeyStep::Done(Ok(())),
                    )
                } else {
                    match candidate {
                        Some(chord) => {
                            let id = free_id(self.active);
                            (
                                begun.waiting(
                                    Stage::Registering {
                                        next: ActiveHotkey {
                                            id,
                                            chord,
                                            display_name: config.display_name,
                                        },
                                    },
                                ),
                                HotkeyStep::Call(RegistrationCall::Register { id, chord }),
                            )
                        },
                        None => (
                            begun.waiting(Stage::ReleasingOld { successor: None }),
                            HotkeyStep::Call(
                                RegistrationCall::Unregister { id: self.active->0.id },
                            ),
                        ),
                    }
                },
            }
        }
    }

    /// What taking back the prepared change leads to.
    pub open spec fn rollback_next(self) -> (Self, HotkeyStep) {
        let taken = HotkeyManager { pending: None, ..self };
        match self.pending {
            None => self.failed(HotkeyError::NothingToRollBack),
            Some(PendingChange::Unchanged) => (taken, HotkeyStep::Done(Ok(()))),
            Some(PendingChange::Changed { previous }) => match (previous, self.active) {
                (Some(previous), Some(_)) => (
                    taken.waiting(Stage::Restoring { previous }),
                    HotkeyStep::Call(
                        RegistrationCall::Register { id: previous.id, chord: previous.chord },
                    ),
                ),
                (Some(previous), None) => (
                    taken.waiting(Stage::Reenabling { previous }),
                    HotkeyStep::Call(
                        RegistrationCall::Register { id: previous.id, chord: previous.chord },
                    ),
                ),
                (None, Some(candidate)) => (
                    taken.waiting(Stage::Removing),
                    HotkeyStep::Call(RegistrationCall::Unregister { id: candidate.id }),
                ),
                (None, None) => (taken, HotkeyStep::Done(Ok(()))),
            },
        }
    }

    /// What the system's answer to the call in flight leads to.
    pub open spec fn resume_next(self, answer: Result<(), String>) -> (Self, HotkeyStep) {
        let active_name = self.active->0.display_name;
        match (self.stage, answer) {
            (Stage::Idle, _) => (self, HotkeyStep::Done(Ok(()))),
            (Stage::Registering { next }, Ok(_)) => match self.active {
                Some(old) => (
                    self.waiting(Stage::ReleasingOld { successor: Some(next) }),
                    HotkeyStep::Call(RegistrationCall::Unregister { id: old.id }),
                ),
                None => self.changed(Some(next)),
            },
            (Stage::Registering { next }, Err(detail)) => self.failed(
                HotkeyError::CandidateRejected { display_name: next.display_name, detail },
            ),
            (Stage::ReleasingOld { successor }, Ok(_)) => self.changed(successor),
            (Stage::ReleasingOld { successor: Some(next) }, Err(detail)) => (
                self.waiting(Stage::WithdrawingCandidate { next, detail }),
                HotkeyStep::Call(RegistrationCall::Unregister { id: next.id }),
            ),
            (Stage::ReleasingOld { successor: None }, Err(detail)) => self.failed(
                HotkeyError::OldNotReleased { old: active_name, detail },
            ),
            (Stage::WithdrawingCandidate { detail, .. }, Ok(_)) => self.failed(
                HotkeyError::OldNotReleased { old: active_name, detail },
            ),
            (Stage::WithdrawingCandidate { next, detail }, Err(cleanup)) => HotkeyManager {
                stray: Some(next),
                ..self
            }.failed(
                HotkeyError::OldAndCandidateStuck {
                    old: active_name,
                    candidate: next.display_name,
                    detail,
                    cleanup,
                },
            ),
            (Stage::Restoring { previous }, Ok(_)) => (
                self.waiting(Stage::ReleasingCandidate { previous }),
                HotkeyStep::Call(RegistrationCall::Unregister { id: self.active->0.id }),
            ),
            (Stage::Restoring { previous }, Err(detail)) => self.failed(
                HotkeyError::PreviousNotRestored {
                    previous: previous.display_name,
                    candidate: active_name,
                    detail,
                },
            ),
            (Stage::ReleasingCandidate { previous }, Ok(_)) => (
                HotkeyManager { active: Some(previous), ..self.settled() },
                HotkeyStep::Done(Ok(())),
            ),
            (Stage::ReleasingCandidate { previous }, Err(detail)) => (
                self.waiting(Stage::WithdrawingPrevious { previous, detail }),
                HotkeyStep::Call(RegistrationCall::Unregister { id: previous.id }),
            ),
            (Stage::WithdrawingPrevious { detail, .. }, Ok(_)) => self.failed(
                HotkeyError::CandidateNotReleased { candidate: active_name, detail },
            ),
            (Stage::WithdrawingPrevious { previous, detail }, Err(cleanup)) => HotkeyManager {
                stray: Some(previous),
                ..self
            }.failed(
                HotkeyError::BothStuck {
                    candidate: active_name,
                    previous: previous.display_name,
                    detail,
                    cleanup,
                },
            ),
            (Stage::Reenabling { previous }, Ok(_)) => (
                HotkeyManager { active: Some(previous), ..self.settled() },
                HotkeyStep::Done(Ok(())),
            ),
            (Stage::Reenabling { previous }, Err(detail)) => self.failed(
                HotkeyError::PreviousNotReenabled { previous: previous.display_name, detail },
            ),
            (Stage::Removing, Ok(_)) => (
                HotkeyManager { active: None, ..self.settled() },
                HotkeyStep::Done(Ok(())),
            ),
            (Stage::Removing, Err(detail)) => self.failed(
                HotkeyError::CandidateNotRemoved { candidate: active_name, detail },
            ),
        }
    }

    pub fn new() -> (manager: Self)
        ensures
            manager.well_formed(),
            manager.idle(),
            manager.active is None,
            manager.stray is None,
            manager.pending is None,
    {
        HotkeyManager {
            active: None,
            stray: None,
            pending: None,
            stage: Stage::Idle,
            commit_on_success: false,
        }
    }

    /// Starts the change to `config` and commits it as soon as it has gone through.
    pub fn register_initial(&mut self, config: &HotkeyConfig) -> (step: HotkeyStep)
        requires
            old(self).well_formed(),
            old(self).idle(),
        ensures
            (*final(self), step) == old(self).prepare_next(*config, true),
            final(self).well_formed(),
            final(self).idle() == (step is Done),
    {
        self.begin(config, true)
    }

    /// Starts the change to `config`. A rejected candidate leaves the old registration untouched.
    pub fn prepare(&mut self, config: &HotkeyConfig) -> (step: HotkeyStep)
        requires
            old(self).well_formed(),
            old(self).idle(),
        ensures
            (*final(self), step) == old(self).prepare_next(*config, false),
            final(self).well_formed(),
            final(self).idle() == (step is Done),
    {
        self.begin(config, false)
    }

    fn begin(&mut self, config: &HotkeyConfig, commit: bool) -> (step: HotkeyStep)
        requires
            old(self).well_formed(),
            old(self).idle(),
        ensures
            (*final(self), step) == old(self).prepare_next(*config, commit),
            final(self).well_formed(),
            final(self).idle() == (step is Done),
    {
        if let Some(stray) = &self.stray {
            return HotkeyStep::Done(
                Err(HotkeyError::StrayRemains { display_name: stray.display_name.clone() }),
            );
        }
        if self.pending.is_some() {
            return HotkeyStep::Done(Err(HotkeyError::ChangeInProgress));
        }
        let candidate = match &config.chord {
            Ok(candidate) => *candidate,
            Err(detail) => {
                return HotkeyStep::Done(Err(HotkeyError::InvalidConfig { detail: detail.clone() }));
            },
        };
        match (&self.active, candidate) {
            (None, None) => {
                self.keep(commit);
                HotkeyStep::Done(Ok(()))
            },
            (Some(active), None) => {
                let id: i32 = active.id;
                self.stage = Stage::ReleasingOld { successor: None };
                self.commit_on_success = commit;
                HotkeyStep::Call(RegistrationCall::Unregister { id })
            },
            (active, Some(chord)) => {
                let (unchanged, id): (bool, i32) = match active {
                    Some(active) => (
                        active.chord == chord,
                        if active.id == PRIMARY_ID {
                            SECONDARY_ID
                        } else {
                            PRIMARY_ID
                        },
                    ),
                    None => (false, PRIMARY_ID),
                };
                if unchanged {
                    self.keep(commit);
                    return HotkeyStep::Done(Ok(()));
                }
                self.stage = Stage::Registering {
                    next: ActiveHotkey { id, chord, display_name: config.display_name.clone() },
                };
                self.commit_on_success = commit;
                HotkeyStep::Call(RegistrationCall::Register { id, chord })
            },
        }
    }

    fn keep(&mut self, commit: bool)
        requires
            old(self).pending is None,
        ensures
            *final(self) == (HotkeyManager {
                pending: if commit {
                    None
                } else {
                    Some(PendingChange::Unchanged)
                },
                ..*old(self)
            }),
    {
        if !commit {
            self.pending = Some(PendingChange::Unchanged);
        }
    }

    /// Makes the prepared change final.
    pub fn commit(&mut self) -> (result: Result<(), HotkeyError>)
        ensures
            *final(self) == (HotkeyManager { pending: None, ..*old(self) }),
            old(self).pending is Some ==> result == Ok::<(), HotkeyError>(()),
            old(self).pending is None ==> result == Err::<(), HotkeyError>(
                HotkeyError::NothingToCommit,
            ),
            old(self).well_formed() ==> final(self).well_formed(),
    {
        if self.pending.take().is_none() {
            return Err(HotkeyError::NothingToCommit);
        }
        Ok(())
    }

    /// Takes the prepared change back. Where the old key cannot be registered again the
    /// candidate stays: one working key is better than none.
    pub fn rollback(&mut self) -> (step: HotkeyStep)
        requires
            old(self).well_formed(),
            old(self).idle(),
        ensures
            (*final(self), step) == old(self).rollback_next(),
            final(self).well_formed(),
            final(self).idle() == (step is Done),
    {
        let previous = match self.pending.take() {
            None => {
                return HotkeyStep::Done(Err(HotkeyError::NothingToRollBack));
            },
            Some(PendingChange::Unchanged) => {
                return HotkeyStep::Done(Ok(()));
            },
            Some(PendingChange::Changed { previous }) => previous,
        };
        match (previous, &self.active) {
            (Some(previous), Some(_)) => {
                let call = RegistrationCall::Register { id: previous.id, chord: previous.chord };
                self.stage = Stage::Restoring { previous };
                HotkeyStep::Call(call)
            },
            (Some(previous), None) => {
                let call = RegistrationCall::Register { id: previous.id, chord: previous.chord };
                self.stage = Stage::Reenabling { previous };
                HotkeyStep::Call(call)
            },
            (None, Some(candidate)) => {
                let call = RegistrationCall::Unregister { id: candidate.id };
                self.stage = Stage::Removing;
                HotkeyStep::Call(call)
            },
            (None, None) => HotkeyStep::Done(Ok(())),
        }
    }

    /// Takes the system's answer to the call in flight and says what to do next.
    pub fn resume(&mut self, answer: Result<(), String>) -> (step: HotkeyStep)
        requires
            old(self).well_formed(),
            !old(self).idle(),
        ensures
            (*final(self), step) == old(self).resume_next(answer),
            final(self).well_formed(),
            final(self).idle() == (step is Done),
    {
        let mut stage = Stage::Idle;
        core::mem::swap(&mut stage, &mut self.stage);
        match (stage, answer) {
            (Stage::Idle, _) => HotkeyStep::Done(Ok(())),
            (Stage::Registering { next }, Ok(_)) => {
                if let Some(active) = &self.active {
                    let call = RegistrationCall::Unregister { id: active.id };
                    self.stage = Stage::ReleasingOld { successor: Some(next) };
                    return HotkeyStep::Call(call);
                }
                self.succeed(Some(next))
            },
            (Stage::Registering { next }, Err(detail)) => self.fail(
                HotkeyError::CandidateRejected { display_name: next.display_name, detail },
            ),
            (Stage::ReleasingOld { successor }, Ok(_)) => self.succeed(successor),
            (Stage::ReleasingOld { successor: Some(next) }, Err(detail)) => {
                let call = RegistrationCall::Unregister { id: next.id };
                self.stage = Stage::WithdrawingCandidate { next, detail };
                HotkeyStep::Call(call)
            },
            (Stage::ReleasingOld { successor: None }, Err(detail)) => {
                let old_name = self.active_name();
                self.fail(HotkeyError::OldNotReleased { old: old_name, detail })
            },
            (Stage::WithdrawingCandidate { detail, .. }, Ok(_)) => {
                let old_name = self.active_name();
                self.fail(HotkeyError::OldNotReleased { old: old_name, detail })
            },
            (Stage::WithdrawingCandidate { next, detail }, Err(cleanup)) => {
                let old_name = self.active_name();
                let candidate = next.display_name.clone();
                self.stray = Some(next);
                self.fail(
                    HotkeyError::OldAndCandidateStuck { old: old_name, candidate, detail, cleanup },
                )
            },
            (Stage::Restoring { previous }, Ok(_)) => {
                let id: i32 = self.active_id();
                self.stage = Stage::ReleasingCandidate { previous };
                HotkeyStep::Call(RegistrationCall::Unregister { id })
            },
            (Stage::Restoring { previous }, Err(detail)) => {
                let candidate = self.active_name();
                self.fail(
                    HotkeyError::PreviousNotRestored {
                        previous: previous.display_name,
                        candidate,
                        detail,
                    },
                )
            },
            (Stage::ReleasingCandidate { previous }, Ok(_)) => {
                self.active = Some(previous);
                HotkeyStep::Done(Ok(()))
            },
            (Stage::ReleasingCandidate { previous }, Err(detail)) => {
                let call = RegistrationCall::Unregister { id: previous.id };
                self.stage = Stage::WithdrawingPrevious { previous, detail };
                HotkeyStep::Call(call)
            },
            (Stage::WithdrawingPrevious { detail, .. }, Ok(_)) => {
                let candidate = self.active_name();
                self.fail(HotkeyError::CandidateNotReleased { candidate, detail })
            },
            (Stage::WithdrawingPrevious { previous, detail }, Err(cleanup)) => {
                let candidate = self.active_name();
                let previous_name = previous.display_name.clone();
                self.stray = Some(previous);
                self.fail(
                    HotkeyError::BothStuck { candidate, previous: previous_name, detail, cleanup },
                )
            },
            (Stage::Reenabling { previous }, Ok(_)) => {
                self.active = Some(previous);
                HotkeyStep::Done(Ok(()))
            },
            (Stage::Reenabling { previous }, Err(detail)) => self.fail(
                HotkeyError::PreviousNotReenabled { previous: previous.display_name, detail },
            ),
            (Stage::Removing, Ok(_)) => {
                self.active = None;
                HotkeyStep::Done(Ok(()))
            },
            (Stage::Removing, Err(detail)) => {
                let candidate = self.active_name();
                self.fail(HotkeyError::CandidateNotRemoved { candidate, detail })
            },
        }
    }

    fn succeed(&mut self, next: Option<ActiveHotkey>) -> (step: HotkeyStep)
        requires
            old(self).idle(),
            old(self).pending is None,
        ensures
            (*final(self), step) == old(self).changed(next),
    {
        let previous = self.active.take();
        self.active = next;
        if !self.commit_on_success {
            self.pending = Some(PendingChange::Changed { previous });
        }
        self.commit_on_success = false;
        HotkeyStep::Done(Ok(()))
    }

    fn fail(&mut self, error: HotkeyError) -> (step: HotkeyStep)
        requires
            old(self).idle(),
        ensures
            (*final(self), step) == old(self).failed(error),
    {
        self.commit_on_success = false;
        HotkeyStep::Done(Err(error))
    }

    fn active_name(&self) -> (name: String)
        requires
            self.active is Some,
        ensures
            name == self.active->0.display_name,
    {
        match &self.active {
            Some(active) => active.display_name.clone(),
            None => String::new(),
        }
    }

    fn active_id(&self) -> (id: i32)
        requires
            self.active is Some,
        ensures
            id == self.active->0.id,
    {
        match &self.active {
            Some(active) => active.id,
            None => PRIMARY_ID,
        }
    }

    /// Whether a hotkey message with this identifier belongs to the active key.
    pub fn handles_message(&self, id: i32) -> (handled: bool)
        ensures
            handled == (self.active is Some && self.active->0.id == id),
    {
        match &self.active {
            Some(active) => active.id == id,
            None => false,
        }
    }

    pub fn active_display_name(&self) -> (name: Option<&str>)
        ensures
            name is Some == self.active is Some,
            name is Some ==> name->0@ == self.active->0.display_name@,
    {
        match &self.active {
            Some(active) => Some(active.display_name.as_str()),
            None => None,
        }
    }

    /// Gives up every registration: the calls to make at shutdown, in order.
    pub fn release_all(&mut self) -> (calls: Vec<RegistrationCall>)
        ensures
            calls@ == old(self).release_calls(),
            *final(self) == (HotkeyManager { active: None, stray: None, ..*old(self) }),
    {
        let mut calls: Vec<RegistrationCall> = Vec::new();
        if let Some(stray) = self.stray.take() {
            calls.push(RegistrationCall::Unregister { id: stray.id });
        }
        if let Some(active) = self.active.take() {
            calls.push(RegistrationCall::Unregister { id: active.id });
        }
        calls
    }

    /// First the stray registration, then the active one.
    pub open spec fn release_calls(self) -> Seq<RegistrationCall> {
        let stray = match self.stray {
            Some(stray) => seq![RegistrationCall::Unregister { id: stray.id }],
            None => Seq::empty(),
        };
        let active = match self.active {
            Some(active) => seq![RegistrationCall::Unregister { id: active.id }],
            None => Seq::empty(),
        };
        stray + active
    }

    /// The call whose answer this manager waits for.
    pub open spec fn awaited(self) -> Option<RegistrationCall> {
        match self.stage {
            Stage::Idle => None,
            Stage::Registering { next } => Some(
                RegistrationCall::Register { id: next.id, chord: next.chord },
            ),
            Stage::ReleasingOld { .. } => Some(
                RegistrationCall::Unregister { id: self.active->0.id },
            ),
            Stage::WithdrawingCandidate { next, .. } => Some(
                RegistrationCall::Unregister { id: next.id },
            ),
            Stage::Restoring { previous } => Some(
                RegistrationCall::Register { id: previous.id, chord: previous.chord },
            ),
            Stage::ReleasingCandidate { .. } => Some(
                RegistrationCall::Unregister { id: self.active->0.id },
            ),
            Stage::WithdrawingPrevious { previous, .. } => Some(
                RegistrationCall::Unregister { id: previous.id },
            ),
            Stage::Reenabling { previous } => Some(
                RegistrationCall::Register { id: previous.id, chord: previous.chord },
            ),
            Stage::Removing => Some(RegistrationCall::Unregister { id: self.active->0.id }),
        }
    }

    /// A registration that exists besides the active and the stray one while a call is in flight.
    pub open spec fn extra(self) -> Option<ActiveHotkey> {
        match self.stage {
            Stage::ReleasingOld { successor } => successor,
            Stage::WithdrawingCandidate { next, .. } => Some(next),
            Stage::ReleasingCandidate { previous } => Some(previous),
            Stage::WithdrawingPrevious { previous, .. } => Some(previous),
            _ => None,
        }
    }

    /// Everything that this manager believes to be registered, by identifier.
    pub open spec fn registrations(self) -> Map<i32, HotkeyChord> {
        with_hotkey(with_hotkey(with_hotkey(Map::empty(), self.active), self.stray), self.extra())
    }
}

pub open spec fn with_hotkey(
    world: Map<i32, HotkeyChord>,
    hotkey: Option<ActiveHotkey>,
) -> Map<i32, HotkeyChord> {
    match hotkey {
        Some(hotkey) => world.insert(hotkey.id, hotkey.chord),
        None => world,
    }
}

/// What is registered with the system after a call that it accepted or refused.
pub open spec fn applied(
    world: Map<i32, HotkeyChord>,
    call: RegistrationCall,
    accepted: bool,
) -> Map<i32, HotkeyChord> {
    match call {
        RegistrationCall::Register { id, chord } => if accepted {
            world.insert(id, chord)
        } else {
            world
        },
        RegistrationCall::Unregister { id } => if accepted {
            world.remove(id)
        } else {
            world
        },
    }
}

/// What is registered after every call has been accepted.
pub open spec fn released(world: Map<i32, HotkeyChord>, calls: Seq<RegistrationCall>) -> Map<
    i32,
    HotkeyChord,
>
    decreases calls.len(),
{
    if calls.len() == 0 {
        world
    } else {
        applied(released(world, calls.drop_last()), calls.last(), true)
    }
}

/// Runs a change to its end: the system answers the calls in order with `answers`.
pub open spec fn run(
    state: (HotkeyManager, HotkeyStep),
    world: Map<i32, HotkeyChord>,
    answers: Seq<Result<(), String>>,
) -> (HotkeyManager, HotkeyStep, Map<i32, HotkeyChord>)
    decreases answers.len(),
{
    match state.1 {
        HotkeyStep::Done(_) => (state.0, state.1, world),
        HotkeyStep::Call(call) => if answers.len() == 0 {
            (state.0, state.1, world)
        } else {
            run(
                state.0.resume_next(answers[0]),
                applied(world, call, answers[0] is Ok),
                answers.drop_first(),
            )
        },
    }
}

/// However the system answers, the manager knows exactly what is registered: what it tracks is
/// what the accepted calls have left behind.
pub proof fn law_registrations_are_tracked(manager: HotkeyManager, answer: Result<(), String>)
    requires
        manager.well_formed(),
        !manager.idle(),
    ensures
        manager.resume_next(answer).0.well_formed(),
        manager.resume_next(answer).0.registrations() == applied(
            manager.registrations(),
            manager.awaited()->0,
            answer is Ok,
        ),
        manager.resume_next(answer).1 matches HotkeyStep::Call(call)
            ==> manager.resume_next(answer).0.awaited() == Some(call),
{
}

/// Starting, committing or taking back a change registers nothing by itself, and hands out
/// exactly the call whose answer is then awaited.
pub proof fn law_starting_a_change_touches_nothing(
    manager: HotkeyManager,
    config: HotkeyConfig,
    commit: bool,
)
    requires
        manager.well_formed(),
        manager.idle(),
    ensures
        manager.prepare_next(config, commit).0.registrations() == manager.registrations(),
        manager.rollback_next().0.registrations() == manager.registrations(),
        manager.prepare_next(config, commit).1 matches HotkeyStep::Call(call)
            ==> manager.prepare_next(config, commit).0.awaited() == Some(call),
        manager.rollback_next().1 matches HotkeyStep::Call(call)
            ==> manager.rollback_next().0.awaited() == Some(call),
{
}

/// Two calls of one change never register an identifier that is already in use.
pub proof fn law_identifiers_are_not_reused(manager: HotkeyManager)
    requires
        manager.well_formed(),
    ensures
        manager.awaited() matches Some(RegistrationCall::Register { id, .. })
            ==> !manager.registrations().dom().contains(id),
        manager.awaited() matches Some(RegistrationCall::Unregister { id })
            ==> manager.registrations().dom().contains(id),
{
}

/// A change ends after at most three answers, and so does taking it back.
pub proof fn law_a_change_takes_at_most_three_calls(
    manager: HotkeyManager,
    config: HotkeyConfig,
    commit: bool,
    world: Map<i32, HotkeyChord>,
    answers: Seq<Result<(), String>>,
)
    requires
        manager.well_formed(),
        manager.idle(),
        answers.len() >= 3,
    ensures
        run(manager.prepare_next(config, commit), world, answers).1 is Done,
        run(manager.prepare_next(config, commit), world, answers).0.idle(),
        run(manager.rollback_next(), world, answers).1 is Done,
        run(manager.rollback_next(), world, answers).0.idle(),
{
    reveal_with_fuel(run, 4);
}

/// A change that fails, wherever it fails, leaves the old key in force and nothing to take back.
pub proof fn law_a_failed_change_keeps_the_old_key(
    manager: HotkeyManager,
    config: HotkeyConfig,
    commit: bool,
    answers: Seq<Result<(), String>>,
)
    requires
        manager.well_formed(),
        manager.idle(),
        answers.len() >= 3,
    ensures
        ({
            let end = run(manager.prepare_next(config, commit), manager.registrations(), answers);
            end.1 matches HotkeyStep::Done(Err(_)) ==> {
                &&& end.0.active == manager.active
                &&& end.0.pending == manager.pending
                &&& manager.active is Some ==> end.2.dom().contains(manager.active->0.id)
                    && end.2[manager.active->0.id] == manager.active->0.chord
            }
        }),
{
    reveal_with_fuel(run, 4);
}

/// A candidate that the system rejects changes neither the manager nor what is registered.
pub proof fn law_a_rejected_candidate_changes_nothing(
    manager: HotkeyManager,
    config: HotkeyConfig,
    commit: bool,
    world: Map<i32, HotkeyChord>,
    detail: String,
)
    requires
        manager.well_formed(),
        manager.idle(),
        manager.prepare_next(config, commit).1 matches HotkeyStep::Call(
            RegistrationCall::Register { .. },
        ),
    ensures
        run(manager.prepare_next(config, commit), world, seq![Err(detail)]) == (
            manager,
            HotkeyStep::Done(
                Err(
                    HotkeyError::CandidateRejected { display_name: config.display_name, detail },
                ),
            ),
            world,
        ),
{
    let answers: Seq<Result<(), String>> = seq![Err(detail)];
    reveal_with_fuel(run, 2);
    assert(answers[0] == Err::<(), String>(detail));
    assert(answers.drop_first() =~= Seq::empty());
}

/// While a registration could not be released, every change is refused without a call.
pub proof fn law_a_stray_registration_blocks_changes(
    manager: HotkeyManager,
    config: HotkeyConfig,
    commit: bool,
)
    requires
        manager.well_formed(),
        manager.idle(),
        manager.stray is Some,
    ensures
        manager.prepare_next(config, commit) == (
            manager,
            HotkeyStep::Done(
                Err(HotkeyError::StrayRemains { display_name: manager.stray->0.display_name }),
            ),
        ),
{
}

/// Where the system accepts every call, taking a prepared change back restores both the active
/// key and what is registered.
pub proof fn law_rollback_undoes_prepare(
    manager: HotkeyManager,
    config: HotkeyConfig,
    answers: Seq<Result<(), String>>,
    undo_answers: Seq<Result<(), String>>,
)
    requires
        manager.well_formed(),
        manager.idle(),
        manager.stray is None,
        manager.pending is None,
        config.chord is Ok,
        answers.len() >= 3,
        undo_answers.len() >= 3,
        forall|i: int| 0 <= i < answers.len() ==> answers[i] is Ok,
        forall|i: int| 0 <= i < undo_answers.len() ==> undo_answers[i] is Ok,
    ensures
        ({
            let world = manager.registrations();
            let prepared = run(manager.prepare_next(config, false), world, answers);
            let end = run(prepared.0.rollback_next(), prepared.2, undo_answers);
            &&& prepared.1 == HotkeyStep::Done(Ok(()))
            &&& chord_of(prepared.0.active) == config.chord->Ok_0
            &&& end.1 == HotkeyStep::Done(Ok(()))
            &&& end.0 == manager
            &&& end.2 == world
        }),
{
    reveal_with_fuel(run, 4);
    let world = manager.registrations();
    let prepared = run(manager.prepare_next(config, false), world, answers);
    let end = run(prepared.0.rollback_next(), prepared.2, undo_answers);
    assert(end.2 =~= world);
}

/// Where the system accepts every call, a committed change leaves exactly the configured chord
/// registered, under the identifier that the old key did not use.
pub proof fn law_a_committed_change_is_the_only_registration(
    manager: HotkeyManager,
    config: HotkeyConfig,
    answers: Seq<Result<(), String>>,
)
    requires
        manager.well_formed(),
        manager.idle(),
        manager.stray is None,
        manager.pending is None,
        config.chord is Ok,
        config.chord->Ok_0 != chord_of(manager.active),
        answers.len() >= 3,
        forall|i: int| 0 <= i < answers.len() ==> answers[i] is Ok,
    ensures
        ({
            let end = run(manager.prepare_next(config, true), manager.registrations(), answers);
            &&& end.1 == HotkeyStep::Done(Ok(()))
            &&& end.0.pending is None
            &&& chord_of(end.0.active) == config.chord->Ok_0
            &&& end.2 == match config.chord->Ok_0 {
                Some(chord) => Map::empty().insert(free_id(manager.active), chord),
                None => Map::empty(),
            }
        }),
{
    reveal_with_fuel(run, 4);
    let end = run(manager.prepare_next(config, true), manager.registrations(), answers);
    assert(end.2 =~= match config.chord->Ok_0 {
        Some(chord) => Map::empty().insert(free_id(manager.active), chord),
        None => Map::empty(),
    });
}

/// Taking back a change from one key to another always leaves one of the two in force.
pub proof fn law_rollback_never_loses_both_keys(
    manager: HotkeyManager,
    answers: Seq<Result<(), String>>,
)
    requires
        manager.well_formed(),
        manager.idle(),
        manager.active is Some,
        manager.pending matches Some(PendingChange::Changed { previous: Some(_) }),
        answers.len() >= 3,
    ensures
        ({
            let end = run(manager.rollback_next(), manager.registrations(), answers);
            &&& end.0.active == manager.active || end.0.active
                == manager.pending->0->Changed_previous
            &&& end.2 == end.0.registrations()
            &&& end.2.dom().contains(end.0.active->0.id)
            &&& end.2[end.0.active->0.id] == end.0.active->0.chord
        }),
{
    reveal_with_fuel(run, 4);
    let end = run(manager.rollback_next(), manager.registrations(), answers);
    assert(end.2 =~= end.0.registrations());
}

/// Once the calls of a shutdown have been accepted, nothing is left registered.
pub proof fn law_shutdown_releases_everything(manager: HotkeyManager)
    requires
        manager.well_formed(),
        manager.idle(),
    ensures
        released(manager.registrations(), manager.release_calls()) == Map::<
            i32,
            HotkeyChord,
        >::empty(),
{
    reveal_with_fuel(released, 3);
    let calls = manager.release_calls();
    if calls.len() == 2 {
        assert(calls.drop_last() =~= seq![calls[0]]);
    }
    if calls.len() >= 1 {
        assert(seq![calls[0]].drop_last() =~= Seq::empty());
    }
    assert(released(manager.registrations(), calls) =~= Map::empty());
}

impl HotkeyError {
    /// The words that a person is shown.
    pub open spec fn text(self) -> Seq<char> {
        match self {
            HotkeyError::StrayRemains { display_name } => "解除できなかったホットキー "@
                + display_name@
                + " が残っているため、安全に再設定できません。StreamPainterを再起動してください"@,
            HotkeyError::ChangeInProgress => "別のホットキー設定変更が処理中です"@,
            HotkeyError::InvalidConfig { detail } => detail@,
            HotkeyError::CandidateRejected { display_name, detail } => "ホットキー "@
                + display_name@
                + " を登録できません。他のアプリやWindowsで使用されていないか確認してください: "@
                + detail@,
            HotkeyError::OldNotReleased { old, detail } => "旧ホットキー "@ + old@
                + " を安全に解除できなかったため、変更を中止しました: "@ + detail@,
            HotkeyError::OldAndCandidateStuck { old, candidate, detail, cleanup } => "旧ホットキー "@
                + old@ + " を解除できず、変更後のホットキー "@ + candidate@
                + " の後始末にも失敗しました。以前のキーは維持しますが、StreamPainterを再起動してください: "@
                + detail@ + "; cleanup: "@ + cleanup@,
            HotkeyError::NothingToCommit => "確定するホットキー設定変更がありません"@,
            HotkeyError::NothingToRollBack => "取り消すホットキー設定変更がありません"@,
            HotkeyError::PreviousNotRestored { previous, candidate, detail } =>
            "保存前のホットキー "@ + previous@ + " を復元できませんでした。現在は "@ + candidate@
                + " が有効です: "@ + detail@,
            HotkeyError::CandidateNotReleased { candidate, detail } => "変更後のホットキー "@
                + candidate@ + " を解除できず、現在もこのキーが有効です: "@ + detail@,
            HotkeyError::BothStuck { candidate, previous, detail, cleanup } =>
            "ホットキーのrollback中に "@ + candidate@ + " と "@ + previous@
                + " の解除が失敗しました。StreamPainterを再起動してください: "@ + detail@
                + "; cleanup: "@ + cleanup@,
            HotkeyError::PreviousNotReenabled { previous, detail } => "保存前のホットキー "@
                + previous@ + " を復元できませんでした。トレイから切り替えてください: "@ + detail@,
            HotkeyError::CandidateNotRemoved { candidate, detail } => "変更後のホットキー "@
                + candidate@ + " を解除できませんでした。現在もこのキーが有効です: "@ + detail@,
        }
    }

    pub fn message(&self) -> (message: String)
        ensures
            message@ == self.text(),
    {
        match self {
            HotkeyError::StrayRemains { display_name } => "解除できなかったホットキー ".to_owned().concat(
                display_name,
            ).concat(
                " が残っているため、安全に再設定できません。StreamPainterを再起動してください",
            ),
            HotkeyError::ChangeInProgress => "別のホットキー設定変更が処理中です".to_owned(),
            HotkeyError::InvalidConfig { detail } => detail.clone(),
            HotkeyError::CandidateRejected { display_name, detail } => "ホットキー ".to_owned().concat(
                display_name,
            ).concat(
                " を登録できません。他のアプリやWindowsで使用されていないか確認してください: ",
            ).concat(detail),
            HotkeyError::OldNotReleased { old, detail } => "旧ホットキー ".to_owned().concat(
                old,
            ).concat(" を安全に解除できなかったため、変更を中止しました: ").concat(detail),
            HotkeyError::OldAndCandidateStuck { old, candidate, detail, cleanup } =>
            "旧ホットキー ".to_owned().concat(old).concat(
                " を解除できず、変更後のホットキー ",
            ).concat(candidate).concat(
                " の後始末にも失敗しました。以前のキーは維持しますが、StreamPainterを再起動してください: ",
            ).concat(detail).concat("; cleanup: ").concat(cleanup),
            HotkeyError::NothingToCommit => "確定するホットキー設定変更がありません".to_owned(),
            HotkeyError::NothingToRollBack => "取り消すホットキー設定変更がありません".to_owned(),
            HotkeyError::PreviousNotRestored { previous, candidate, detail } =>
            "保存前のホットキー ".to_owned().concat(previous).concat(
                " を復元できませんでした。現在は ",
            ).concat(candidate).concat(" が有効です: ").concat(detail),
            HotkeyError::CandidateNotReleased { candidate, detail } =>
            "変更後のホットキー ".to_owned().concat(candidate).concat(
                " を解除できず、現在もこのキーが有効です: ",
            ).concat(detail),
            HotkeyError::BothStuck { candidate, previous, detail, cleanup } =>
            "ホットキーのrollback中に ".to_owned().concat(candidate).concat(" と ").concat(
                previous,
            ).concat(" の解除が失敗しました。StreamPainterを再起動してください: ").concat(
                detail,
            ).concat("; cleanup: ").concat(cleanup),
            HotkeyError::PreviousNotReenabled { previous, detail } =>
            "保存前のホットキー ".to_owned().concat(previous).concat(
                " を復元できませんでした。トレイから切り替えてください: ",
            ).concat(detail),
            HotkeyError::CandidateNotRemoved { candidate, detail } =>
            "変更後のホットキー ".to_owned().concat(candidate).concat(
                " を解除できませんでした。現在もこのキーが有効です: ",
            ).concat(detail),
        }
    }
}

/// What the settings window asks the overlay to do with its hotkey.
#[derive(Debug)]
pub enum ChangeCommand {
    Prepare(HotkeyConfig),
    Commit,
    Rollback,
}

/// A change under way between the two windows, with the answer filled in by the overlay.
#[derive(Debug)]
pub struct ChangeRequest {
    pub command: ChangeCommand,
    pub handled: bool,
    pub error: Option<String>,
}

impl ChangeRequest {
    pub fn new(command: ChangeCommand) -> (request: Self)
        ensures
            request == (ChangeRequest { command, handled: false, error: None }),
    {
        ChangeRequest { command, handled: false, error: None }
    }

    /// Fills in the answer.
    pub fn answer(&mut self, result: &Result<(), HotkeyError>)
        ensures
            final(self).command == old(self).command,
            final(self).handled,
            final(self).error is Some == (*result is Err),
            *result matches Err(error) ==> final(self).error->0@ == error.text(),
    {
        self.handled = true;
        self.error = match result {
            Ok(_) => None,
            Err(error) => Some(error.message()),
        };
    }
}

impl HotkeyManager {
    /// Starts what the settings window asks for. What comes of it goes into
    /// [`ChangeRequest::answer`].
    pub fn handle_change(&mut self, command: &ChangeCommand) -> (step: HotkeyStep)
        requires
            old(self).well_formed(),
            old(self).idle(),
        ensures
            command matches ChangeCommand::Prepare(config) ==> (*final(self), step)
                == old(self).prepare_next(*config, false),
            command is Commit ==> {
                &&& *final(self) == (HotkeyManager { pending: None, ..*old(self) })
                &&& step == HotkeyStep::Done(
                    if old(self).pending is Some {
                        Ok(())
                    } else {
                        Err(HotkeyError::NothingToCommit)
                    },
                )
            },
            command is Rollback ==> (*final(self), step) == old(self).rollback_next(),
            final(self).well_formed(),
            final(self).idle() == (step is Done),
    {
        match command {
            ChangeCommand::Prepare(config) => self.prepare(config),
            ChangeCommand::Commit => HotkeyStep::Done(self.commit()),
            ChangeCommand::Rollback => self.rollback(),
        }
    }
}

/// The place where the request lies while the message that announces it is being dispatched.
/// `busy` holds while a handler works on the request.
#[derive(Debug)]
pub struct ChangeSlot {
    pub busy: bool,
    pub request: Option<ChangeRequest>,
}

/// Why a request got no good answer.
#[derive(Debug)]
pub enum ChangeError {
    OtherChange,
    AnswerInUse,
    AnswerMissing,
    NotHandled,
    Refused(String),
}

impl ChangeError {
    pub open spec fn text(self) -> Seq<char> {
        match self {
            ChangeError::OtherChange => "別のホットキー通知が処理中です"@,
            ChangeError::AnswerInUse => "ホットキー変更の応答が別の通知で使用中です"@,
            ChangeError::AnswerMissing => "ホットキー変更の応答を取得できませんでした"@,
            ChangeError::NotHandled => "実行中のStreamPainterへホットキー変更を通知できませんでした"@,
            ChangeError::Refused(error) => error@,
        }
    }

    pub fn message(&self) -> (message: String)
        ensures
            message@ == self.text(),
    {
        match self {
            ChangeError::OtherChange => "別のホットキー通知が処理中です".to_owned(),
            ChangeError::AnswerInUse => "ホットキー変更の応答が別の通知で使用中です".to_owned(),
            ChangeError::AnswerMissing => "ホットキー変更の応答を取得できませんでした".to_owned(),
            ChangeError::NotHandled =>
            "実行中のStreamPainterへホットキー変更を通知できませんでした".to_owned(),
            ChangeError::Refused(error) => error.clone(),
        }
    }
}

impl ChangeSlot {
    pub fn new() -> (slot: Self)
        ensures
            !slot.busy,
            slot.request is None,
    {
        ChangeSlot { busy: false, request: None }
    }

    /// Puts a request into the slot before its message is sent.
    pub fn post(&mut self, command: ChangeCommand) -> (result: Result<(), ChangeError>)
        ensures
            old(self).busy || old(self).request is Some ==> result == Err::<(), ChangeError>(
                ChangeError::OtherChange,
            ) && *final(self) == *old(self),
            !old(self).busy && old(self).request is None ==> {
                &&& result == Ok::<(), ChangeError>(())
                &&& *final(self) == (ChangeSlot {
                    busy: false,
                    request: Some(ChangeRequest { command, handled: false, error: None }),
                })
            },
    {
        if self.busy || self.request.is_some() {
            return Err(ChangeError::OtherChange);
        }
        self.request = Some(ChangeRequest::new(command));
        Ok(())
    }

    /// Takes the answer out of the slot after its message has been dispatched.
    pub fn collect(&mut self) -> (result: Result<(), ChangeError>)
        ensures
            old(self).busy ==> result == Err::<(), ChangeError>(ChangeError::AnswerInUse)
                && *final(self) == *old(self),
            !old(self).busy ==> {
                &&& *final(self) == (ChangeSlot { busy: false, request: None })
                &&& result == match old(self).request {
                    None => Err(ChangeError::AnswerMissing),
                    Some(request) => if !request.handled {
                        Err(ChangeError::NotHandled)
                    } else {
                        match request.error {
                            Some(error) => Err(ChangeError::Refused(error)),
                            None => Ok(()),
                        }
                    },
                }
            },
    {
        if self.busy {
            return Err(ChangeError::AnswerInUse);
        }
        let request = match self.request.take() {
            Some(request) => request,
            None => {
                return Err(ChangeError::AnswerMissing);
            },
        };
        if !request.handled {
            return Err(ChangeError::NotHandled);
        }
        match request.error {
            Some(error) => Err(ChangeError::Refused(error)),
            None => Ok(()),
        }
    }

    /// Hands the request to the one handler that may work on it. A message that arrives while a
    /// handler is at work, or that announces nothing, gets none.
    pub fn open(&mut self) -> (request: Option<ChangeRequest>)
        ensures
            old(self).busy || old(self).request is None ==> request is None && *final(self)
                == *old(self),
            !old(self).busy && old(self).request is Some ==> request == old(self).request
                && *final(self) == (ChangeSlot { busy: true, request: None }),
    {
        if self.busy {
            return None;
        }
        let request = self.request.take();
        if request.is_some() {
            self.busy = true;
        }
        request
    }

    /// Puts the request back once its handler is done.
    pub fn close(&mut self, request: ChangeRequest)
        ensures
            *final(self) == (ChangeSlot { busy: false, request: Some(request) }),
    {
        self.request = Some(request);
        self.busy = false;
    }
}

/// Runs `handler` on the request in the slot, if there is one and no other handler works on it.
pub fn with_change_request(
    slot: &mut ChangeSlot,
    handler: impl FnOnce(ChangeRequest) -> ChangeRequest,
)
    requires
        !old(slot).busy && old(slot).request is Some ==> call_requires(
            handler,
            (old(slot).request->0,),
        ),
    ensures
        old(slot).busy || old(slot).request is None ==> *final(slot) == *old(slot),
        !old(slot).busy && old(slot).request is Some ==> {
            &&& !final(slot).busy
            &&& final(slot).request is Some
            &&& call_ensures(handler, (old(slot).request->0,), final(slot).request->0)
        },
{
    if let Some(request) = slot.open() {
        let answered = handler(request);
        slot.close(answered);
    }
}

/// How the system is asked to register a hotkey.
#[derive(Clone, Copy, Debug, PartialEq, Eq, Structural)]
pub struct SystemRegistrationApi;

impl SystemRegistrationApi {
    /// The modifier bits handed over for a chord: repeated messages are suppressed.
    pub fn modifiers(&self, chord: HotkeyChord) -> (modifiers: u32)
        ensures
            modifiers == chord.modifiers | MOD_NOREPEAT,
    {
        chord.modifiers | MOD_NOREPEAT
    }
}

/// A standalone settings window's hold on a candidate while it saves.
#[derive(Clone, Copy, Debug, PartialEq, Eq, Structural)]
pub struct ProbeRegistration {
    pub registered: bool,
}

/// What acquiring a probe takes.
#[derive(Clone, Copy, Debug, PartialEq, Eq, Structural)]
pub enum ProbeStep {
    /// No key is configured, so there is nothing to reserve.
    Ready(ProbeRegistration),
    /// Make this call and report its answer to [`ProbeRegistration::answered`].
    Call(RegistrationCall),
}

impl ProbeRegistration {
    pub fn acquire(config: &HotkeyConfig) -> (step: Result<ProbeStep, HotkeyError>)
        ensures
            step == match config.chord {
                Err(detail) => Err(HotkeyError::InvalidConfig { detail }),
                Ok(None) => Ok(ProbeStep::Ready(ProbeRegistration { registered: false })),
                Ok(Some(chord)) => Ok(
                    ProbeStep::Call(
                        RegistrationCall::Register { id: SETTINGS_PROBE_ID, chord },
                    ),
                ),
            },
    {
        match &config.chord {
            Err(detail) => Err(HotkeyError::InvalidConfig { detail: detail.clone() }),
            Ok(None) => Ok(ProbeStep::Ready(ProbeRegistration { registered: false })),
            Ok(Some(chord)) => Ok(
                ProbeStep::Call(
                    RegistrationCall::Register { id: SETTINGS_PROBE_ID, chord: *chord },
                ),
            ),
        }
    }

    pub fn answered(config: &HotkeyConfig, answer: Result<(), String>) -> (probe: Result<
        Self,
        HotkeyError,
    >)
        ensures
            probe == match answer {
                Ok(_) => Ok(ProbeRegistration { registered: true }),
                Err(detail) => Err(
                    HotkeyError::CandidateRejected { display_name: config.display_name, detail },
                ),
            },
    {
        match answer {
            Ok(_) => Ok(ProbeRegistration { registered: true }),
            Err(detail) => Err(
                HotkeyError::CandidateRejected {
                    display_name: config.display_name.clone(),
                    detail,
                },
            ),
        }
    }

    /// The call that gives the candidate back, if one was reserved.
    pub fn release(self) -> (call: Option<RegistrationCall>)
        ensures
            call == if self.registered {
                Some(RegistrationCall::Unregister { id: SETTINGS_PROBE_ID })
            } else {
                None
            },
    {
        if self.registered {
            Some(RegistrationCall::Unregister { id: SETTINGS_PROBE_ID })
        } else {
            None
        }
    }
}

/// A change that can be made starts with the new key, under the identifier that the old one does
/// not use, or with the release of the old one where the new setting has no key. The key that is in
/// force already needs no call, and is still something to commit or to take back.
pub proof fn law_a_change_starts_with_the_new_key(
    manager: HotkeyManager,
    config: HotkeyConfig,
    commit: bool,
)
    requires
        manager.well_formed(),
        manager.idle(),
        manager.stray is None,
        manager.pending is None,
    ensures
        ({
            let (after, step) = manager.prepare_next(config, commit);
            match config.chord {
                Err(detail) => after == manager && step == HotkeyStep::Done(
                    Err(HotkeyError::InvalidConfig { detail }),
                ),
                Ok(Some(chord)) => if manager.active is Some && manager.active->0.chord == chord {
                    &&& step == HotkeyStep::Done(Ok(()))
                    &&& after.active == manager.active
                    &&& after.pending == if commit {
                        None
                    } else {
                        Some(PendingChange::Unchanged)
                    }
                } else {
                    &&& step matches HotkeyStep::Call(RegistrationCall::Register { id, chord: asked })
                    &&& asked == chord
                    &&& id == PRIMARY_ID || id == SECONDARY_ID
                    &&& manager.active is Some ==> id != manager.active->0.id
                    &&& after.active == manager.active
                },
                Ok(None) => if manager.active is None {
                    step == HotkeyStep::Done(Ok(())) && after.active is None
                } else {
                    step == HotkeyStep::Call(
                        RegistrationCall::Unregister { id: manager.active->0.id },
                    ) && after.active == manager.active
                },
            }
        }),
{
}

/// While a change waits to be committed or taken back, another is refused; one that was not made
/// cannot be taken back.
pub proof fn law_changes_do_not_overlap(
    manager: HotkeyManager,
    config: HotkeyConfig,
    commit: bool,
)
    requires
        manager.well_formed(),
        manager.idle(),
    ensures
        manager.stray is None && manager.pending is Some ==> manager.prepare_next(config, commit)
            == (manager, HotkeyStep::Done(Err::<(), HotkeyError>(HotkeyError::ChangeInProgress))),
        manager.stray matches Some(stray) ==> manager.prepare_next(config, commit) == (
            manager,
            HotkeyStep::Done(
                Err::<(), HotkeyError>(
                    HotkeyError::StrayRemains { display_name: stray.display_name },
                ),
            ),
        ),
        manager.pending is None ==> manager.rollback_next() == (
            manager,
            HotkeyStep::Done(Err::<(), HotkeyError>(HotkeyError::NothingToRollBack)),
        ),
{
}

/// A change that fails names the keys that it is about and says so in the system's own words: the
/// candidate that was rejected, or the old key that could not be released, with what was left
/// behind where the candidate could not be taken back either.
pub proof fn law_a_failed_change_names_its_keys(
    manager: HotkeyManager,
    next: ActiveHotkey,
    detail: String,
    cleanup: String,
)
    requires
        manager.active is Some,
    ensures
        ({
            let old = manager.active->0.display_name;
            let refused = |stage: Stage, words: String| manager.waiting(stage).resume_next(
                Err::<(), String>(words),
            ).1;
            let failed = |error: HotkeyError| HotkeyStep::Done(Err::<(), HotkeyError>(error));
            &&& refused(Stage::Registering { next }, detail) == failed(
                HotkeyError::CandidateRejected { display_name: next.display_name, detail },
            )
            &&& refused(Stage::ReleasingOld { successor: None }, detail) == failed(
                HotkeyError::OldNotReleased { old, detail },
            )
            &&& refused(Stage::ReleasingOld { successor: Some(next) }, detail) == HotkeyStep::Call(
                RegistrationCall::Unregister { id: next.id },
            )
            &&& manager.waiting(Stage::WithdrawingCandidate { next, detail }).resume_next(
                Ok(()),
            ).1 == failed(HotkeyError::OldNotReleased { old, detail })
            &&& refused(Stage::WithdrawingCandidate { next, detail }, cleanup) == failed(
                HotkeyError::OldAndCandidateStuck {
                    old,
                    candidate: next.display_name,
                    detail,
                    cleanup,
                },
            )
            &&& refused(Stage::Restoring { previous: next }, detail) == failed(
                HotkeyError::PreviousNotRestored {
                    previous: next.display_name,
                    candidate: old,
                    detail,
                },
            )
            &&& manager.waiting(Stage::WithdrawingPrevious { previous: next, detail }).resume_next(
                Ok(()),
            ).1 == failed(HotkeyError::CandidateNotReleased { candidate: old, detail })
            &&& refused(Stage::WithdrawingPrevious { previous: next, detail }, cleanup) == failed(
                HotkeyError::BothStuck {
                    candidate: old,
                    previous: next.display_name,
                    detail,
                    cleanup,
                },
            )
            &&& refused(Stage::Reenabling { previous: next }, detail) == failed(
                HotkeyError::PreviousNotReenabled { previous: next.display_name, detail },
            )
            &&& refused(Stage::Removing, detail) == failed(
                HotkeyError::CandidateNotRemoved { candidate: old, detail },
            )
        }),
{
}

/// A change that the system accepts leaves the new key in force under the name that it was given,
/// or none where the new setting has no key.
pub proof fn law_an_accepted_change_takes_the_new_name(
    manager: HotkeyManager,
    config: HotkeyConfig,
    commit: bool,
    answers: Seq<Result<(), String>>,
)
    requires
        manager.well_formed(),
        manager.idle(),
        manager.stray is None,
        manager.pending is None,
        config.chord is Ok,
        config.chord->Ok_0 != chord_of(manager.active),
        answers.len() >= 3,
        forall|i: int| 0 <= i < answers.len() ==> answers[i] is Ok,
    ensures
        ({
            let end = run(manager.prepare_next(config, commit), manager.registrations(), answers).0;
            match config.chord->Ok_0 {
                Some(chord) => {
                    &&& end.active is Some
                    &&& end.active->0.chord == chord
                    &&& end.active->0.display_name == config.display_name
                },
                None => end.active is None,
            }
        }),
{
    reveal_with_fuel(run, 4);
}

/// A message about a change ends with the last words of the system.
pub proof fn law_a_message_ends_in_the_systems_words(
    first: String,
    second: String,
    detail: String,
    cleanup: String,
)
    ensures
        ({
            let ends = |error: HotkeyError, words: String| {
                let told = error.text();
                &&& told.len() >= words@.len()
                &&& told.skip(told.len() - words@.len()) == words@
            };
            &&& ends(HotkeyError::InvalidConfig { detail }, detail)
            &&& ends(HotkeyError::CandidateRejected { display_name: first, detail }, detail)
            &&& ends(HotkeyError::OldNotReleased { old: first, detail }, detail)
            &&& ends(
                HotkeyError::OldAndCandidateStuck { old: first, candidate: second, detail, cleanup },
                cleanup,
            )
            &&& ends(
                HotkeyError::PreviousNotRestored { previous: first, candidate: second, detail },
                detail,
            )
            &&& ends(HotkeyError::CandidateNotReleased { candidate: first, detail }, detail)
            &&& ends(
                HotkeyError::BothStuck { candidate: first, previous: second, detail, cleanup },
                cleanup,
            )
            &&& ends(HotkeyError::PreviousNotReenabled { previous: first, detail }, detail)
            &&& ends(HotkeyError::CandidateNotRemoved { candidate: first, detail }, detail)
        }),
{
    let check = |error: HotkeyError, words: String| error.text().skip(
        error.text().len() - words@.len(),
    );
    assert(check(HotkeyError::InvalidConfig { detail }, detail) =~= detail@);
    assert(check(HotkeyError::CandidateRejected { display_name: first, detail }, detail)
        =~= detail@);
    assert(check(HotkeyError::OldNotReleased { old: first, detail }, detail) =~= detail@);
    assert(check(
        HotkeyError::OldAndCandidateStuck { old: first, candidate: second, detail, cleanup },
        cleanup,
    ) =~= cleanup@);
    assert(check(
        HotkeyError::PreviousNotRestored { previous: first, candidate: second, detail },
        detail,
    ) =~= detail@);
    assert(check(HotkeyError::CandidateNotReleased { candidate: first, detail }, detail)
        =~= detail@);
    assert(check(
        HotkeyError::BothStuck { candidate: first, previous: second, detail, cleanup },
        cleanup,
    ) =~= cleanup@);
    assert(check(HotkeyError::PreviousNotReenabled { previous: first, detail }, detail)
        =~= detail@);
    assert(check(HotkeyError::CandidateNotRemoved { candidate: first, detail }, detail)
        =~= detail@);
}

} // verus!
