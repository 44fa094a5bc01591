//! Saving the settings: the hotkey, the registration with Windows and the file change together or
//! not at all.
//!
//! The hotkey and the registration are changed first and made final only when the file has been
//! written. Whatever fails, the others are taken back. Each change is handed out as a [`SaveCall`]
//! and its answer comes back through [`SaveTransaction::resume`].

use vstd::prelude::*;

verus! {

/// Something that one of the outside parties is to do.
#[derive(Clone, Copy, Debug, PartialEq, Eq, Structural)]
pub enum SaveCall {
    PrepareHotkey,
    PrepareAutostart,
    /// Write the new settings.
    SaveConfig,
    CommitHotkey,
    RollbackHotkey,
    RollbackAutostart,
    /// Write the settings as they were.
    RestoreConfig,
}

/// Where a transaction failed after everything had been prepared.
#[derive(Clone, Copy, Debug, PartialEq, Eq, Structural)]
pub enum SaveFailure {
    NotSaved,
    NotCommitted,
}

/// What failed, and what could not be taken back after it. All texts are the parties' own words.
#[derive(Debug)]
pub struct SaveReport {
    pub failure: SaveFailure,
    pub detail: String,
    pub hotkey: Option<String>,
    pub autostart: Option<String>,
    pub config: Option<String>,
}

#[derive(Debug)]
pub enum SaveError {
    /// A change could not even be prepared.
    Refused(String),
    Failed(SaveReport),
}

/// What the caller does next. After success the registration with Windows is to be kept.
#[derive(Debug)]
pub enum SaveStep {
    Call(SaveCall),
    Done(Result<(), SaveError>),
}

/// The call whose answer is awaited, with what is known so far.
#[derive(Debug)]
pub enum SaveStage {
    PreparingHotkey,
    PreparingAutostart,
    /// The registration could not be prepared; the hotkey is taken back.
    DroppingHotkey { error: String },
    Saving,
    Committing,
    RollingBackHotkey { report: SaveReport },
    RollingBackAutostart { report: SaveReport },
    RestoringConfig { report: SaveReport },
    /// What could not be taken back is tried once more.
    RetryingAutostart { report: SaveReport },
    RetryingHotkey { report: SaveReport },
    Finished,
}

#[derive(Debug)]
pub struct SaveTransaction {
    /// The registration with Windows can be read, and so is changed too.
    pub autostart_available: bool,
    pub stage: SaveStage,
}

pub open spec fn appended(reason: Option<String>, before: Seq<char>) -> Seq<char> {
    match reason {
        Some(reason) => before + reason@,
        None => Seq::empty(),
    }
}

impl SaveReport {
    pub open spec fn text(self) -> Seq<char> {
        (match self.failure {
            SaveFailure::NotSaved => "設定を保存できませんでした: "@,
            SaveFailure::NotCommitted => "保存後のホットキー変更を確定できませんでした: "@,
        }) + self.detail@ + appended(self.hotkey, "\nホットキー登録の復元にも失敗しました: "@)
            + appended(self.autostart, "\nWindows自動起動登録の復元にも失敗しました: "@) + appended(
            self.config,
            "\n設定ファイルの復元にも失敗しました: "@,
        )
    }

    pub fn message(&self) -> (message: String)
        ensures
            message@ == self.text(),
    {
        let mut message = match self.failure {
            SaveFailure::NotSaved => "設定を保存できませんでした: ".to_owned(),
            SaveFailure::NotCommitted => "保存後のホットキー変更を確定できませんでした: ".to_owned(),
        };
        message.append(&self.detail);
        append_reason(&mut message, &self.hotkey, "\nホットキー登録の復元にも失敗しました: ");
        append_reason(
            &mut message,
            &self.autostart,
            "\nWindows自動起動登録の復元にも失敗しました: ",
        );
        append_reason(&mut message, &self.config, "\n設定ファイルの復元にも失敗しました: ");
        message
    }
}

fn append_reason(message: &mut String, reason: &Option<String>, before: &str)
    ensures
        final(message)@ == old(message)@ + appended(*reason, before@),
{
    if let Some(reason) = reason {
        message.append(before);
        message.append(reason);
    }
    assert(message@ =~= old(message)@ + appended(*reason, before@));
}

impl SaveError {
    pub open spec fn text(self) -> Seq<char> {
        match self {
            SaveError::Refused(error) => error@,
            SaveError::Failed(report) => report.text(),
        }
    }

    pub fn message(&self) -> (message: String)
        ensures
            message@ == self.text(),
    {
        match self {
            SaveError::Refused(error) => error.clone(),
            SaveError::Failed(report) => report.message(),
        }
    }
}

pub open spec fn reason_of(answer: Result<(), String>) -> Option<String> {
    match answer {
        Ok(_) => None,
        Err(error) => Some(error),
    }
}

fn reason(answer: Result<(), String>) -> (reason: Option<String>)
    ensures
        reason == reason_of(answer),
{
    match answer {
        Ok(_) => None,
        Err(error) => Some(error),
    }
}

impl SaveTransaction {
    pub open spec fn at(self, stage: SaveStage) -> Self {
        SaveTransaction { stage, ..self }
    }

    pub open spec fn finished(self, result: Result<(), SaveError>) -> (Self, SaveStep) {
        (self.at(SaveStage::Finished), SaveStep::Done(result))
    }

    /// After a failure the hotkey is taken back first.
    pub open spec fn failed(self, failure: SaveFailure, detail: String) -> (Self, SaveStep) {
        (
            self.at(
                SaveStage::RollingBackHotkey {
                    report: SaveReport {
                        failure,
                        detail,
                        hotkey: None,
                        autostart: None,
                        config: None,
                    },
                },
            ),
            SaveStep::Call(SaveCall::RollbackHotkey),
        )
    }

    /// What the answer to the call in flight leads to.
    pub open spec fn resume_next(self, answer: Result<(), String>) -> (Self, SaveStep) {
        match (self.stage, answer) {
            (SaveStage::PreparingHotkey, Ok(_)) => if self.autostart_available {
                (
                    self.at(SaveStage::PreparingAutostart),
                    SaveStep::Call(SaveCall::PrepareAutostart),
                )
            } else {
                (self.at(SaveStage::Saving), SaveStep::Call(SaveCall::SaveConfig))
            },
            (SaveStage::PreparingHotkey, Err(error)) => self.finished(
                Err(SaveError::Refused(error)),
            ),
            (SaveStage::PreparingAutostart, Ok(_)) => (
                self.at(SaveStage::Saving),
                SaveStep::Call(SaveCall::SaveConfig),
            ),
            (SaveStage::PreparingAutostart, Err(error)) => (
                self.at(SaveStage::DroppingHotkey { error }),
                SaveStep::Call(SaveCall::RollbackHotkey),
            ),
            (SaveStage::DroppingHotkey { error }, _) => self.finished(
                Err(SaveError::Refused(error)),
            ),
            (SaveStage::Saving, Ok(_)) => (
                self.at(SaveStage::Committing),
                SaveStep::Call(SaveCall::CommitHotkey),
            ),
            (SaveStage::Saving, Err(detail)) => self.failed(SaveFailure::NotSaved, detail),
            (SaveStage::Committing, Ok(_)) => self.finished(Ok(())),
            (SaveStage::Committing, Err(detail)) => self.failed(SaveFailure::NotCommitted, detail),
            (SaveStage::RollingBackHotkey { report }, _) => {
                let report = SaveReport { hotkey: reason_of(answer), ..report };
                if self.autostart_available {
                    (
                        self.at(SaveStage::RollingBackAutostart { report }),
                        SaveStep::Call(SaveCall::RollbackAutostart),
                    )
                } else {
                    (
                        self.at(SaveStage::RestoringConfig { report }),
                        SaveStep::Call(SaveCall::RestoreConfig),
                    )
                }
            },
            (SaveStage::RollingBackAutostart { report }, _) => (
                self.at(
                    SaveStage::RestoringConfig {
                        report: SaveReport { autostart: reason_of(answer), ..report },
                    },
                ),
                SaveStep::Call(SaveCall::RestoreConfig),
            ),
            (SaveStage::RestoringConfig { report }, _) => {
                let report = SaveReport { config: reason_of(answer), ..report };
                if report.autostart is Some {
                    (
                        self.at(SaveStage::RetryingAutostart { report }),
                        SaveStep::Call(SaveCall::RollbackAutostart),
                    )
                } else if report.hotkey is Some {
                    (
                        self.at(SaveStage::RetryingHotkey { report }),
                        SaveStep::Call(SaveCall::RollbackHotkey),
                    )
                } else {
                    self.finished(Err(SaveError::Failed(report)))
                }
            },
            (SaveStage::RetryingAutostart { report }, _) => if report.hotkey is Some {
                (
                    self.at(SaveStage::RetryingHotkey { report }),
                    SaveStep::Call(SaveCall::RollbackHotkey),
                )
            } else {
                self.finished(Err(SaveError::Failed(report)))
            },
            (SaveStage::RetryingHotkey { report }, _) => self.finished(
                Err(SaveError::Failed(report)),
            ),
            (SaveStage::Finished, _) => self.finished(Ok(())),
        }
    }

    /// Starts to save.
    pub fn start(autostart_available: bool) -> (started: (Self, SaveStep))
        ensures
            started == Self::started(autostart_available),
    {
        (
            SaveTransaction { autostart_available, stage: SaveStage::PreparingHotkey },
            SaveStep::Call(SaveCall::PrepareHotkey),
        )
    }

    pub open spec fn started(autostart_available: bool) -> (Self, SaveStep) {
        (
            SaveTransaction { autostart_available, stage: SaveStage::PreparingHotkey },
            SaveStep::Call(SaveCall::PrepareHotkey),
        )
    }

    fn fail(&mut self, failure: SaveFailure, detail: String) -> (step: SaveStep)
        ensures
            (*final(self), step) == old(self).failed(failure, detail),
    {
        self.stage = SaveStage::RollingBackHotkey {
            report: SaveReport { failure, detail, hotkey: None, autostart: None, config: None },
        };
        SaveStep::Call(SaveCall::RollbackHotkey)
    }

    /// Takes the answer to the call in flight and says what to do next.
    pub fn resume(&mut self, answer: Result<(), String>) -> (step: SaveStep)
        requires
            !(old(self).stage is Finished),
        ensures
            (*final(self), step) == old(self).resume_next(answer),
            final(self).stage is Finished == (step is Done),
    {
        let mut stage = SaveStage::Finished;
        core::mem::swap(&mut stage, &mut self.stage);
        match stage {
            SaveStage::PreparingHotkey => match answer {
                Ok(_) => if self.autostart_available {
                    self.stage = SaveStage::PreparingAutostart;
                    SaveStep::Call(SaveCall::PrepareAutostart)
                } else {
                    self.stage = SaveStage::Saving;
                    SaveStep::Call(SaveCall::SaveConfig)
                },
                Err(error) => SaveStep::Done(Err(SaveError::Refused(error))),
            },
            SaveStage::PreparingAutostart => match answer {
                Ok(_) => {
                    self.stage = SaveStage::Saving;
                    SaveStep::Call(SaveCall::SaveConfig)
                },
                Err(error) => {
                    self.stage = SaveStage::DroppingHotkey { error };
                    SaveStep::Call(SaveCall::RollbackHotkey)
                },
            },
            SaveStage::DroppingHotkey { error } => SaveStep::Done(Err(SaveError::Refused(error))),
            SaveStage::Saving => match answer {
                Ok(_) => {
                    self.stage = SaveStage::Committing;
                    SaveStep::Call(SaveCall::CommitHotkey)
                },
                Err(detail) => self.fail(SaveFailure::NotSaved, detail),
            },
            SaveStage::Committing => match answer {
                Ok(_) => SaveStep::Done(Ok(())),
                Err(detail) => self.fail(SaveFailure::NotCommitted, detail),
            },
            SaveStage::RollingBackHotkey { mut report } => {
                report.hotkey = reason(answer);
                if self.autostart_available {
                    self.stage = SaveStage::RollingBackAutostart { report };
                    SaveStep::Call(SaveCall::RollbackAutostart)
                } else {
                    self.stage = SaveStage::RestoringConfig { report };
                    SaveStep::Call(SaveCall::RestoreConfig)
                }
            },
            SaveStage::RollingBackAutostart { mut report } => {
                report.autostart = reason(answer);
                self.stage = SaveStage::RestoringConfig { report };
                SaveStep::Call(SaveCall::RestoreConfig)
            },
            SaveStage::RestoringConfig { mut report } => {
                report.config = reason(answer);
                if report.autostart.is_some() {
                    self.stage = SaveStage::RetryingAutostart { report };
                    SaveStep::Call(SaveCall::RollbackAutostart)
                } else if report.hotkey.is_some() {
                    self.stage = SaveStage::RetryingHotkey { report };
                    SaveStep::Call(SaveCall::RollbackHotkey)
                } else {
                    SaveStep::Done(Err(SaveError::Failed(report)))
                }
            },
            SaveStage::RetryingAutostart { report } => if report.hotkey.is_some() {
                self.stage = SaveStage::RetryingHotkey { report };
                SaveStep::Call(SaveCall::RollbackHotkey)
            } else {
                SaveStep::Done(Err(SaveError::Failed(report)))
            },
            SaveStage::RetryingHotkey { report } => SaveStep::Done(Err(SaveError::Failed(report))),
            SaveStage::Finished => SaveStep::Done(Ok(())),
        }
    }
}

/// The state of one of the things that are saved.
#[derive(Clone, Copy, Debug, PartialEq, Eq, Structural)]
pub enum Phase {
    Old,
    /// Changed, but not yet for good.
    Prepared,
    New,
    /// A write that failed may have left either.
    Unknown,
}

/// The state of everything that is saved.
pub struct Saved {
    pub hotkey: Phase,
    pub autostart: Phase,
    pub config: Phase,
    /// Something that was to be taken back could not be.
    pub stuck: bool,
}

impl Saved {
    pub open spec fn untouched() -> Self {
        Saved { hotkey: Phase::Old, autostart: Phase::Old, config: Phase::Old, stuck: false }
    }

    /// What a call leaves behind. A preparation or a commitment that fails leaves its thing as it
    /// was; only a failed write may have done anything.
    pub open spec fn after(self, call: SaveCall, accepted: bool) -> Self {
        match call {
            SaveCall::PrepareHotkey => if accepted {
                Saved { hotkey: Phase::Prepared, ..self }
            } else {
                self
            },
            SaveCall::PrepareAutostart => if accepted {
                Saved { autostart: Phase::Prepared, ..self }
            } else {
                self
            },
            SaveCall::SaveConfig => Saved {
                config: if accepted {
                    Phase::New
                } else {
                    Phase::Unknown
                },
                ..self
            },
            SaveCall::CommitHotkey => if accepted {
                Saved { hotkey: Phase::New, ..self }
            } else {
                self
            },
            SaveCall::RollbackHotkey => if accepted {
                Saved { hotkey: Phase::Old, ..self }
            } else {
                Saved { stuck: true, ..self }
            },
            SaveCall::RollbackAutostart => if accepted {
                Saved { autostart: Phase::Old, ..self }
            } else {
                Saved { stuck: true, ..self }
            },
            SaveCall::RestoreConfig => if accepted {
                Saved { config: Phase::Old, ..self }
            } else {
                Saved { stuck: true, ..self }
            },
        }
    }
}

/// Runs a transaction: the parties answer the calls in order with `answers`.
pub open spec fn run(
    state: (SaveTransaction, SaveStep),
    saved: Saved,
    answers: Seq<Result<(), String>>,
) -> (SaveTransaction, SaveStep, Saved)
    decreases answers.len(),
{
    match state.1 {
        SaveStep::Done(_) => (state.0, state.1, saved),
        SaveStep::Call(call) => if answers.len() == 0 {
            (state.0, state.1, saved)
        } else {
            run(
                state.0.resume_next(answers[0]),
                saved.after(call, answers[0] is Ok),
                answers.drop_first(),
            )
        },
    }
}

/// What holds of the things that are saved at each stage, as long as nothing is stuck.
spec fn consistent(state: (SaveTransaction, SaveStep), saved: Saved) -> bool {
    let kept = if state.0.autostart_available {
        Phase::Prepared
    } else {
        Phase::Old
    };
    match state.1 {
        SaveStep::Done(Ok(_)) => state.0.stage is Finished && saved.hotkey == Phase::New
            && saved.autostart == kept && saved.config == Phase::New && !saved.stuck,
        SaveStep::Done(Err(_)) => state.0.stage is Finished && (saved.stuck || saved
            == Saved::untouched()),
        SaveStep::Call(call) => {
            &&& !(state.0.stage is Finished)
            &&& call == awaited(state.0.stage)
            &&& match state.0.stage {
                SaveStage::PreparingHotkey => saved == Saved::untouched(),
                SaveStage::PreparingAutostart => state.0.autostart_available && saved == (Saved {
                    hotkey: Phase::Prepared,
                    ..Saved::untouched()
                }),
                SaveStage::DroppingHotkey { .. } => saved == (Saved {
                    hotkey: Phase::Prepared,
                    ..Saved::untouched()
                }),
                SaveStage::Saving => saved == (Saved {
                    hotkey: Phase::Prepared,
                    autostart: kept,
                    ..Saved::untouched()
                }),
                SaveStage::Committing => saved == (Saved {
                    hotkey: Phase::Prepared,
                    autostart: kept,
                    config: Phase::New,
                    stuck: false,
                }),
                SaveStage::RollingBackHotkey { report } => saved.autostart == kept && !saved.stuck
                    && report.hotkey is None && report.autostart is None,
                SaveStage::RollingBackAutostart { report } => !saved.stuck ==> saved.hotkey
                    == Phase::Old && report.hotkey is None && report.autostart is None,
                SaveStage::RestoringConfig { report } => !saved.stuck ==> saved.hotkey == Phase::Old
                    && saved.autostart == Phase::Old && report.hotkey is None
                    && report.autostart is None,
                _ => saved.stuck,
            }
        },
    }
}

spec fn awaited(stage: SaveStage) -> SaveCall {
    match stage {
        SaveStage::PreparingHotkey => SaveCall::PrepareHotkey,
        SaveStage::PreparingAutostart => SaveCall::PrepareAutostart,
        SaveStage::DroppingHotkey { .. } => SaveCall::RollbackHotkey,
        SaveStage::Saving => SaveCall::SaveConfig,
        SaveStage::Committing => SaveCall::CommitHotkey,
        SaveStage::RollingBackHotkey { .. } => SaveCall::RollbackHotkey,
        SaveStage::RollingBackAutostart { .. } => SaveCall::RollbackAutostart,
        SaveStage::RestoringConfig { .. } => SaveCall::RestoreConfig,
        SaveStage::RetryingAutostart { .. } => SaveCall::RollbackAutostart,
        SaveStage::RetryingHotkey { .. } => SaveCall::RollbackHotkey,
        SaveStage::Finished => SaveCall::PrepareHotkey,
    }
}

/// How many answers a stage still takes at most.
spec fn remaining(state: (SaveTransaction, SaveStep)) -> nat {
    match state.1 {
        SaveStep::Done(_) => 0,
        SaveStep::Call(_) => match state.0.stage {
            SaveStage::PreparingHotkey => 9,
            SaveStage::PreparingAutostart => 8,
            SaveStage::Saving => 7,
            SaveStage::Committing => 6,
            SaveStage::RollingBackHotkey { .. } => 5,
            SaveStage::RollingBackAutostart { .. } => 4,
            SaveStage::RestoringConfig { .. } => 3,
            SaveStage::RetryingAutostart { .. } => 2,
            SaveStage::RetryingHotkey { .. } => 1,
            SaveStage::DroppingHotkey { .. } => 1,
            SaveStage::Finished => 0,
        },
    }
}

proof fn lemma_run(
    state: (SaveTransaction, SaveStep),
    saved: Saved,
    answers: Seq<Result<(), String>>,
)
    requires
        consistent(state, saved),
    ensures
        ({
            let end = run(state, saved, answers);
            &&& consistent((end.0, end.1), end.2)
            &&& end.0.autostart_available == state.0.autostart_available
            &&& answers.len() >= remaining(state) ==> end.1 is Done
        }),
    decreases answers.len(),
{
    if let SaveStep::Call(call) = state.1 {
        if answers.len() > 0 {
            let next = state.0.resume_next(answers[0]);
            lemma_run(next, saved.after(call, answers[0] is Ok), answers.drop_first());
        }
    }
}

/// Saving ends after at most nine answers.
pub proof fn law_saving_ends(autostart_available: bool, answers: Seq<Result<(), String>>)
    requires
        answers.len() >= 9,
    ensures
        run(SaveTransaction::started(autostart_available), Saved::untouched(), answers).1 is Done,
{
    lemma_run(SaveTransaction::started(autostart_available), Saved::untouched(), answers);
}

/// Success means that everything is new: the hotkey, the file, and the registration with Windows
/// where it could be changed at all.
pub proof fn law_success_saves_everything(
    autostart_available: bool,
    answers: Seq<Result<(), String>>,
)
    ensures
        ({
            let end = run(
                SaveTransaction::started(autostart_available),
                Saved::untouched(),
                answers,
            );
            end.1 matches SaveStep::Done(Ok(_)) ==> {
                &&& end.2.hotkey == Phase::New
                &&& end.2.config == Phase::New
                &&& end.2.autostart == if autostart_available {
                    Phase::Prepared
                } else {
                    Phase::Old
                }
            }
        }),
{
    lemma_run(SaveTransaction::started(autostart_available), Saved::untouched(), answers);
}

/// Failure, wherever it happens, leaves everything as it was, unless something that was to be
/// taken back could not be. A preparation is taken to answer for itself: one that fails leaves
/// nothing to take back.
pub proof fn law_failure_leaves_everything_as_it_was(
    autostart_available: bool,
    answers: Seq<Result<(), String>>,
)
    ensures
        ({
            let end = run(
                SaveTransaction::started(autostart_available),
                Saved::untouched(),
                answers,
            );
            end.1 matches SaveStep::Done(Err(_)) ==> end.2.stuck || end.2 == Saved::untouched()
        }),
{
    lemma_run(SaveTransaction::started(autostart_available), Saved::untouched(), answers);
}

/// A failure is reported as what it was, in the words of the party that failed, and so is each thing
/// that could not be taken back after it.
pub proof fn law_a_failure_is_reported_as_it_was(
    transaction: SaveTransaction,
    report: SaveReport,
    detail: String,
)
    ensures
        ({
            let failing = |stage: SaveStage| transaction.at(stage).resume_next(
                Err::<(), String>(detail),
            );
            let fresh = |failure: SaveFailure| SaveReport {
                failure,
                detail,
                hotkey: None,
                autostart: None,
                config: None,
            };
            &&& failing(SaveStage::PreparingHotkey).1 == SaveStep::Done(
                Err(SaveError::Refused(detail)),
            )
            &&& failing(SaveStage::PreparingAutostart).0.stage == (SaveStage::DroppingHotkey {
                error: detail,
            })
            &&& failing(SaveStage::Saving).0.stage == (SaveStage::RollingBackHotkey {
                report: fresh(SaveFailure::NotSaved),
            })
            &&& failing(SaveStage::Committing).0.stage == (SaveStage::RollingBackHotkey {
                report: fresh(SaveFailure::NotCommitted),
            })
            &&& transaction.autostart_available ==> failing(
                SaveStage::RollingBackHotkey { report },
            ).0.stage == (SaveStage::RollingBackAutostart {
                report: SaveReport { hotkey: Some(detail), ..report },
            })
            &&& failing(SaveStage::RollingBackAutostart { report }).0.stage == (
            SaveStage::RestoringConfig {
                report: SaveReport { autostart: Some(detail), ..report },
            })
            &&& report.autostart is None && report.hotkey is None ==> failing(
                SaveStage::RestoringConfig { report },
            ).1 == SaveStep::Done(
                Err(SaveError::Failed(SaveReport { config: Some(detail), ..report })),
            )
            &&& failing(SaveStage::RetryingHotkey { report }).1 == SaveStep::Done(
                Err(SaveError::Failed(report)),
            )
        }),
        transaction.at(SaveStage::DroppingHotkey { error: detail }).resume_next(Ok(())).1
            == SaveStep::Done(Err(SaveError::Refused(detail))),
        ({
            let report = SaveReport { hotkey: None, ..report };
            transaction.at(SaveStage::RollingBackHotkey { report }).resume_next(Ok(())).0.stage
                == if transaction.autostart_available {
                SaveStage::RollingBackAutostart { report }
            } else {
                SaveStage::RestoringConfig { report }
            }
        }),
{
}

/// Saving goes forward in one order: the hotkey and the registration are prepared before the file is
/// written, and the hotkey is committed last. Backward it goes in the same order, hotkey first.
pub proof fn law_saving_goes_in_order(transaction: SaveTransaction, report: SaveReport)
    ensures
        ({
            let next = |stage: SaveStage| transaction.at(stage).resume_next(Ok(())).1;
            &&& SaveTransaction::started(transaction.autostart_available).1 == SaveStep::Call(
                SaveCall::PrepareHotkey,
            )
            &&& next(SaveStage::PreparingHotkey) == SaveStep::Call(
                if transaction.autostart_available {
                    SaveCall::PrepareAutostart
                } else {
                    SaveCall::SaveConfig
                },
            )
            &&& next(SaveStage::PreparingAutostart) == SaveStep::Call(SaveCall::SaveConfig)
            &&& next(SaveStage::Saving) == SaveStep::Call(SaveCall::CommitHotkey)
            &&& next(SaveStage::Committing) == SaveStep::Done(Ok(()))
            &&& next(SaveStage::RollingBackHotkey { report }) == SaveStep::Call(
                if transaction.autostart_available {
                    SaveCall::RollbackAutostart
                } else {
                    SaveCall::RestoreConfig
                },
            )
            &&& next(SaveStage::RollingBackAutostart { report }) == SaveStep::Call(
                SaveCall::RestoreConfig,
            )
        }),
{
}

/// What could not be taken back is tried once more, the registration before the hotkey and after
/// the file; the report keeps the words of the first try. Where a step was refused, the hotkey is
/// taken back first.
pub proof fn law_what_is_stuck_is_tried_again(
    transaction: SaveTransaction,
    report: SaveReport,
    answer: Result<(), String>,
)
    ensures
        ({
            let next = |stage: SaveStage| transaction.at(stage).resume_next(answer);
            let told = SaveReport {
                config: match answer {
                    Ok(_) => None,
                    Err(words) => Some(words),
                },
                ..report
            };
            let end = SaveStep::Done(Err(SaveError::Failed(told)));
            let restored = next(SaveStage::RestoringConfig { report });
            let retried = next(SaveStage::RetryingAutostart { report });
            &&& report.autostart is Some ==> {
                &&& restored.0.stage == (SaveStage::RetryingAutostart { report: told })
                &&& restored.1 == SaveStep::Call(SaveCall::RollbackAutostart)
            }
            &&& report.autostart is None && report.hotkey is Some ==> {
                &&& restored.0.stage == (SaveStage::RetryingHotkey { report: told })
                &&& restored.1 == SaveStep::Call(SaveCall::RollbackHotkey)
            }
            &&& report.autostart is None && report.hotkey is None ==> restored.1 == end
            &&& report.hotkey is Some ==> {
                &&& retried.0.stage == (SaveStage::RetryingHotkey { report })
                &&& retried.1 == SaveStep::Call(SaveCall::RollbackHotkey)
            }
            &&& report.hotkey is None ==> retried.1 == SaveStep::Done(
                Err(SaveError::Failed(report)),
            )
            &&& next(SaveStage::RetryingHotkey { report }).1 == SaveStep::Done(
                Err(SaveError::Failed(report)),
            )
            &&& answer is Err ==> {
                &&& next(SaveStage::PreparingAutostart).1 == SaveStep::Call(
                    SaveCall::RollbackHotkey,
                )
                &&& next(SaveStage::Saving).1 == SaveStep::Call(SaveCall::RollbackHotkey)
                &&& next(SaveStage::Committing).1 == SaveStep::Call(SaveCall::RollbackHotkey)
                &&& !transaction.autostart_available ==> next(
                    SaveStage::RollingBackHotkey { report },
                ).0.stage == (SaveStage::RestoringConfig {
                    report: SaveReport { hotkey: Some(answer->Err_0), ..report },
                })
            }
        }),
{
}

/// A report ends with the words of the last thing that went wrong, and each reason follows the one
/// before it.
pub proof fn law_a_report_tells_every_reason(report: SaveReport, words: String)
    ensures
        ({
            let bare = SaveReport { hotkey: None, autostart: None, config: None, ..report };
            let ends = |told: Seq<char>, with: Seq<char>| {
                &&& told.len() >= with.len()
                &&& told.skip(told.len() - with.len()) == with
            };
            let begins = |told: Seq<char>, with: Seq<char>| {
                &&& told.len() > with.len()
                &&& told.take(with.len() as int) == with
            };
            let stuck = SaveReport { hotkey: Some(words), ..bare };
            let kept = SaveReport { autostart: Some(words), config: None, ..report };
            let unsaved = SaveReport { config: Some(words), ..report };
            &&& ends(bare.text(), report.detail@)
            &&& ends(stuck.text(), words@) && begins(stuck.text(), bare.text())
            &&& ends(kept.text(), words@) && begins(
                kept.text(),
                (SaveReport { autostart: None, ..kept }).text(),
            )
            &&& ends(unsaved.text(), words@) && begins(
                unsaved.text(),
                (SaveReport { config: None, ..report }).text(),
            )
            &&& SaveError::Failed(report).text() == report.text()
            &&& SaveError::Refused(words).text() == words@
        }),
{
    reveal_strlit("\nホットキー登録の復元にも失敗しました: ");
    reveal_strlit("\nWindows自動起動登録の復元にも失敗しました: ");
    reveal_strlit("\n設定ファイルの復元にも失敗しました: ");
    let bare = SaveReport { hotkey: None, autostart: None, config: None, ..report };
    let told = bare.text();
    assert(told.skip(told.len() - report.detail@.len()) =~= report.detail@);
    let stuck = SaveReport { hotkey: Some(words), ..bare };
    assert(stuck.text().skip(stuck.text().len() - words@.len()) =~= words@);
    assert(stuck.text().take(told.len() as int) =~= told);
    let kept = SaveReport { autostart: Some(words), config: None, ..report };
    let without = SaveReport { autostart: None, ..kept };
    assert(kept.text().skip(kept.text().len() - words@.len()) =~= words@);
    assert(kept.text().take(without.text().len() as int) =~= without.text());
    let unsaved = SaveReport { config: Some(words), ..report };
    let before = SaveReport { config: None, ..report };
    assert(unsaved.text().skip(unsaved.text().len() - words@.len()) =~= words@);
    assert(unsaved.text().take(before.text().len() as int) =~= before.text());
}

} // verus!
