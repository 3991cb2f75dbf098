//! The setup that makes the fallback path work without elevation: interactive
//! users are granted the right to start and stop the audio service, and the
//! grant can be taken back. Both are scripts: they say what to do next, the
//! caller does it and hands back what came of it.
use vstd::prelude::*;

use crate::descriptor::{
    granted, granting_grants, has_grant, is_granted, revoked, revoking_undoes_granting, with_grant,
    without_grant,
};

verus! {

/// Registry key, under the current user, for the backup of the descriptor.
pub const SDDL_BACKUP_KEY: &'static str = r"Software\loudeq";

/// Value that holds the backup.
pub const SDDL_BACKUP_VALUE: &'static str = "AudiosrvSddlBackup";

/// How far a setup has come.
#[derive(Clone, Copy, Debug, PartialEq, Eq, Structural)]
pub enum SetupStage {
    Read,
    OpenBackup,
    LookUpBackup,
    SaveBackup,
    Assign,
    DropBackup,
    Ended,
}

/// What a setup has to say when it ends well.
#[derive(Clone, Copy, Debug, PartialEq, Eq, Structural)]
pub enum SetupNote {
    /// The grant was there before.
    AlreadyGranted,
    /// The grant has been made.
    Granted,
    /// There was no grant to take back.
    NothingToRemove,
    /// The grant has been taken back.
    Removed,
}

/// What the caller of a setup does next.
#[derive(Debug)]
pub enum SetupCommand {
    /// Read the descriptor of the audio service.
    ReadDescriptor,
    /// Open the backup key, and create it if need be.
    OpenBackup,
    /// Read the backup.
    ReadBackup,
    /// Save this descriptor as the backup.
    SaveBackup(String),
    /// Give the audio service this descriptor.
    SetDescriptor(String),
    /// Delete the backup. Whether that succeeds does not matter.
    DropBackup,
    /// The setup has ended well.
    Done(SetupNote),
    /// The setup has failed, for this reason.
    Failed(String),
}

/// A command as contracts see it.
pub enum SetupCommandView {
    ReadDescriptor,
    OpenBackup,
    ReadBackup,
    SaveBackup(Seq<char>),
    SetDescriptor(Seq<char>),
    DropBackup,
    Done(SetupNote),
    Failed(Seq<char>),
}

impl View for SetupCommand {
    type V = SetupCommandView;

    open spec fn view(&self) -> SetupCommandView {
        match self {
            SetupCommand::ReadDescriptor => SetupCommandView::ReadDescriptor,
            SetupCommand::OpenBackup => SetupCommandView::OpenBackup,
            SetupCommand::ReadBackup => SetupCommandView::ReadBackup,
            SetupCommand::SaveBackup(sddl) => SetupCommandView::SaveBackup(sddl@),
            SetupCommand::SetDescriptor(sddl) => SetupCommandView::SetDescriptor(sddl@),
            SetupCommand::DropBackup => SetupCommandView::DropBackup,
            SetupCommand::Done(note) => SetupCommandView::Done(*note),
            SetupCommand::Failed(reason) => SetupCommandView::Failed(reason@),
        }
    }
}

/// What came of a command: the text that was asked for, or the reason why the
/// command failed.
pub open spec fn answer_view(answer: Result<String, String>) -> Result<Seq<char>, Seq<char>> {
    match answer {
        Ok(text) => Ok(text@),
        Err(reason) => Err(reason@),
    }
}

/// A setup as contracts see it.
pub struct SetupView {
    pub remove: bool,
    pub stage: SetupStage,
    /// The descriptor to be backed up or set.
    pub sddl: Seq<char>,
    pub note: SetupNote,
    pub error: Option<Seq<char>>,
}

impl SetupView {
    /// A setup that has not begun.
    pub open spec fn fresh(remove: bool) -> SetupView {
        SetupView {
            remove,
            stage: SetupStage::Read,
            sddl: seq![],
            note: if remove {
                SetupNote::Removed
            } else {
                SetupNote::Granted
            },
            error: None,
        }
    }

    /// The setup moved to a stage.
    pub open spec fn moved(self, stage: SetupStage) -> SetupView {
        SetupView { stage, ..self }
    }

    /// The setup ended with a note.
    pub open spec fn noted(self, note: SetupNote) -> SetupView {
        SetupView { stage: SetupStage::Ended, note, ..self }
    }

    /// The setup ended by an error.
    pub open spec fn failed(self, reason: Seq<char>) -> SetupView {
        SetupView { stage: SetupStage::Ended, error: Some(reason), ..self }
    }

    /// The setup about to set a descriptor.
    pub open spec fn setting(self, sddl: Seq<char>) -> SetupView {
        SetupView { stage: SetupStage::Assign, sddl, ..self }
    }

    /// The setup after what came of its command.
    pub open spec fn next(self, answer: Result<Seq<char>, Seq<char>>) -> SetupView {
        match (self.stage, answer) {
            (SetupStage::Read, Err(reason)) => self.failed(reason),
            (SetupStage::Read, Ok(sddl)) => if self.remove {
                if has_grant(sddl) {
                    SetupView { stage: SetupStage::LookUpBackup, sddl: revoked(sddl), ..self }
                } else {
                    self.noted(SetupNote::NothingToRemove)
                }
            } else if has_grant(sddl) {
                self.noted(SetupNote::AlreadyGranted)
            } else {
                SetupView { stage: SetupStage::OpenBackup, sddl, ..self }
            },
            (SetupStage::OpenBackup, Err(reason)) => self.failed(
                "cannot create backup registry key: "@ + reason,
            ),
            (SetupStage::OpenBackup, Ok(_)) => self.moved(SetupStage::LookUpBackup),
            (SetupStage::LookUpBackup, Ok(backup)) if self.remove => self.setting(backup),
            (SetupStage::LookUpBackup, Err(_)) if self.remove => self.setting(self.sddl),
            (SetupStage::LookUpBackup, Err(_)) => self.moved(SetupStage::SaveBackup),
            (SetupStage::SaveBackup, Err(reason)) => self.failed(
                "cannot back up current permissions: "@ + reason,
            ),
            (SetupStage::LookUpBackup, Ok(_)) | (SetupStage::SaveBackup, Ok(_)) => self.setting(
                granted(self.sddl),
            ),
            (SetupStage::Assign, Err(reason)) => self.failed(reason),
            (SetupStage::Assign, Ok(_)) => if self.remove {
                self.moved(SetupStage::DropBackup)
            } else {
                self.noted(self.note)
            },
            (SetupStage::DropBackup, _) => self.noted(self.note),
            (SetupStage::Ended, _) => self,
        }
    }

    /// What the setup asks for.
    pub open spec fn asks(self) -> SetupCommandView {
        match self.stage {
            SetupStage::Read => SetupCommandView::ReadDescriptor,
            SetupStage::OpenBackup => SetupCommandView::OpenBackup,
            SetupStage::LookUpBackup => SetupCommandView::ReadBackup,
            SetupStage::SaveBackup => SetupCommandView::SaveBackup(self.sddl),
            SetupStage::Assign => SetupCommandView::SetDescriptor(self.sddl),
            SetupStage::DropBackup => SetupCommandView::DropBackup,
            SetupStage::Ended => match self.error {
                Some(reason) => SetupCommandView::Failed(reason),
                None => SetupCommandView::Done(self.note),
            },
        }
    }
}

/// A setup, or the removal of one.
#[derive(Debug)]
pub struct Setup {
    remove: bool,
    stage: SetupStage,
    sddl: String,
    note: SetupNote,
    error: Option<String>,
}

impl View for Setup {
    type V = SetupView;

    closed spec fn view(&self) -> SetupView {
        SetupView {
            remove: self.remove,
            stage: self.stage,
            sddl: self.sddl@,
            note: self.note,
            error: match self.error {
                Some(reason) => Some(reason@),
                None => None,
            },
        }
    }
}

/// Begins to grant interactive users the right to start and stop the audio
/// service. The descriptor is backed up first, unless there is a backup.
pub fn grant_service_rights() -> (r: Setup)
    ensures
        r@ == SetupView::fresh(false),
{
    Setup {
        remove: false,
        stage: SetupStage::Read,
        sddl: String::new(),
        note: SetupNote::Granted,
        error: None,
    }
}

/// Begins to take the grant back. The descriptor that was backed up is set
/// again; where there is no backup, the grant is taken out of the one that is
/// there.
pub fn remove_service_grant() -> (r: Setup)
    ensures
        r@ == SetupView::fresh(true),
{
    Setup {
        remove: true,
        stage: SetupStage::Read,
        sddl: String::new(),
        note: SetupNote::Removed,
        error: None,
    }
}

impl Setup {
    /// What the caller does next.
    pub fn command(&self) -> (r: SetupCommand)
        ensures
            r@ == self@.asks(),
    {
        match self.stage {
            SetupStage::Read => SetupCommand::ReadDescriptor,
            SetupStage::OpenBackup => SetupCommand::OpenBackup,
            SetupStage::LookUpBackup => SetupCommand::ReadBackup,
            SetupStage::SaveBackup => SetupCommand::SaveBackup(self.sddl.clone()),
            SetupStage::Assign => SetupCommand::SetDescriptor(self.sddl.clone()),
            SetupStage::DropBackup => SetupCommand::DropBackup,
            SetupStage::Ended => {
                match &self.error {
                    Some(reason) => SetupCommand::Failed(reason.clone()),
                    None => SetupCommand::Done(self.note),
                }
            },
        }
    }

    /// Goes on after what came of the command.
    pub fn advance(&mut self, answer: Result<String, String>)
        ensures
            final(self)@ == old(self)@.next(answer_view(answer)),
    {
        match self.stage {
            SetupStage::Read => {
                match answer {
                    Err(reason) => {
                        self.fail(reason);
                    },
                    Ok(sddl) => {
                        let has: bool = is_granted(sddl.as_str());
                        if self.remove {
                            if has {
                                self.sddl = without_grant(sddl.as_str());
                                self.stage = SetupStage::LookUpBackup;
                            } else {
                                self.note = SetupNote::NothingToRemove;
                                self.stage = SetupStage::Ended;
                            }
                        } else if has {
                            self.note = SetupNote::AlreadyGranted;
                            self.stage = SetupStage::Ended;
                        } else {
                            self.sddl = sddl;
                            self.stage = SetupStage::OpenBackup;
                        }
                    },
                }
            },
            SetupStage::OpenBackup => {
                match answer {
                    Err(reason) => {
                        self.fail_with("cannot create backup registry key: ", reason);
                    },
                    Ok(_) => {
                        self.stage = SetupStage::LookUpBackup;
                    },
                }
            },
            SetupStage::LookUpBackup => {
                match answer {
                    Ok(backup) => {
                        self.sddl = if self.remove {
                            backup
                        } else {
                            with_grant(self.sddl.as_str())
                        };
                        self.stage = SetupStage::Assign;
                    },
                    Err(_) => {
                        self.stage = if self.remove {
                            SetupStage::Assign
                        } else {
                            SetupStage::SaveBackup
                        };
                    },
                }
            },
            SetupStage::SaveBackup => {
                match answer {
                    Err(reason) => {
                        self.fail_with("cannot back up current permissions: ", reason);
                    },
                    Ok(_) => {
                        self.sddl = with_grant(self.sddl.as_str());
                        self.stage = SetupStage::Assign;
                    },
                }
            },
            SetupStage::Assign => {
                match answer {
                    Err(reason) => {
                        self.fail(reason);
                    },
                    Ok(_) => {
                        self.stage = if self.remove {
                            SetupStage::DropBackup
                        } else {
                            SetupStage::Ended
                        };
                    },
                }
            },
            SetupStage::DropBackup => {
                self.stage = SetupStage::Ended;
            },
            SetupStage::Ended => {},
        }
    }

    /// Ends with an error.
    fn fail(&mut self, reason: String)
        ensures
            final(self)@ == old(self)@.failed(reason@),
    {
        self.stage = SetupStage::Ended;
        self.error = Some(reason);
    }

    /// Ends with an error that says what failed.
    fn fail_with(&mut self, what: &str, reason: String)
        ensures
            final(self)@ == old(self)@.failed(what@ + reason@),
    {
        let mut text: String = what.to_owned();
        text.append(reason.as_str());
        self.fail(text);
    }
}

/// What a setup has to say, line by line.
pub open spec fn note_lines(note: SetupNote) -> Seq<Seq<char>> {
    match note {
        SetupNote::AlreadyGranted => seq![
            "Already set up — toggling works without UAC prompts."@,
        ],
        SetupNote::Granted => seq![
            "Setup complete — from now on, toggling Loudness Equalization won't show UAC prompts."@,
            "(undo anytime with `loudeq setup --remove`)"@,
        ],
        SetupNote::NothingToRemove => seq![
            "Nothing to remove — the service permissions were not modified."@,
        ],
        SetupNote::Removed => seq![
            "Removed — toggling will ask for UAC elevation again."@,
        ],
    }
}

/// What a setup has to say, line by line.
pub fn setup_lines(note: SetupNote) -> (r: Vec<String>)
    ensures
        r@.map_values(|s: String| s@) == note_lines(note),
{
    let mut out: Vec<String> = Vec::new();
    match note {
        SetupNote::AlreadyGranted => {
            out.push("Already set up — toggling works without UAC prompts.".to_owned());
        },
        SetupNote::Granted => {
            out.push(
                "Setup complete — from now on, toggling Loudness Equalization won't show UAC prompts.".to_owned(),
            );
            out.push("(undo anytime with `loudeq setup --remove`)".to_owned());
        },
        SetupNote::NothingToRemove => {
            out.push("Nothing to remove — the service permissions were not modified.".to_owned());
        },
        SetupNote::Removed => {
            out.push("Removed — toggling will ask for UAC elevation again.".to_owned());
        },
    }
    assert(out@.map_values(|s: String| s@) =~= note_lines(note));
    out
}

/// On a descriptor without the grant, a setup that finds a backup, or that could
/// save one, sets the descriptor with the grant. What it saves is the descriptor
/// that it found.
pub proof fn setup_grants(
    sddl: Seq<char>,
    opened: Seq<char>,
    backup: Result<Seq<char>, Seq<char>>,
    saved: Seq<char>,
)
    requires
        !has_grant(sddl),
    ensures
        ({
            let looked_up = SetupView::fresh(false).next(Ok(sddl)).next(Ok(opened)).next(backup);
            let ready = match backup {
                Ok(_) => looked_up,
                Err(_) => looked_up.next(Ok(saved)),
            };
            &&& backup is Err ==> looked_up.asks() == SetupCommandView::SaveBackup(sddl)
            &&& ready.asks() == SetupCommandView::SetDescriptor(granted(sddl))
        }),
{
}

/// A removal on a descriptor with the grant restores the one that was backed up,
/// whatever has become of the descriptor since. Without a backup it sets the
/// descriptor less the grant. On a descriptor as a setup made it, that is the
/// one that was there before the setup. Once it is set, the backup is dropped.
pub proof fn removal_restores_the_descriptor(
    current: Seq<char>,
    backup: Result<Seq<char>, Seq<char>>,
    done: Seq<char>,
    before: Seq<char>,
)
    requires
        has_grant(current),
    ensures
        ({
            let looked_up = SetupView::fresh(true).next(Ok(current));
            let ready = looked_up.next(backup);
            let set = match backup {
                Ok(b) => b,
                Err(_) => revoked(current),
            };
            &&& looked_up.asks() == SetupCommandView::ReadBackup
            &&& ready.asks() == SetupCommandView::SetDescriptor(set)
            &&& !has_grant(before) && current == granted(before) && backup is Err ==> set == before
            &&& ready.next(Ok(done)).asks() == SetupCommandView::DropBackup
        }),
{
    if !has_grant(before) {
        revoking_undoes_granting(before);
    }
}

/// A removal undoes a setup: where the setup found no backup and saved one, the
/// removal that reads it sets the descriptor that was there before the setup.
pub proof fn removal_undoes_setup(sddl: Seq<char>, opened: Seq<char>, none: Seq<char>)
    requires
        !has_grant(sddl),
    ensures
        ({
            let saving = SetupView::fresh(false).next(Ok(sddl)).next(Ok(opened)).next(Err(none));
            let saved = saving.asks()->SaveBackup_0;
            let given = saving.next(Ok(opened)).asks()->SetDescriptor_0;
            &&& saving.asks() is SaveBackup
            &&& saving.next(Ok(opened)).asks() is SetDescriptor
            &&& SetupView::fresh(true).next(Ok(given)).next(Ok(saved)).asks()
                == SetupCommandView::SetDescriptor(sddl)
        }),
{
    granting_grants(sddl);
}

/// A setup that was made before changes nothing.
pub proof fn setup_is_idempotent(sddl: Seq<char>)
    ensures
        SetupView::fresh(false).next(Ok(granted(sddl))).asks() == SetupCommandView::Done(
            SetupNote::AlreadyGranted,
        ),
{
    granting_grants(sddl);
}

/// A backup that is there is kept: one is saved only where none could be read,
/// and what is saved is the descriptor that was found.
pub proof fn oldest_backup_is_kept(s: SetupView, answer: Result<Seq<char>, Seq<char>>)
    requires
        s.next(answer).asks() is SaveBackup,
        s.stage != SetupStage::SaveBackup,
    ensures
        !s.remove,
        s.stage == SetupStage::LookUpBackup,
        answer is Err,
        s.next(answer).asks() == SetupCommandView::SaveBackup(s.sddl),
{
}

/// A setup that fails at a step says so with the reason of that step: that the
/// backup could not be opened or saved, or what kept the descriptor from being
/// read or set. It ends there.
pub proof fn failed_setup_says_why(
    sddl: Seq<char>,
    opened: Seq<char>,
    backup: Result<Seq<char>, Seq<char>>,
    reason: Seq<char>,
    remove: bool,
)
    ensures
        SetupView::fresh(remove).asks() == SetupCommandView::ReadDescriptor,
        SetupView::fresh(remove).next(Err(reason)).asks() == SetupCommandView::Failed(reason),
        !has_grant(sddl) ==> {
            let found = SetupView::fresh(false).next(Ok(sddl));
            let looked_up = found.next(Ok(opened)).next(backup);
            let saved = if backup is Ok {
                looked_up
            } else {
                looked_up.next(Ok(opened))
            };
            &&& found.asks() == SetupCommandView::OpenBackup
            &&& found.next(Err(reason)).asks() == SetupCommandView::Failed(
                "cannot create backup registry key: "@ + reason,
            )
            &&& found.next(Ok(opened)).asks() == SetupCommandView::ReadBackup
            &&& backup is Err ==> looked_up.next(Err(reason)).asks() == SetupCommandView::Failed(
                "cannot back up current permissions: "@ + reason,
            )
            &&& saved.next(Err(reason)).asks() == SetupCommandView::Failed(reason)
        },
        has_grant(sddl) ==> SetupView::fresh(true).next(Ok(sddl)).next(backup).next(
            Err(reason),
        ).asks() == SetupCommandView::Failed(reason),
{
}

/// A setup that ends well says what became of the grant: made, or there before;
/// taken back, or not there to be taken back. Whether the backup could be
/// dropped does not matter.
pub proof fn finished_setup_says_what_it_did(
    sddl: Seq<char>,
    done: Seq<char>,
    backup: Result<Seq<char>, Seq<char>>,
    dropped: Result<Seq<char>, Seq<char>>,
)
    ensures
        has_grant(sddl) ==> SetupView::fresh(false).next(Ok(sddl)).asks()
            == SetupCommandView::Done(SetupNote::AlreadyGranted),
        !has_grant(sddl) ==> SetupView::fresh(true).next(Ok(sddl)).asks()
            == SetupCommandView::Done(SetupNote::NothingToRemove),
        !has_grant(sddl) ==> SetupView::fresh(false).next(Ok(sddl)).next(Ok(done)).next(
            Ok(done),
        ).next(Ok(done)).asks() == SetupCommandView::Done(SetupNote::Granted),
        !has_grant(sddl) ==> SetupView::fresh(false).next(Ok(sddl)).next(Ok(done)).next(
            Err(done),
        ).next(Ok(done)).next(Ok(done)).asks() == SetupCommandView::Done(SetupNote::Granted),
        has_grant(sddl) ==> SetupView::fresh(true).next(Ok(sddl)).next(backup).next(Ok(done)).next(
            dropped,
        ).asks() == SetupCommandView::Done(SetupNote::Removed),
{
}

/// What a setup has to say is told in these words.
pub proof fn notes_are_told_in_these_words()
    ensures
        note_lines(SetupNote::AlreadyGranted) == seq![
            "Already set up — toggling works without UAC prompts."@,
        ],
        note_lines(SetupNote::Granted) == seq![
            "Setup complete — from now on, toggling Loudness Equalization won't show UAC prompts."@,
            "(undo anytime with `loudeq setup --remove`)"@,
        ],
        note_lines(SetupNote::NothingToRemove) == seq![
            "Nothing to remove — the service permissions were not modified."@,
        ],
        note_lines(SetupNote::Removed) == seq![
            "Removed — toggling will ask for UAC elevation again."@,
        ],
{
}

/// Commands and answers are seen whole.
pub proof fn commands_are_seen_whole(text: String, note: SetupNote)
    ensures
        SetupCommand::ReadDescriptor@ == SetupCommandView::ReadDescriptor,
        SetupCommand::OpenBackup@ == SetupCommandView::OpenBackup,
        SetupCommand::ReadBackup@ == SetupCommandView::ReadBackup,
        SetupCommand::SaveBackup(text)@ == SetupCommandView::SaveBackup(text@),
        SetupCommand::SetDescriptor(text)@ == SetupCommandView::SetDescriptor(text@),
        SetupCommand::DropBackup@ == SetupCommandView::DropBackup,
        SetupCommand::Done(note)@ == SetupCommandView::Done(note),
        SetupCommand::Failed(text)@ == SetupCommandView::Failed(text@),
        answer_view(Ok(text)) == Ok::<Seq<char>, Seq<char>>(text@),
        answer_view(Err(text)) == Err::<Seq<char>, Seq<char>>(text@),
{
}

} // verus!
