//! The pages that run a system action (system update, codec install,
//! driver manager): their buttons, the log dialog, and the commands.
use vstd::prelude::*;
use vstd::string::*;
use crate::navigation::{following, next_page, Page};
use crate::text::texts;

verus! {

/// The script that updates and upgrades the system.
pub const APT_UPDATE_PROG: &'static str = "
#! /bin/bash
set -e
sudo apt update -y && sudo apt full-upgrade -y
";

/// The script that installs the multimedia codecs.
pub const CODEC_INSTALL_PROG: &'static str = "
#! /bin/bash
set -e
sudo apt update -y && sudo apt install pika-codecs-meta -y
";

/// The script behind the last page's button: drop the live user, restart.
pub const REBOOT_PROG: &'static str = r###"
#! /bin/bash
userdel -r -f pikaos
reboot
"###;

/// The action a page offers.
#[derive(Clone, Copy, Debug, PartialEq, Eq, Structural)]
pub enum ActionKind {
    /// Update the system, with a log dialog.
    SystemUpdate,
    /// Install the codecs, with a log dialog.
    Codecs,
    /// Launch the driver manager.
    Drivers,
}

/// The page of the carousel that offers an action.
pub open spec fn action_page(kind: ActionKind) -> Page {
    match kind {
        ActionKind::SystemUpdate => Page::Update,
        ActionKind::Codecs => Page::Codecs,
        ActionKind::Drivers => Page::Drivers,
    }
}

/// The page of the carousel that offers an action.
pub fn page_of(kind: ActionKind) -> (r: Page)
    ensures
        r == action_page(kind),
{
    match kind {
        ActionKind::SystemUpdate => Page::Update,
        ActionKind::Codecs => Page::Codecs,
        ActionKind::Drivers => Page::Drivers,
    }
}

/// Whether the action runs a script whose output the log dialog shows.
pub open spec fn has_log(kind: ActionKind) -> bool {
    kind != ActionKind::Drivers
}

/// The label of the action button.
#[derive(Clone, Copy, Debug, PartialEq, Eq, Structural)]
pub enum ActionLabel {
    /// The action's own label.
    Offer,
    /// The action needs the network and its setup was skipped.
    NetworkDisabled,
}

/// The label of the button that leaves the page.
#[derive(Clone, Copy, Debug, PartialEq, Eq, Structural)]
pub enum SkipLabel {
    /// The page's own "skip this step" label.
    SkipStep,
    /// The plain "Skip" label.
    Skip,
    /// "Next": the action has been done.
    Next,
}

/// What the log dialog says under its heading.
#[derive(Clone, Copy, Debug, PartialEq, Eq, Structural)]
pub enum DialogBody {
    Empty,
    Succeeded,
    Failed,
}

/// The state of an action page.
pub struct ActionPage {
    pub kind: ActionKind,
    pub action_enabled: bool,
    pub action_label: ActionLabel,
    /// The action button carries the "suggested" style.
    pub action_suggested: bool,
    pub skip_label: SkipLabel,
    /// The leave button carries the "suggested" style.
    pub skip_suggested: bool,
    /// The log dialog's "Ok" answer can be chosen.
    pub dialog_ok_enabled: bool,
    pub dialog_body: DialogBody,
    /// The text of the log view.
    pub log: String,
}

/// The label the leave button gets back after a failed run.
pub open spec fn retry_skip_label(kind: ActionKind) -> SkipLabel {
    match kind {
        ActionKind::SystemUpdate => SkipLabel::Skip,
        _ => SkipLabel::SkipStep,
    }
}

impl ActionPage {
    /// Exactly one of the two buttons is suggested, and the leave button is
    /// suggested exactly when it reads "Next".
    pub open spec fn wf(&self) -> bool {
        &&& self.action_suggested != self.skip_suggested
        &&& self.skip_suggested == (self.skip_label == SkipLabel::Next)
    }

    /// The page as it opens: the action waits for the network check, the
    /// action is suggested, the log is empty.
    pub fn new(kind: ActionKind) -> (r: ActionPage)
        ensures
            r.wf(),
            r.kind == kind,
            !r.action_enabled,
            r.action_label == ActionLabel::Offer,
            r.action_suggested,
            r.skip_label == SkipLabel::SkipStep,
            r.dialog_ok_enabled,
            r.dialog_body == DialogBody::Empty,
            r.log@ == Seq::<char>::empty(),
    {
        ActionPage {
            kind,
            action_enabled: false,
            action_label: ActionLabel::Offer,
            action_suggested: true,
            skip_label: SkipLabel::SkipStep,
            skip_suggested: false,
            dialog_ok_enabled: true,
            dialog_body: DialogBody::Empty,
            log: String::new(),
        }
    }

    /// The once-a-second check of the shared network flag: the action is
    /// offered only with a network.
    pub fn record_tick(&mut self, connected: bool)
        requires
            old(self).wf(),
        ensures
            final(self).wf(),
            final(self).action_enabled == connected,
            final(self).action_label == (if connected {
                ActionLabel::Offer
            } else {
                ActionLabel::NetworkDisabled
            }),
            final(self).kind == old(self).kind,
            final(self).action_suggested == old(self).action_suggested,
            final(self).skip_label == old(self).skip_label,
            final(self).skip_suggested == old(self).skip_suggested,
            final(self).dialog_ok_enabled == old(self).dialog_ok_enabled,
            final(self).dialog_body == old(self).dialog_body,
            final(self).log@ == old(self).log@,
    {
        self.action_enabled = connected;
        if connected {
            self.action_label = ActionLabel::Offer;
        } else {
            self.action_label = ActionLabel::NetworkDisabled;
        }
    }

    /// The action button of a page with a log was pressed: the log is
    /// cleared and the dialog waits, without an answer, for the run.
    pub fn record_run_started(&mut self)
        requires
            old(self).wf(),
            has_log(old(self).kind),
        ensures
            final(self).wf(),
            final(self).log@ == Seq::<char>::empty(),
            !final(self).dialog_ok_enabled,
            final(self).dialog_body == DialogBody::Empty,
            final(self).kind == old(self).kind,
            final(self).action_enabled == old(self).action_enabled,
            final(self).action_label == old(self).action_label,
            final(self).action_suggested == old(self).action_suggested,
            final(self).skip_label == old(self).skip_label,
            final(self).skip_suggested == old(self).skip_suggested,
    {
        self.log = String::new();
        self.dialog_ok_enabled = false;
        self.dialog_body = DialogBody::Empty;
    }

    /// A line of the script's output: it goes to the log on a line of its own.
    pub fn record_log_line(&mut self, line: &str)
        requires
            old(self).wf(),
        ensures
            final(self).wf(),
            final(self).log@ == old(self).log@ + "\n"@ + line@,
            final(self).kind == old(self).kind,
            final(self).action_enabled == old(self).action_enabled,
            final(self).action_label == old(self).action_label,
            final(self).action_suggested == old(self).action_suggested,
            final(self).skip_label == old(self).skip_label,
            final(self).skip_suggested == old(self).skip_suggested,
            final(self).dialog_ok_enabled == old(self).dialog_ok_enabled,
            final(self).dialog_body == old(self).dialog_body,
    {
        self.log.append("\n");
        self.log.append(line);
    }

    /// The script has ended. The dialog can be closed and says how it went;
    /// after a success the page suggests leaving with "Next", after a
    /// failure it suggests the action again.
    pub fn record_run_finished(&mut self, success: bool)
        requires
            old(self).wf(),
        ensures
            final(self).wf(),
            final(self).dialog_ok_enabled,
            success ==> {
                &&& final(self).dialog_body == DialogBody::Succeeded
                &&& final(self).skip_label == SkipLabel::Next
                &&& !final(self).action_suggested
            },
            !success ==> {
                &&& final(self).dialog_body == DialogBody::Failed
                &&& final(self).skip_label == retry_skip_label(old(self).kind)
                &&& final(self).action_suggested
            },
            final(self).kind == old(self).kind,
            final(self).action_enabled == old(self).action_enabled,
            final(self).action_label == old(self).action_label,
            final(self).log@ == old(self).log@,
    {
        if success {
            self.dialog_ok_enabled = true;
            self.dialog_body = DialogBody::Succeeded;
            self.action_suggested = false;
            self.skip_label = SkipLabel::Next;
            self.skip_suggested = true;
        } else {
            self.skip_suggested = false;
            match self.kind {
                ActionKind::SystemUpdate => {
                    self.skip_label = SkipLabel::Skip;
                },
                _ => {
                    self.skip_label = SkipLabel::SkipStep;
                },
            }
            self.action_suggested = true;
            self.dialog_ok_enabled = true;
            self.dialog_body = DialogBody::Failed;
        }
    }

    /// The driver manager was launched: the page suggests leaving with "Next".
    pub fn record_launched(&mut self)
        requires
            old(self).wf(),
        ensures
            final(self).wf(),
            !final(self).action_suggested,
            final(self).skip_label == SkipLabel::Next,
            final(self).kind == old(self).kind,
            final(self).action_enabled == old(self).action_enabled,
            final(self).action_label == old(self).action_label,
            final(self).dialog_ok_enabled == old(self).dialog_ok_enabled,
            final(self).dialog_body == old(self).dialog_body,
            final(self).log@ == old(self).log@,
    {
        self.action_suggested = false;
        self.skip_label = SkipLabel::Next;
        self.skip_suggested = true;
    }

    /// Where the leave button goes: the page after this one.
    pub fn leave_target(&self) -> (r: Page)
        ensures
            following(action_page(self.kind)) == Some(r),
    {
        match next_page(page_of(self.kind)) {
            Some(p) => p,
            None => page_of(self.kind),
        }
    }
}

/// The command line of an action: the update or codec script through
/// `bash -c`, or the driver manager.
pub fn action_command(kind: ActionKind) -> (r: Vec<String>)
    ensures
        kind == ActionKind::SystemUpdate ==> texts(r@) == seq!["bash"@, "-c"@, APT_UPDATE_PROG@],
        kind == ActionKind::Codecs ==> texts(r@) == seq!["bash"@, "-c"@, CODEC_INSTALL_PROG@],
        kind == ActionKind::Drivers ==> texts(r@) == seq!["pika-drivers"@],
{
    let mut r: Vec<String> = Vec::new();
    match kind {
        ActionKind::SystemUpdate => {
            r.push(String::from_str("bash"));
            r.push(String::from_str("-c"));
            r.push(String::from_str(APT_UPDATE_PROG));
            assert(texts(r@) =~= seq!["bash"@, "-c"@, APT_UPDATE_PROG@]);
        },
        ActionKind::Codecs => {
            r.push(String::from_str("bash"));
            r.push(String::from_str("-c"));
            r.push(String::from_str(CODEC_INSTALL_PROG));
            assert(texts(r@) =~= seq!["bash"@, "-c"@, CODEC_INSTALL_PROG@]);
        },
        ActionKind::Drivers => {
            r.push(String::from_str("pika-drivers"));
            assert(texts(r@) =~= seq!["pika-drivers"@]);
        },
    }
    r
}

/// The command line behind the last page's button: the reboot script
/// through `sudo bash -c`.
pub fn reboot_command() -> (r: Vec<String>)
    ensures
        texts(r@) == seq!["sudo"@, "bash"@, "-c"@, REBOOT_PROG@],
{
    let mut r: Vec<String> = Vec::new();
    r.push(String::from_str("sudo"));
    r.push(String::from_str("bash"));
    r.push(String::from_str("-c"));
    r.push(String::from_str(REBOOT_PROG));
    assert(texts(r@) =~= seq!["sudo"@, "bash"@, "-c"@, REBOOT_PROG@]);
    r
}

} // verus!
