//! The texts the windows show: the banner for an error, the banner for an
//! install report, and the labels whose wording depends on the state.
use vstd::prelude::*;

use crate::gui::app::PackageRowState;
use crate::text::{decimal, push_decimal, push_signed_decimal, signed_decimal, str_equals};
use crate::winget_manager::{InstallResult, InstallResultView, WingetError, WingetErrorView};

verus! {

/// The tone of a banner, which the window renders as its colour.
#[derive(Debug, PartialEq, Eq, Structural)]
pub enum Tone {
    Info,
    Success,
    Warning,
    Error,
}

/// A banner: its tone and its text.
pub struct Notice {
    pub tone: Tone,
    pub text: String,
}

/// The banner text of an error: an icon, a space, and the message.
pub open spec fn error_notice_text(e: WingetErrorView) -> Seq<char> {
    match e {
        WingetErrorView::NoUpdatesAvailable => "ℹ Aucune mise à jour disponible."@,
        WingetErrorView::PowerShellNotFound =>
            "⚠ PowerShell n'est pas installé ou n'est pas accessible."@,
        WingetErrorView::WinGetModuleNotInstalled =>
            "⚠ Le module WinGet n'est pas installé. Installez-le avec: Install-Module Microsoft.WinGet.Client"@,
        WingetErrorView::ScriptExecutionDisabled =>
            "⚠ L'exécution de scripts PowerShell est désactivée. Exécutez PowerShell en tant qu'administrateur et tapez: Set-ExecutionPolicy RemoteSigned"@,
        WingetErrorView::PowerShellError { stderr } => "⚠ Erreur PowerShell: "@ + stderr,
        WingetErrorView::JsonParseError { error, raw_data } => "⚠ Erreur d'analyse JSON: "@ + error
            + "\nDonnées brutes: "@ + raw_data,
        WingetErrorView::CommandFailed { error } => "⚠ Échec de la commande: "@ + error,
        WingetErrorView::Cancelled => "⏸ Mise à jour annulée par l'utilisateur."@,
    }
}

/// The banner tone of an error: information when there is nothing to
/// update, a warning for a cancellation, an error otherwise.
pub open spec fn error_notice_tone(e: WingetErrorView) -> Tone {
    match e {
        WingetErrorView::NoUpdatesAvailable => Tone::Info,
        WingetErrorView::Cancelled => Tone::Warning,
        _ => Tone::Error,
    }
}

/// The banner tone of an install report: success for status `Ok`, error for
/// status `InstallError`, a warning for any other status.
pub open spec fn install_notice_tone(r: InstallResultView) -> Tone {
    if r.status == "Ok"@ {
        Tone::Success
    } else if r.status == "InstallError"@ {
        Tone::Error
    } else {
        Tone::Warning
    }
}

/// The headline of an install report.
pub open spec fn install_headline_text(r: InstallResultView) -> Seq<char> {
    if r.status == "Ok"@ {
        "✓ Installation de "@ + r.name + " réussie"@
    } else if r.status == "InstallError"@ {
        "✗ Erreur lors de l'installation de "@ + r.name + " (Code: "@ + signed_decimal(
            r.installer_error_code as int,
        ) + ")"@
    } else {
        "⚙ "@ + r.name + " - Status: "@ + r.status
    }
}

/// The detail line of an install report: its source and whether a reboot
/// is required.
pub open spec fn install_details_text(r: InstallResultView) -> Seq<char> {
    "Source: "@ + r.source + " | Reboot: "@ + (if r.reboot_required {
        "Oui"@
    } else {
        "Non"@
    })
}

/// The tone of a banner says how the outcome went: an install report with
/// status `Ok` is a success, one with status `InstallError` an error, any
/// other status a warning; "no updates" is information, a cancellation a
/// warning, and every other error an error.
pub proof fn law_notice_tones(r: InstallResultView, e: WingetErrorView)
    ensures
        r.status == "Ok"@ ==> install_notice_tone(r) == Tone::Success,
        r.status == "InstallError"@ ==> install_notice_tone(r) == Tone::Error,
        (r.status != "Ok"@ && r.status != "InstallError"@) ==> install_notice_tone(r)
            == Tone::Warning,
        e is NoUpdatesAvailable ==> error_notice_tone(e) == Tone::Info,
        e is Cancelled ==> error_notice_tone(e) == Tone::Warning,
        !(e is NoUpdatesAvailable || e is Cancelled) ==> error_notice_tone(e) == Tone::Error,
{
    reveal_strlit("Ok");
    reveal_strlit("InstallError");
    assert("Ok"@.len() != "InstallError"@.len());
}

/// The banner of an error.
pub fn error_notice(e: &WingetError) -> (r: Notice)
    ensures
        r.tone == error_notice_tone(e@),
        r.text@ == error_notice_text(e@),
{
    match e {
        WingetError::NoUpdatesAvailable => Notice {
            tone: Tone::Info,
            text: String::from_str("ℹ Aucune mise à jour disponible."),
        },
        WingetError::PowerShellNotFound => Notice {
            tone: Tone::Error,
            text: String::from_str("⚠ PowerShell n'est pas installé ou n'est pas accessible."),
        },
        WingetError::WinGetModuleNotInstalled => Notice {
            tone: Tone::Error,
            text: String::from_str(
                "⚠ Le module WinGet n'est pas installé. Installez-le avec: Install-Module Microsoft.WinGet.Client",
            ),
        },
        WingetError::ScriptExecutionDisabled => Notice {
            tone: Tone::Error,
            text: String::from_str(
                "⚠ L'exécution de scripts PowerShell est désactivée. Exécutez PowerShell en tant qu'administrateur et tapez: Set-ExecutionPolicy RemoteSigned",
            ),
        },
        WingetError::PowerShellError { stderr } => {
            let mut t = String::from_str("⚠ Erreur PowerShell: ");
            t.append(stderr.as_str());
            Notice { tone: Tone::Error, text: t }
        },
        WingetError::JsonParseError { error, raw_data } => {
            let mut t = String::from_str("⚠ Erreur d'analyse JSON: ");
            t.append(error.as_str());
            t.append("\nDonnées brutes: ");
            t.append(raw_data.as_str());
            Notice { tone: Tone::Error, text: t }
        },
        WingetError::CommandFailed { error } => {
            let mut t = String::from_str("⚠ Échec de la commande: ");
            t.append(error.as_str());
            Notice { tone: Tone::Error, text: t }
        },
        WingetError::Cancelled => Notice {
            tone: Tone::Warning,
            text: String::from_str("⏸ Mise à jour annulée par l'utilisateur."),
        },
    }
}

/// The banner of an install report.
pub fn install_notice_tone_of(r: &InstallResult) -> (t: Tone)
    ensures
        t == install_notice_tone(r@),
{
    if str_equals(r.status.as_str(), "Ok") {
        Tone::Success
    } else if str_equals(r.status.as_str(), "InstallError") {
        Tone::Error
    } else {
        Tone::Warning
    }
}

/// The headline of an install report.
pub fn install_headline(r: &InstallResult) -> (t: String)
    ensures
        t@ == install_headline_text(r@),
{
    if str_equals(r.status.as_str(), "Ok") {
        let mut t = String::from_str("✓ Installation de ");
        t.append(r.name.as_str());
        t.append(" réussie");
        t
    } else if str_equals(r.status.as_str(), "InstallError") {
        let mut t = String::from_str("✗ Erreur lors de l'installation de ");
        t.append(r.name.as_str());
        t.append(" (Code: ");
        push_signed_decimal(&mut t, r.installer_error_code);
        t.append(")");
        t
    } else {
        let mut t = String::from_str("⚙ ");
        t.append(r.name.as_str());
        t.append(" - Status: ");
        t.append(r.status.as_str());
        t
    }
}

/// The detail line of an install report.
pub fn install_details(r: &InstallResult) -> (t: String)
    ensures
        t@ == install_details_text(r@),
{
    let mut t = String::from_str("Source: ");
    t.append(r.source.as_str());
    t.append(" | Reboot: ");
    if r.reboot_required {
        t.append("Oui");
    } else {
        t.append("Non");
    }
    t
}

/// The window title, with the number of available updates.
pub open spec fn title_text(count: nat) -> Seq<char> {
    "Gestionnaire de Mises à Jour (winget) - "@ + decimal(count) + " mise(s) à jour"@
}

/// The window title for `count` available updates.
pub fn title(count: usize) -> (t: String)
    ensures
        t@ == title_text(count as nat),
{
    let mut t = String::from_str("Gestionnaire de Mises à Jour (winget) - ");
    push_decimal(&mut t, count as u128);
    t.append(" mise(s) à jour");
    t
}

/// The count of packages the search shows.
pub open spec fn visible_count_text(count: nat) -> Seq<char> {
    decimal(count) + " paquet(s) visible(s)"@
}

/// The count of packages the search shows, as a label.
pub fn visible_count(count: usize) -> (t: String)
    ensures
        t@ == visible_count_text(count as nat),
{
    let mut t = String::new();
    push_decimal(&mut t, count as u128);
    t.append(" paquet(s) visible(s)");
    t
}

/// The label of the batch button of the queue-based window: while a batch
/// runs, the packages left counting the one being updated; else the number
/// of queued packages.
pub open spec fn batch_label_text(batch_running: bool, queued: nat) -> Seq<char> {
    if batch_running {
        "En cours ("@ + decimal(queued + 1) + " restants)"@
    } else {
        "Installer "@ + decimal(queued) + " paquets"@
    }
}

/// The label of the batch button of the queue-based window.
pub fn batch_label(batch_running: bool, queued: usize) -> (t: String)
    ensures
        t@ == batch_label_text(batch_running, queued as nat),
{
    if batch_running {
        let mut t = String::from_str("En cours (");
        push_decimal(&mut t, queued as u128 + 1);
        t.append(" restants)");
        t
    } else {
        let mut t = String::from_str("Installer ");
        push_decimal(&mut t, queued as u128);
        t.append(" paquets");
        t
    }
}

/// The label of the refresh button.
pub fn refresh_label(loading: bool) -> (r: &'static str)
    ensures
        r@ == (if loading {
            "⟳ Chargement..."@
        } else {
            "⟳ Rafraîchir"@
        }),
{
    if loading {
        "⟳ Chargement..."
    } else {
        "⟳ Rafraîchir"
    }
}

/// The label of the "install all" button.
pub fn update_all_label(updating_all: bool) -> (r: &'static str)
    ensures
        r@ == (if updating_all {
            "⏳ Mise à jour..."@
        } else {
            "📦 Tout installer"@
        }),
{
    if updating_all {
        "⏳ Mise à jour..."
    } else {
        "📦 Tout installer"
    }
}

/// The label of a package's update button.
pub fn update_button_label(updating_this: bool) -> (r: &'static str)
    ensures
        r@ == (if updating_this {
            "⏳..."@
        } else {
            "⬆ Maj"@
        }),
{
    if updating_this {
        "⏳..."
    } else {
        "⬆ Maj"
    }
}

/// The label of the updating package's cancel button: a plain cancel
/// first, then, once pressed, an offer to force it.
pub fn cancel_button_label(cancel_clicked: bool) -> (r: &'static str)
    ensures
        r@ == (if cancel_clicked {
            "Forcer ?"@
        } else {
            "Annuler"@
        }),
{
    if cancel_clicked {
        "Forcer ?"
    } else {
        "Annuler"
    }
}

/// The label of a package's button in the queue-based window.
pub fn row_button_label(state: &PackageRowState) -> (r: &'static str)
    ensures
        r@ == match state {
            PackageRowState::Updating => "Mise à jour..."@,
            PackageRowState::Queued => "En attente"@,
            PackageRowState::Available => "Installer"@,
        },
{
    match state {
        PackageRowState::Updating => "Mise à jour...",
        PackageRowState::Queued => "En attente",
        PackageRowState::Available => "Installer",
    }
}

} // verus!
