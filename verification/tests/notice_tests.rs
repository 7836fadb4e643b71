use winget_interfacer::gui::app::PackageRowState;
use winget_interfacer::gui::notices::{
    batch_label, cancel_button_label, error_notice, install_details, install_headline,
    install_notice_tone_of, refresh_label, row_button_label, title, update_all_label,
    update_button_label, visible_count, Tone,
};
use winget_interfacer::winget_manager::{InstallResult, WingetError};

fn report(status: &str, code: i32, reboot: bool) -> InstallResult {
    InstallResult {
        id: "Git.Git".to_string(),
        name: "Git".to_string(),
        source: "winget".to_string(),
        status: status.to_string(),
        reboot_required: reboot,
        installer_error_code: code,
    }
}

#[test]
fn error_notices() {
    let n = error_notice(&WingetError::NoUpdatesAvailable);
    assert_eq!(n.tone, Tone::Info);
    assert_eq!(n.text, "ℹ Aucune mise à jour disponible.");
    let n = error_notice(&WingetError::Cancelled);
    assert_eq!(n.tone, Tone::Warning);
    assert_eq!(n.text, "⏸ Mise à jour annulée par l'utilisateur.");
    let n = error_notice(&WingetError::PowerShellError { stderr: "x".to_string() });
    assert_eq!(n.tone, Tone::Error);
    assert_eq!(n.text, "⚠ Erreur PowerShell: x");
    let n = error_notice(&WingetError::JsonParseError {
        error: "e".to_string(),
        raw_data: "r".to_string(),
    });
    assert_eq!(n.text, "⚠ Erreur d'analyse JSON: e\nDonnées brutes: r");
    let n = error_notice(&WingetError::CommandFailed { error: "gone".to_string() });
    assert_eq!(n.text, "⚠ Échec de la commande: gone");
    assert_eq!(error_notice(&WingetError::PowerShellNotFound).tone, Tone::Error);
    assert!(error_notice(&WingetError::WinGetModuleNotInstalled).text.ends_with("Microsoft.WinGet.Client"));
    assert!(error_notice(&WingetError::ScriptExecutionDisabled).text.ends_with("RemoteSigned"));
}

#[test]
fn install_notices() {
    let ok = report("Ok", 0, true);
    assert_eq!(install_notice_tone_of(&ok), Tone::Success);
    assert_eq!(install_headline(&ok), "✓ Installation de Git réussie");
    assert_eq!(install_details(&ok), "Source: winget | Reboot: Oui");
    let err = report("InstallError", -1978335212, false);
    assert_eq!(install_notice_tone_of(&err), Tone::Error);
    assert_eq!(install_headline(&err), "✗ Erreur lors de l'installation de Git (Code: -1978335212)");
    assert_eq!(install_details(&err), "Source: winget | Reboot: Non");
    let other = report("NoApplicableUpgrade", 0, false);
    assert_eq!(install_notice_tone_of(&other), Tone::Warning);
    assert_eq!(install_headline(&other), "⚙ Git - Status: NoApplicableUpgrade");
}

#[test]
fn labels() {
    assert_eq!(title(0), "Gestionnaire de Mises à Jour (winget) - 0 mise(s) à jour");
    assert_eq!(title(12), "Gestionnaire de Mises à Jour (winget) - 12 mise(s) à jour");
    assert_eq!(visible_count(3), "3 paquet(s) visible(s)");
    assert_eq!(batch_label(false, 4), "Installer 4 paquets");
    assert_eq!(batch_label(true, 4), "En cours (5 restants)");
    assert_eq!(refresh_label(true), "⟳ Chargement...");
    assert_eq!(refresh_label(false), "⟳ Rafraîchir");
    assert_eq!(update_all_label(true), "⏳ Mise à jour...");
    assert_eq!(update_all_label(false), "📦 Tout installer");
    assert_eq!(update_button_label(true), "⏳...");
    assert_eq!(update_button_label(false), "⬆ Maj");
    assert_eq!(cancel_button_label(false), "Annuler");
    assert_eq!(cancel_button_label(true), "Forcer ?");
    assert_eq!(row_button_label(&PackageRowState::Queued), "En attente");
    assert_eq!(row_button_label(&PackageRowState::Updating), "Mise à jour...");
    assert_eq!(row_button_label(&PackageRowState::Available), "Installer");
}
