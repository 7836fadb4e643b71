use winget_interfacer::cancellation::CancellationToken;
use winget_interfacer::winget_manager::{
    search_url, CommandOutput, InstallResult, Package, WingetError, WingetManager,
};

fn package(name: &str, id: &str) -> Package {
    Package {
        name: name.to_string(),
        id: id.to_string(),
        version: "1.0".to_string(),
        available_version: "2.0".to_string(),
    }
}

#[test]
fn from_stderr_detects_missing_powershell() {
    assert!(matches!(
        WingetError::from_stderr("pwsh: command not found"),
        WingetError::PowerShellNotFound
    ));
    assert!(matches!(
        WingetError::from_stderr("'pwsh' is not recognized as an internal command"),
        WingetError::PowerShellNotFound
    ));
}

#[test]
fn from_stderr_detects_disabled_scripts() {
    assert!(matches!(
        WingetError::from_stderr("running scripts: execution of scripts is disabled on this system"),
        WingetError::ScriptExecutionDisabled
    ));
}

#[test]
fn from_stderr_detects_missing_module() {
    assert!(matches!(
        WingetError::from_stderr("The specified module 'Microsoft.WinGet.Client' was not loaded"),
        WingetError::WinGetModuleNotInstalled
    ));
    assert!(matches!(
        WingetError::from_stderr("module cannot be imported"),
        WingetError::WinGetModuleNotInstalled
    ));
}

#[test]
fn from_stderr_first_rule_wins() {
    // "not found" is checked before the module rule.
    assert!(matches!(
        WingetError::from_stderr("module not found"),
        WingetError::PowerShellNotFound
    ));
}

#[test]
fn from_stderr_keeps_trimmed_text_otherwise() {
    match WingetError::from_stderr("  \n\tsomething odd happened \r\n") {
        WingetError::PowerShellError { stderr } => assert_eq!(stderr, "something odd happened"),
        other => panic!("unexpected {:?}", other),
    }
    match WingetError::from_stderr("   ") {
        WingetError::PowerShellError { stderr } => assert_eq!(stderr, ""),
        other => panic!("unexpected {:?}", other),
    }
    // "module" alone is not enough for the module rule.
    match WingetError::from_stderr("module ok") {
        WingetError::PowerShellError { stderr } => assert_eq!(stderr, "module ok"),
        other => panic!("unexpected {:?}", other),
    }
}

#[test]
fn escape_doubles_single_quotes() {
    assert_eq!(WingetManager::escape_powershell_string("Mozilla.Firefox"), "Mozilla.Firefox");
    assert_eq!(WingetManager::escape_powershell_string("a'b"), "a''b");
    assert_eq!(WingetManager::escape_powershell_string("'; rm -r C:\\ ;'"), "''; rm -r C:\\ ;''");
    assert_eq!(WingetManager::escape_powershell_string(""), "");
    assert_eq!(WingetManager::escape_powershell_string("''"), "''''");
    assert_eq!(WingetManager::escape_powershell_string("é'ü"), "é''ü");
}

#[test]
fn escape_doubles_typographic_quotes() {
    assert_eq!(WingetManager::escape_powershell_string("\u{2019}"), "\u{2019}\u{2019}");
    assert_eq!(
        WingetManager::escape_powershell_string("x\u{2018}y\u{201a}z\u{201b}"),
        "x\u{2018}\u{2018}y\u{201a}\u{201a}z\u{201b}\u{201b}"
    );
    assert_eq!(
        WingetManager::install_script("x\u{2019}; Stop-Computer"),
        "\n            Import-Module Microsoft.WinGet.Client\n            Install-WinGetPackage -id 'x\u{2019}\u{2019}; Stop-Computer' | ConvertTo-Json -Compress -Depth 10\n        "
    );
}

fn is_quote(c: char) -> bool {
    matches!(c, '\'' | '\u{2018}' | '\u{2019}' | '\u{201a}' | '\u{201b}')
}

/// Reads the body of a PowerShell single-quoted literal, `None` when a lone
/// quote would end it.
fn unquote(body: &str) -> Option<String> {
    let chars: Vec<char> = body.chars().collect();
    let mut out = String::new();
    let mut i = 0;
    while i < chars.len() {
        if is_quote(chars[i]) {
            if i + 1 < chars.len() && is_quote(chars[i + 1]) {
                out.push(chars[i + 1]);
                i += 2;
            } else {
                return None;
            }
        } else {
            out.push(chars[i]);
            i += 1;
        }
    }
    Some(out)
}

#[test]
fn escape_round_trips_through_powershell_quoting() {
    for s in ["", "'", "a'b'c", "'; Remove-Item * ;'", "x''y", "plain", "\u{2019}", "a\u{2018}'\u{201b}"] {
        let escaped = WingetManager::escape_powershell_string(s);
        assert_eq!(unquote(&escaped), Some(s.to_string()));
    }
}

#[test]
fn install_script_quotes_the_id() {
    let script = WingetManager::install_script("Evil'; Stop-Computer; '");
    assert_eq!(
        script,
        "\n            Import-Module Microsoft.WinGet.Client\n            Install-WinGetPackage -id 'Evil''; Stop-Computer; ''' | ConvertTo-Json -Compress -Depth 10\n        "
    );
    let plain = WingetManager::install_script("Git.Git");
    assert!(plain.contains("Install-WinGetPackage -id 'Git.Git' | ConvertTo-Json -Compress -Depth 10"));
}

#[test]
fn fetch_script_lists_updates_as_json_array() {
    let script = WingetManager::fetch_updates_script();
    assert!(script.starts_with("\n            Import-Module Microsoft.WinGet.Client\n"));
    assert!(script.contains("Where-Object { $_.IsUpdateAvailable }"));
    assert!(script.contains("ConvertTo-Json -Compress -AsArray"));
}

#[test]
fn blank_json_means_no_updates() {
    assert!(WingetManager::json_is_blank(""));
    assert!(WingetManager::json_is_blank("null"));
    assert!(!WingetManager::json_is_blank("nul"));
    assert!(!WingetManager::json_is_blank("nulls"));
    assert!(!WingetManager::json_is_blank("[]"));
    assert!(matches!(
        WingetManager::packages_from_json("null".to_string(), Err("invalid type".to_string())),
        Err(WingetError::NoUpdatesAvailable)
    ));
    assert!(matches!(
        WingetManager::packages_from_json(String::new(), Ok(vec![package("a", "b")])),
        Err(WingetError::NoUpdatesAvailable)
    ));
}

#[test]
fn empty_array_means_no_updates() {
    assert!(matches!(
        WingetManager::packages_from_json("[]".to_string(), Ok(vec![])),
        Err(WingetError::NoUpdatesAvailable)
    ));
}

#[test]
fn parse_failure_keeps_message_and_raw_text() {
    match WingetManager::packages_from_json("[{oops".to_string(), Err("expected value".to_string())) {
        Err(WingetError::JsonParseError { error, raw_data }) => {
            assert_eq!(error, "expected value");
            assert_eq!(raw_data, "[{oops");
        }
        other => panic!("unexpected {:?}", other),
    }
}

#[test]
fn parsed_packages_pass_through() {
    let r = WingetManager::packages_from_json(
        "[...]".to_string(),
        Ok(vec![package("Firefox", "Mozilla.Firefox"), package("Git", "Git.Git")]),
    )
    .unwrap();
    assert_eq!(r.len(), 2);
    assert_eq!(r[0].id, "Mozilla.Firefox");
    assert_eq!(r[1].name, "Git");
}

#[test]
fn install_json_outcomes() {
    let report = InstallResult {
        id: "Git.Git".to_string(),
        name: "Git".to_string(),
        source: "winget".to_string(),
        status: "Ok".to_string(),
        reboot_required: true,
        installer_error_code: 0,
    };
    let ok = WingetManager::install_result_from_json("{}".to_string(), Ok(report)).unwrap();
    assert_eq!(ok.id, "Git.Git");
    assert!(ok.reboot_required);
    match WingetManager::install_result_from_json("garbage".to_string(), Err("bad".to_string())) {
        Err(WingetError::JsonParseError { error, raw_data }) => {
            assert_eq!(error, "bad");
            assert_eq!(raw_data, "garbage");
        }
        other => panic!("unexpected {:?}", other),
    }
}

#[test]
fn run_output_success_yields_trimmed_stdout() {
    let out = CommandOutput {
        success: true,
        stdout: b"  [{\"Name\":\"Git\"}]\r\n".to_vec(),
        stderr: b"ignored".to_vec(),
    };
    assert_eq!(WingetManager::run_output_text(Ok(out)).unwrap(), "[{\"Name\":\"Git\"}]");
}

#[test]
fn run_output_decodes_invalid_utf8_lossily() {
    let out = CommandOutput { success: true, stdout: vec![b'a', 0xff, b'b'], stderr: vec![] };
    assert_eq!(WingetManager::run_output_text(Ok(out)).unwrap(), "a\u{fffd}b");
}

#[test]
fn run_output_failure_classifies_stderr() {
    let out = CommandOutput {
        success: false,
        stdout: b"[]".to_vec(),
        stderr: b"execution of scripts is disabled".to_vec(),
    };
    assert!(matches!(
        WingetManager::run_output_text(Ok(out)),
        Err(WingetError::ScriptExecutionDisabled)
    ));
    let out = CommandOutput { success: false, stdout: vec![], stderr: b" boom \n".to_vec() };
    match WingetManager::run_output_text(Ok(out)) {
        Err(WingetError::PowerShellError { stderr }) => assert_eq!(stderr, "boom"),
        other => panic!("unexpected {:?}", other),
    }
}

#[test]
fn run_output_launch_failure_is_command_failed() {
    match WingetManager::run_output_text(Err("Not Windows".to_string())) {
        Err(WingetError::CommandFailed { error }) => assert_eq!(error, "Not Windows"),
        other => panic!("unexpected {:?}", other),
    }
}

#[test]
fn install_cancellation_wins_over_output() {
    let out = || CommandOutput { success: true, stdout: b"{}".to_vec(), stderr: vec![] };
    assert!(matches!(
        WingetManager::install_run_text(true, false, Ok(out())),
        Err(WingetError::Cancelled)
    ));
    assert!(matches!(
        WingetManager::install_run_text(false, true, Err("killed".to_string())),
        Err(WingetError::Cancelled)
    ));
    assert_eq!(WingetManager::install_run_text(false, false, Ok(out())).unwrap(), "{}");
    assert!(matches!(WingetManager::install_gate(true), Some(WingetError::Cancelled)));
    assert!(WingetManager::install_gate(false).is_none());
}

#[test]
fn search_url_uses_plus_for_spaces() {
    assert_eq!(
        search_url("Visual Studio Code"),
        "https://www.google.com/search?q=Visual+Studio+Code+software+download"
    );
    assert_eq!(search_url(""), "https://www.google.com/search?q=+software+download");
}

#[test]
fn cancellation_token_flags() {
    let token = CancellationToken::new();
    assert!(!token.is_cancelled());
    assert!(!token.is_force_cancelled());
    let watcher = token.clone();
    token.cancel();
    assert!(watcher.is_cancelled());
    assert!(!watcher.is_force_cancelled());
    watcher.force_cancel();
    assert!(token.is_force_cancelled());
    token.cancel();
    assert!(token.is_cancelled());
}

#[test]
fn surrounding_space_never_changes_classification() {
    for s in ["  pwsh: not found\n", "\tmodule cannot load ", " odd \r\n", "\u{3000}execution of scripts is disabled"] {
        let a = format!("{:?}", WingetError::from_stderr(s));
        let b = format!("{:?}", WingetError::from_stderr(s.trim()));
        assert_eq!(a, b);
    }
}
