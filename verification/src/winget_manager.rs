//! The WinGet side of the library: package records, the error taxonomy,
//! the PowerShell scripts that are run, and the interpretation of what a
//! PowerShell run hands back.
use vstd::prelude::*;

use crate::text::{
    chars_of, concat_str, decode_utf8_lossy, has_infix, lemma_infix_survives_trim,
    lemma_trimmed_idempotent, push_char, str_contains, trim_whitespace, trimmed, utf8_lossy,
};

pub use crate::cancellation::CancellationToken;

verus! {

// ---------------------------------------------------------------------------
// Data
// ---------------------------------------------------------------------------

/// A package with an available update, as `Get-WinGetPackage` reports it.
#[derive(Debug, Clone)]
pub struct Package {
    pub name: String,
    pub id: String,
    /// The installed version.
    pub version: String,
    pub available_version: String,
}

/// The mathematical value of a [`Package`].
pub struct PackageView {
    pub name: Seq<char>,
    pub id: Seq<char>,
    pub version: Seq<char>,
    pub available_version: Seq<char>,
}

impl View for Package {
    type V = PackageView;

    open spec fn view(&self) -> PackageView {
        PackageView {
            name: self.name@,
            id: self.id@,
            version: self.version@,
            available_version: self.available_version@,
        }
    }
}

/// The report of `Install-WinGetPackage` for one package.
#[derive(Debug, Clone)]
pub struct InstallResult {
    pub id: String,
    pub name: String,
    pub source: String,
    pub status: String,
    pub reboot_required: bool,
    pub installer_error_code: i32,
}

/// The mathematical value of an [`InstallResult`].
pub struct InstallResultView {
    pub id: Seq<char>,
    pub name: Seq<char>,
    pub source: Seq<char>,
    pub status: Seq<char>,
    pub reboot_required: bool,
    pub installer_error_code: i32,
}

impl View for InstallResult {
    type V = InstallResultView;

    open spec fn view(&self) -> InstallResultView {
        InstallResultView {
            id: self.id@,
            name: self.name@,
            source: self.source@,
            status: self.status@,
            reboot_required: self.reboot_required,
            installer_error_code: self.installer_error_code,
        }
    }
}

/// What can go wrong while talking to WinGet.
#[derive(Debug, Clone)]
pub enum WingetError {
    NoUpdatesAvailable,
    PowerShellNotFound,
    WinGetModuleNotInstalled,
    ScriptExecutionDisabled,
    PowerShellError { stderr: String },
    JsonParseError { error: String, raw_data: String },
    CommandFailed { error: String },
    Cancelled,
}

/// The mathematical value of a [`WingetError`].
pub enum WingetErrorView {
    NoUpdatesAvailable,
    PowerShellNotFound,
    WinGetModuleNotInstalled,
    ScriptExecutionDisabled,
    PowerShellError { stderr: Seq<char> },
    JsonParseError { error: Seq<char>, raw_data: Seq<char> },
    CommandFailed { error: Seq<char> },
    Cancelled,
}

impl View for WingetError {
    type V = WingetErrorView;

    open spec fn view(&self) -> WingetErrorView {
        match self {
            WingetError::NoUpdatesAvailable => WingetErrorView::NoUpdatesAvailable,
            WingetError::PowerShellNotFound => WingetErrorView::PowerShellNotFound,
            WingetError::WinGetModuleNotInstalled => WingetErrorView::WinGetModuleNotInstalled,
            WingetError::ScriptExecutionDisabled => WingetErrorView::ScriptExecutionDisabled,
            WingetError::PowerShellError { stderr } => WingetErrorView::PowerShellError {
                stderr: stderr@,
            },
            WingetError::JsonParseError { error, raw_data } => WingetErrorView::JsonParseError {
                error: error@,
                raw_data: raw_data@,
            },
            WingetError::CommandFailed { error } => WingetErrorView::CommandFailed {
                error: error@,
            },
            WingetError::Cancelled => WingetErrorView::Cancelled,
        }
    }
}

/// What a finished PowerShell process handed back.
pub struct CommandOutput {
    /// Whether the process exited with a success status.
    pub success: bool,
    pub stdout: Vec<u8>,
    pub stderr: Vec<u8>,
}

// ---------------------------------------------------------------------------
// Specifications
// ---------------------------------------------------------------------------

/// The error that a PowerShell run reports through its standard error text.
pub open spec fn stderr_error(stderr: Seq<char>) -> WingetErrorView {
    if has_infix(stderr, "not found"@) || has_infix(stderr, "not recognized"@) {
        WingetErrorView::PowerShellNotFound
    } else if has_infix(stderr, "execution of scripts is disabled"@) {
        WingetErrorView::ScriptExecutionDisabled
    } else if has_infix(stderr, "module"@) && (has_infix(stderr, "not"@) || has_infix(
        stderr,
        "cannot"@,
    )) {
        WingetErrorView::WinGetModuleNotInstalled
    } else {
        WingetErrorView::PowerShellError { stderr: trimmed(stderr) }
    }
}

/// The characters that PowerShell takes as a single quote: the ASCII
/// apostrophe and the four typographic single quotes U+2018 to U+201B.
pub open spec fn is_ps_single_quote(c: char) -> bool {
    c == '\'' || c == '\u{2018}' || c == '\u{2019}' || c == '\u{201a}' || c == '\u{201b}'
}

/// How one character is written inside a PowerShell single-quoted string:
/// any single quote is doubled.
pub open spec fn ps_escape_char(c: char) -> Seq<char> {
    if is_ps_single_quote(c) {
        seq![c, c]
    } else {
        seq![c]
    }
}

/// `s` with every single quote (of any of the five kinds) doubled, the form
/// it takes inside a PowerShell single-quoted string literal.
pub open spec fn ps_escape(s: Seq<char>) -> Seq<char>
    decreases s.len(),
{
    if s.len() == 0 {
        Seq::empty()
    } else {
        ps_escape_char(s[0]) + ps_escape(s.drop_first())
    }
}

/// How PowerShell's tokenizer reads the body of a single-quoted string
/// literal, taking all five single-quote characters as quotes: a quote
/// followed by a quote stands for the second one, and a lone quote ends the
/// literal early (`None`: the body does not stay inside the quotes).
pub open spec fn ps_unquote(t: Seq<char>) -> Option<Seq<char>>
    decreases t.len(),
{
    if t.len() == 0 {
        Some(Seq::empty())
    } else if is_ps_single_quote(t[0]) {
        if t.len() >= 2 && is_ps_single_quote(t[1]) {
            match ps_unquote(t.skip(2)) {
                Some(r) => Some(seq![t[1]] + r),
                None => None,
            }
        } else {
            None
        }
    } else {
        match ps_unquote(t.drop_first()) {
            Some(r) => Some(seq![t[0]] + r),
            None => None,
        }
    }
}

/// The text before the package id in the install script.
pub open spec fn install_script_head() -> Seq<char> {
    "\n            Import-Module Microsoft.WinGet.Client\n            Install-WinGetPackage -id '"@
}

/// The text after the package id in the install script.
pub open spec fn install_script_tail() -> Seq<char> {
    "' | ConvertTo-Json -Compress -Depth 10\n        "@
}

/// The script that installs the package with id `id`.
pub open spec fn install_script_text(id: Seq<char>) -> Seq<char> {
    install_script_head() + ps_escape(id) + install_script_tail()
}

/// The script that lists the installed packages with an available update,
/// as a JSON array.
pub open spec fn fetch_script_text() -> Seq<char> {
    "\n            Import-Module Microsoft.WinGet.Client\n            $updates = Get-WinGetPackage | Where-Object { $_.IsUpdateAvailable }\n            $updates | Select-Object Name, Id, InstalledVersion, @{Name='AvailableVersion'; Expression={ $_.AvailableVersions[0] }} | ConvertTo-Json -Compress -AsArray\n        "@
}

/// The JSON text that stands for "no updates": nothing, or `null`.
pub open spec fn json_is_blank(json: Seq<char>) -> bool {
    json.len() == 0 || json == "null"@
}

/// What a process run yields: the trimmed standard output to be parsed on
/// success, the classified standard error on failure, and `CommandFailed`
/// when the process could not be run at all.
pub open spec fn run_text(output: Result<CommandOutput, String>) -> Result<Seq<char>, WingetErrorView> {
    match output {
        Ok(out) => if out.success {
            Ok(trimmed(utf8_lossy(out.stdout@)))
        } else {
            Err(stderr_error(utf8_lossy(out.stderr@)))
        },
        Err(msg) => Err(WingetErrorView::CommandFailed { error: msg@ }),
    }
}

/// The outcome of an update listing, from the listing's JSON text and what
/// parsing that text as a package array gave.
pub open spec fn package_list_outcome(json: Seq<char>, parsed: Result<Seq<PackageView>, Seq<char>>) -> Result<Seq<PackageView>, WingetErrorView> {
    if json_is_blank(json) {
        Err(WingetErrorView::NoUpdatesAvailable)
    } else {
        match parsed {
            Ok(packages) => if packages.len() == 0 {
                Err(WingetErrorView::NoUpdatesAvailable)
            } else {
                Ok(packages)
            },
            Err(e) => Err(WingetErrorView::JsonParseError { error: e, raw_data: json }),
        }
    }
}

/// The views of a vector of packages.
pub open spec fn package_views(v: Seq<Package>) -> Seq<PackageView> {
    v.map_values(|p: Package| p@)
}

/// The view of a parse result of a package array.
pub open spec fn parsed_packages_view(parsed: Result<Vec<Package>, String>) -> Result<Seq<PackageView>, Seq<char>> {
    match parsed {
        Ok(v) => Ok(package_views(v@)),
        Err(e) => Err(e@),
    }
}

/// The view of a result that carries packages or an error.
pub open spec fn packages_result_view(r: Result<Vec<Package>, WingetError>) -> Result<Seq<PackageView>, WingetErrorView> {
    match r {
        Ok(v) => Ok(package_views(v@)),
        Err(e) => Err(e@),
    }
}

// ---------------------------------------------------------------------------
// Laws
// ---------------------------------------------------------------------------

/// Reading an escaped text as a single-quoted body gives the text back
/// (by induction on its length).
proof fn lemma_ps_unquote_escape(s: Seq<char>)
    ensures
        ps_unquote(ps_escape(s)) == Some(s),
    decreases s.len(),
{
    if s.len() > 0 {
        let rest = s.drop_first();
        let e = ps_escape(rest);
        lemma_ps_unquote_escape(rest);
        let t = ps_escape(s);
        assert(t == ps_escape_char(s[0]) + e);
        if is_ps_single_quote(s[0]) {
            assert(t.skip(2) =~= e);
            assert(seq![s[0]] + rest =~= s);
        } else {
            assert(t.drop_first() =~= e);
            assert(seq![s[0]] + rest =~= s);
        }
    }
}

/// Escaping is undone by PowerShell: the escaped form of any text, read as
/// the body of a single-quoted literal, stays inside the quotes and gives
/// back exactly that text.
pub proof fn law_escape_round_trip(s: Seq<char>)
    ensures
        ps_unquote(ps_escape(s)) == Some(s),
{
    lemma_ps_unquote_escape(s);
}

/// Escaping never merges two different texts: distinct ids give distinct
/// escaped forms.
pub proof fn law_escape_injective(a: Seq<char>, b: Seq<char>)
    requires
        ps_escape(a) == ps_escape(b),
    ensures
        a == b,
{
    lemma_ps_unquote_escape(a);
    lemma_ps_unquote_escape(b);
}

/// The install script carries the package id only as the body of one
/// single-quoted literal, which the tokenizer's reading (`ps_unquote`, all
/// five single-quote characters) gives back as exactly the id: no id,
/// whatever quotes it holds, ends the literal there and adds commands.
pub proof fn law_install_script_quotes_id(id: Seq<char>)
    ensures
        exists|body: Seq<char>|
            install_script_text(id) == install_script_head() + body + install_script_tail()
                && #[trigger] ps_unquote(body) == Some(id),
{
    lemma_ps_unquote_escape(id);
    assert(ps_unquote(ps_escape(id)) == Some(id));
}

/// How a PowerShell run is read: a run that exited with success yields its
/// standard output, trimmed, as the text to parse; a run that failed yields
/// the error its standard error is classified as (never a success, never a
/// launch failure); a process that could not be launched yields
/// `CommandFailed` with the launch message.
pub proof fn law_run_outcome(output: Result<CommandOutput, String>)
    ensures
        (output is Ok && output->Ok_0.success) ==> run_text(output) == Ok::<
            Seq<char>,
            WingetErrorView,
        >(trimmed(utf8_lossy(output->Ok_0.stdout@))),
        (output is Ok && !output->Ok_0.success) ==> run_text(output) == Err::<
            Seq<char>,
            WingetErrorView,
        >(stderr_error(utf8_lossy(output->Ok_0.stderr@))),
        (output is Ok && !output->Ok_0.success) ==> !(run_text(output)->Err_0 is CommandFailed),
        output is Err ==> run_text(output) == Err::<Seq<char>, WingetErrorView>(
            WingetErrorView::CommandFailed { error: output->Err_0@ },
        ),
{
    if output is Ok && !output->Ok_0.success {
        law_stderr_classification(utf8_lossy(output->Ok_0.stderr@));
    }
}

/// A listing reports "no updates" only when there are none: blank text
/// (empty or `null`) or an empty package array. Any other text whose parse
/// gives packages lists exactly those packages, however many there are, and
/// a parse failure is reported as such with its message and the raw text.
pub proof fn law_listing_outcome(json: Seq<char>, parsed: Result<Seq<PackageView>, Seq<char>>)
    ensures
        (json.len() > 0 && json != "null"@ && parsed is Ok && parsed->Ok_0.len() > 0)
            ==> package_list_outcome(json, parsed) == Ok::<Seq<PackageView>, WingetErrorView>(
            parsed->Ok_0,
        ),
        package_list_outcome(json, parsed) == Err::<Seq<PackageView>, WingetErrorView>(
            WingetErrorView::NoUpdatesAvailable,
        ) ==> (json.len() == 0 || json == "null"@ || parsed == Ok::<Seq<PackageView>, Seq<char>>(
            Seq::empty(),
        )),
        (json.len() == 0 || json == "null"@) ==> package_list_outcome(json, parsed) == Err::<
            Seq<PackageView>,
            WingetErrorView,
        >(WingetErrorView::NoUpdatesAvailable),
        (json.len() > 0 && json != "null"@ && parsed is Err) ==> package_list_outcome(
            json,
            parsed,
        ) == Err::<Seq<PackageView>, WingetErrorView>(
            WingetErrorView::JsonParseError { error: parsed->Err_0, raw_data: json },
        ),
        package_list_outcome(json, parsed) is Ok ==> package_list_outcome(json, parsed)->Ok_0.len()
            > 0,
{
    if package_list_outcome(json, parsed) == Err::<Seq<PackageView>, WingetErrorView>(
        WingetErrorView::NoUpdatesAvailable,
    ) && !(json.len() == 0 || json == "null"@) {
        assert(parsed->Ok_0 =~= Seq::<PackageView>::empty());
    }
}

/// How a failed run's standard error is classified, rule by rule: a missing
/// PowerShell ("not found" or "not recognized") comes first; then disabled
/// script execution, whatever else the text holds (a module that "cannot"
/// be loaded because scripts are disabled is still about the execution
/// policy); then a missing module ("module" with "not" or "cannot"); any
/// other text is a generic error that carries the text, trimmed.
pub proof fn law_stderr_classification(s: Seq<char>)
    ensures
        (has_infix(s, "not found"@) || has_infix(s, "not recognized"@)) ==> stderr_error(s)
            == WingetErrorView::PowerShellNotFound,
        (!has_infix(s, "not found"@) && !has_infix(s, "not recognized"@) && has_infix(
            s,
            "execution of scripts is disabled"@,
        )) ==> stderr_error(s) == WingetErrorView::ScriptExecutionDisabled,
        (!has_infix(s, "not found"@) && !has_infix(s, "not recognized"@) && !has_infix(
            s,
            "execution of scripts is disabled"@,
        ) && has_infix(s, "module"@) && (has_infix(s, "not"@) || has_infix(s, "cannot"@)))
            ==> stderr_error(s) == WingetErrorView::WinGetModuleNotInstalled,
        (!has_infix(s, "not found"@) && !has_infix(s, "not recognized"@) && !has_infix(
            s,
            "execution of scripts is disabled"@,
        ) && !(has_infix(s, "module"@) && (has_infix(s, "not"@) || has_infix(s, "cannot"@))))
            ==> stderr_error(s) == (WingetErrorView::PowerShellError { stderr: trimmed(s) }),
        stderr_error(s) != WingetErrorView::NoUpdatesAvailable,
        stderr_error(s) != WingetErrorView::Cancelled,
{
}

/// White space around a PowerShell error text never changes how it is
/// classified: the trimmed text gives the same error as the text itself.
pub proof fn law_stderr_error_ignores_surrounding_space(s: Seq<char>)
    ensures
        stderr_error(trimmed(s)) == stderr_error(s),
{
    reveal_strlit("not found");
    reveal_strlit("not recognized");
    reveal_strlit("execution of scripts is disabled");
    reveal_strlit("module");
    reveal_strlit("not");
    reveal_strlit("cannot");
    lemma_infix_survives_trim(s, "not found"@);
    lemma_infix_survives_trim(s, "not recognized"@);
    lemma_infix_survives_trim(s, "execution of scripts is disabled"@);
    lemma_infix_survives_trim(s, "module"@);
    lemma_infix_survives_trim(s, "not"@);
    lemma_infix_survives_trim(s, "cannot"@);
    lemma_trimmed_idempotent(s);
}

// ---------------------------------------------------------------------------
// Operations
// ---------------------------------------------------------------------------

impl WingetError {
    /// Classifies a failed PowerShell run by its standard error text: a
    /// missing PowerShell, disabled script execution, a missing WinGet
    /// module, or else a generic error that carries the trimmed text.
    pub fn from_stderr(stderr: &str) -> (r: WingetError)
        ensures
            r@ == stderr_error(stderr@),
    {
        if str_contains(stderr, "not found") || str_contains(stderr, "not recognized") {
            WingetError::PowerShellNotFound
        } else if str_contains(stderr, "execution of scripts is disabled") {
            WingetError::ScriptExecutionDisabled
        } else if str_contains(stderr, "module") && (str_contains(stderr, "not") || str_contains(
            stderr,
            "cannot",
        )) {
            WingetError::WinGetModuleNotInstalled
        } else {
            WingetError::PowerShellError { stderr: trim_whitespace(stderr) }
        }
    }
}

/// The entry point to WinGet's PowerShell module.
pub struct WingetManager;

impl WingetManager {
    /// Escapes single quotes in a PowerShell string (each of `'` and the
    /// typographic single quotes U+2018 to U+201B is doubled) so that an id
    /// cannot break out of the quotes it is placed in.
    pub fn escape_powershell_string(s: &str) -> (r: String)
        ensures
            r@ == ps_escape(s@),
    {
        let v = chars_of(s);
        let mut r = String::new();
        let mut i: usize = 0;
        proof {
            assert(v@.skip(0) =~= v@);
        }
        while i < v.len()
            invariant
                i <= v.len(),
                v@ == s@,
                ps_escape(s@) == r@ + ps_escape(v@.skip(i as int)),
            decreases v.len() - i,
        {
            let c = v[i];
            proof {
                assert(v@.skip(i as int).drop_first() =~= v@.skip(i + 1));
            }
            if c == '\'' || c == '\u{2018}' || c == '\u{2019}' || c == '\u{201a}' || c
                == '\u{201b}' {
                push_char(&mut r, c);
                push_char(&mut r, c);
            } else {
                push_char(&mut r, c);
            }
            i = i + 1;
        }
        proof {
            assert(r@ + ps_escape(v@.skip(v.len() as int)) =~= r@);
        }
        r
    }

    /// The script that lists the packages with an available update.
    pub fn fetch_updates_script() -> (r: String)
        ensures
            r@ == fetch_script_text(),
    {
        String::from_str(
            "\n            Import-Module Microsoft.WinGet.Client\n            $updates = Get-WinGetPackage | Where-Object { $_.IsUpdateAvailable }\n            $updates | Select-Object Name, Id, InstalledVersion, @{Name='AvailableVersion'; Expression={ $_.AvailableVersions[0] }} | ConvertTo-Json -Compress -AsArray\n        ",
        )
    }

    /// The script that installs the package `id`, with the id escaped and
    /// single-quoted.
    pub fn install_script(id: &str) -> (r: String)
        ensures
            r@ == install_script_text(id@),
    {
        let escaped = Self::escape_powershell_string(id);
        let mut r = String::from_str(
            "\n            Import-Module Microsoft.WinGet.Client\n            Install-WinGetPackage -id '",
        );
        r.append(escaped.as_str());
        r.append("' | ConvertTo-Json -Compress -Depth 10\n        ");
        r
    }

    /// Interprets a PowerShell run: on success the trimmed standard output
    /// (the JSON to parse), on failure the classified standard error, and
    /// `CommandFailed` with the message when the process could not run.
    pub fn run_output_text(output: Result<CommandOutput, String>) -> (r: Result<String, WingetError>)
        ensures
            match r {
                Ok(s) => run_text(output) == Ok::<Seq<char>, WingetErrorView>(s@),
                Err(e) => run_text(output) == Err::<Seq<char>, WingetErrorView>(e@),
            },
    {
        match output {
            Ok(out) => {
                if out.success {
                    let text = decode_utf8_lossy(out.stdout.as_slice());
                    Ok(trim_whitespace(text.as_str()))
                } else {
                    let text = decode_utf8_lossy(out.stderr.as_slice());
                    Err(WingetError::from_stderr(text.as_str()))
                }
            },
            Err(msg) => Err(WingetError::CommandFailed { error: msg }),
        }
    }

    /// Whether a listing's JSON text stands for "no updates".
    pub fn json_is_blank(json: &str) -> (r: bool)
        ensures
            r == json_is_blank(json@),
    {
        let v = chars_of(json);
        if v.len() == 0 {
            return true;
        }
        let null = chars_of("null");
        proof {
            reveal_strlit("null");
        }
        if v.len() != 4 {
            assert(json@.len() != "null"@.len());
            return false;
        }
        let same = v[0] == null[0] && v[1] == null[1] && v[2] == null[2] && v[3] == null[3];
        if same {
            assert(json@ =~= "null"@);
        } else {
            assert(json@ != "null"@);
        }
        same
    }

    /// The outcome of an update listing, from its JSON text and what parsing
    /// that text as a package array gave (`Err` with the parser's message):
    /// blank text or an empty array mean no updates, a parse failure keeps
    /// the message and the raw text.
    pub fn packages_from_json(json: String, parsed: Result<Vec<Package>, String>) -> (r: Result<
        Vec<Package>,
        WingetError,
    >)
        ensures
            packages_result_view(r) == package_list_outcome(json@, parsed_packages_view(parsed)),
    {
        if Self::json_is_blank(json.as_str()) {
            return Err(WingetError::NoUpdatesAvailable);
        }
        match parsed {
            Ok(packages) => {
                if packages.len() == 0 {
                    Err(WingetError::NoUpdatesAvailable)
                } else {
                    Ok(packages)
                }
            },
            Err(e) => Err(WingetError::JsonParseError { error: e, raw_data: json }),
        }
    }

    /// The outcome of an install, from its JSON text and what parsing that
    /// text as an install report gave: the report, or a parse error that
    /// keeps the message and the raw text.
    pub fn install_result_from_json(json: String, parsed: Result<InstallResult, String>) -> (r:
        Result<InstallResult, WingetError>)
        ensures
            match parsed {
                Ok(res) => r matches Ok(x) && x@ == res@,
                Err(e) => r matches Err(x) && x@ == (WingetErrorView::JsonParseError {
                    error: e@,
                    raw_data: json@,
                }),
            },
    {
        match parsed {
            Ok(res) => Ok(res),
            Err(e) => Err(WingetError::JsonParseError { error: e, raw_data: json }),
        }
    }

    /// The outcome of an install run once the process has finished: a
    /// cancellation requested meanwhile (plain or forced) wins over whatever
    /// the process printed; otherwise the run is interpreted as
    /// [`WingetManager::run_output_text`] does.
    pub fn install_run_text(
        cancelled: bool,
        force_cancelled: bool,
        output: Result<CommandOutput, String>,
    ) -> (r: Result<String, WingetError>)
        ensures
            (cancelled || force_cancelled) ==> (r matches Err(e) && e@
                == WingetErrorView::Cancelled),
            !(cancelled || force_cancelled) ==> match r {
                Ok(s) => run_text(output) == Ok::<Seq<char>, WingetErrorView>(s@),
                Err(e) => run_text(output) == Err::<Seq<char>, WingetErrorView>(e@),
            },
    {
        if cancelled || force_cancelled {
            Err(WingetError::Cancelled)
        } else {
            Self::run_output_text(output)
        }
    }

    /// Whether an install may start: a token cancelled before the start
    /// stops it with `Cancelled`.
    pub fn install_gate(cancelled: bool) -> (r: Option<WingetError>)
        ensures
            cancelled ==> (r matches Some(e) && e@ == WingetErrorView::Cancelled),
            !cancelled ==> r is None,
    {
        if cancelled {
            Some(WingetError::Cancelled)
        } else {
            None
        }
    }
}

/// The web search that gives information on a package: its name with spaces
/// turned into `+`, in a query for a software download.
pub open spec fn search_url_text(name: Seq<char>) -> Seq<char> {
    "https://www.google.com/search?q="@ + name.map_values(
        |c: char|
            if c == ' ' {
                '+'
            } else {
                c
            },
    ) + "+software+download"@
}

/// The address of the web search for a package name.
pub fn search_url(name: &str) -> (r: String)
    ensures
        r@ == search_url_text(name@),
{
    let v = chars_of(name);
    let mut q = String::new();
    let mut i: usize = 0;
    while i < v.len()
        invariant
            i <= v.len(),
            v@ == name@,
            q@ == v@.subrange(0, i as int).map_values(
                |c: char|
                    if c == ' ' {
                        '+'
                    } else {
                        c
                    },
            ),
        decreases v.len() - i,
    {
        let c = v[i];
        if c == ' ' {
            push_char(&mut q, '+');
        } else {
            push_char(&mut q, c);
        }
        i = i + 1;
        proof {
            assert(v@.subrange(0, i as int).map_values(
                |c: char|
                    if c == ' ' {
                        '+'
                    } else {
                        c
                    },
            ) =~= q@);
        }
    }
    proof {
        assert(v@.subrange(0, v.len() as int) =~= v@);
    }
    let with_prefix = concat_str("https://www.google.com/search?q=", q.as_str());
    concat_str(with_prefix.as_str(), "+software+download")
}

} // verus!
