//! The file-type association of markdown files: what the scripts for the
//! external interpreter say, and what its output means. The caller spawns
//! the interpreter and hands its output over; nothing here is cached.

use vstd::prelude::*;
use vstd::string::*;
use crate::text::{
    from_utf8_lossy, is_infix_of, lossy_text, lowercased, text_eq, text_of, to_lowercase, trim, trimmed,
};

verus! {

/// The application identifier that is used where none can be found out.
pub const FALLBACK_BUNDLE_ID: &'static str = "com.mdview.viewer";

/// The content-type identifier of markdown files.
pub const MD_UTI: &'static str = "net.daringfireball.markdown";

/// The identifier of the text editor that takes markdown files back when
/// the association is removed.
pub const TEXT_EDITOR_BUNDLE_ID: &'static str = "com.apple.TextEdit";

/// What an external process left behind: whether it exited with success,
/// and what it wrote to standard output and standard error.
pub struct ProcessOutput {
    pub success: bool,
    pub stdout: Vec<u8>,
    pub stderr: Vec<u8>,
}

/// What a `ProcessOutput` is.
pub struct OutputModel {
    pub success: bool,
    pub stdout: Seq<u8>,
    pub stderr: Seq<u8>,
}

impl View for ProcessOutput {
    type V = OutputModel;

    open spec fn view(&self) -> OutputModel {
        OutputModel { success: self.success, stdout: self.stdout@, stderr: self.stderr@ }
    }
}

/// Why the association could not be changed.
pub enum AssocError {
    /// The interpreter could not be started; the text is the reason.
    Spawn(String),
    /// The interpreter ran and did not confirm the change; `stderr` is what
    /// it wrote to standard error, without surrounding white space.
    Rejected { enable: bool, stderr: String },
}

/// What an `AssocError` is.
pub enum AssocFailure {
    Spawn(Seq<char>),
    Rejected { enable: bool, stderr: Seq<char> },
}

impl View for AssocError {
    type V = AssocFailure;

    open spec fn view(&self) -> AssocFailure {
        match self {
            AssocError::Spawn(reason) => AssocFailure::Spawn(reason@),
            AssocError::Rejected { enable, stderr } => AssocFailure::Rejected {
                enable: *enable,
                stderr: stderr@,
            },
        }
    }
}

/// The result of a toggle, errors by their view.
pub open spec fn toggle_view(r: Result<bool, AssocError>) -> Result<bool, AssocFailure> {
    match r {
        Ok(b) => Ok(b),
        Err(e) => Err(e@),
    }
}

/// The output of a spawn that may have failed, by its view.
pub open spec fn spawn_view(r: Result<ProcessOutput, String>) -> Result<OutputModel, Seq<char>> {
    match r {
        Ok(o) => Ok(o@),
        Err(e) => Err(e@),
    }
}

/// The text that a process wrote: its bytes decoded leniently, without
/// surrounding white space.
pub open spec fn written_text(bytes: Seq<u8>) -> Seq<char> {
    trimmed(lossy_text(bytes))
}

/// The script that asks for the default handler of markdown files. It
/// prints the handler's identifier, or `none`.
pub open spec fn probe_script_text() -> Seq<char> {
    "import CoreServices; import Foundation; if let h = LSCopyDefaultRoleHandlerForContentType(\""@
        + MD_UTI@
        + "\" as NSString as CFString, .all) { print(h.takeRetainedValue()) } else { print(\"none\") }"@
}

/// The application that a toggle registers: this application when the
/// association is set, the text editor when it is removed.
pub open spec fn toggle_target(enable: bool, self_bundle: Seq<char>) -> Seq<char> {
    if enable {
        self_bundle
    } else {
        TEXT_EDITOR_BUNDLE_ID@
    }
}

/// The script that registers `target` as the default handler of markdown
/// files. It prints `ok` where the registration succeeded, else `err`.
pub open spec fn toggle_script_text(target: Seq<char>) -> Seq<char> {
    "import CoreServices; import Foundation; let r = LSSetDefaultRoleHandlerForContentType(\""@
        + MD_UTI@ + "\" as NSString as CFString, .all, \""@ + target
        + "\" as NSString as CFString); print(r == 0 ? \"ok\" : \"err\")"@
}

/// The application identifier: the one from the environment where there is
/// one; else what the settings reader printed, where it ran with success
/// and printed anything; else none.
pub open spec fn bundle_id_of(env_value: Option<Seq<char>>, defaults: Option<OutputModel>) -> Option<
    Seq<char>,
> {
    match env_value {
        Some(v) => Some(v),
        None => match defaults {
            Some(o) => if o.success && written_text(o.stdout).len() > 0 {
                Some(written_text(o.stdout))
            } else {
                None
            },
            None => None,
        },
    }
}

/// Whether the probe shows this application as the default handler: the
/// interpreter started, exited with success, and printed `bundle_id`, in
/// whatever case.
pub open spec fn probe_shows(probe: Option<OutputModel>, bundle_id: Seq<char>) -> bool {
    match probe {
        Some(o) => o.success && lowercased(written_text(o.stdout)) == lowercased(bundle_id),
        None => false,
    }
}

/// What a toggle comes to, given the texts that the interpreter wrote: the
/// requested state where standard output is exactly `ok`, else a rejection
/// that carries standard error.
pub open spec fn verdict_of(enable: bool, stdout: Seq<char>, stderr: Seq<char>) -> Result<
    bool,
    AssocFailure,
> {
    if stdout == "ok"@ {
        Ok(enable)
    } else {
        Err(AssocFailure::Rejected { enable: enable, stderr: stderr })
    }
}

/// What a toggle comes to, given what the spawn returned.
pub open spec fn toggle_outcome(enable: bool, run: Result<OutputModel, Seq<char>>) -> Result<
    bool,
    AssocFailure,
> {
    match run {
        Ok(o) => verdict_of(enable, written_text(o.stdout), written_text(o.stderr)),
        Err(reason) => Err(AssocFailure::Spawn(reason)),
    }
}

/// What the user can try where the interpreter could not be started.
pub open spec fn spawn_hint() -> Seq<char> {
    "\n\nTry: install the Swift command line tools (run `xcode-select --install` in a terminal) and try again.\nYou can always change this in Finder: right-click a .md file \u{2192} Get Info \u{2192} Open With."@
}

/// What the user can try where the interpreter did not confirm the change.
pub open spec fn rejection_hint() -> Seq<char> {
    "\n\nTry: ensure you are running the .app bundle (not `cargo tauri dev`) and that the app is in /Applications.\nYou can always change this in Finder: right-click a .md file \u{2192} Get Info \u{2192} Open With."@
}

/// The message that tells the user of a failure: what failed, the detail
/// that the system gave, and what to try.
pub open spec fn failure_message(e: AssocFailure) -> Seq<char> {
    match e {
        AssocFailure::Spawn(reason) => "Failed to run swift: "@ + reason + spawn_hint(),
        AssocFailure::Rejected { enable, stderr } => "Failed to "@ + (if enable {
            "set"@
        } else {
            "remove"@
        }) + " file association. "@ + stderr + rejection_hint(),
    }
}

/// The script for the association probe.
pub fn probe_script() -> (r: String)
    ensures
        r@ == probe_script_text(),
{
    let mut r = String::from_str(
        "import CoreServices; import Foundation; if let h = LSCopyDefaultRoleHandlerForContentType(\"",
    );
    r.append(MD_UTI);
    r.append(
        "\" as NSString as CFString, .all) { print(h.takeRetainedValue()) } else { print(\"none\") }",
    );
    r
}

/// The script for an association toggle. `self_bundle` is this
/// application's identifier.
pub fn toggle_script(enable: bool, self_bundle: &str) -> (r: String)
    ensures
        r@ == toggle_script_text(toggle_target(enable, self_bundle@)),
{
    let target: &str = if enable {
        self_bundle
    } else {
        TEXT_EDITOR_BUNDLE_ID
    };
    let mut r = String::from_str(
        "import CoreServices; import Foundation; let r = LSSetDefaultRoleHandlerForContentType(\"",
    );
    r.append(MD_UTI);
    r.append("\" as NSString as CFString, .all, \"");
    r.append(target);
    r.append("\" as NSString as CFString); print(r == 0 ? \"ok\" : \"err\")");
    r
}

/// This application's identifier, as far as it can be found out:
/// `env_value` is what the environment gives, `defaults` what the settings
/// reader returned where it was started.
pub fn current_bundle_id(env_value: Option<String>, defaults: Option<ProcessOutput>) -> (r: Option<
    String,
>)
    ensures
        text_of(r) == bundle_id_of(
            text_of(env_value),
            match defaults {
                Some(o) => Some(o@),
                None => None,
            },
        ),
{
    match env_value {
        Some(v) => Some(v),
        None => match defaults {
            Some(o) => {
                if !o.success {
                    return None;
                }
                let decoded = from_utf8_lossy(&o.stdout);
                let s = trim(decoded.as_str());
                if s.as_str().is_empty() {
                    None
                } else {
                    Some(s)
                }
            },
            None => None,
        },
    }
}

/// The identifier to work with: the one found out, else the fallback.
pub fn bundle_id_or_fallback(found: Option<String>) -> (r: String)
    ensures
        r@ == (match found {
            Some(id) => id@,
            None => FALLBACK_BUNDLE_ID@,
        }),
{
    match found {
        Some(id) => id,
        None => String::from_str(FALLBACK_BUNDLE_ID),
    }
}

/// Whether this application is the default handler of markdown files,
/// given what the probe returned (`None` where the interpreter could not be
/// started). Every failure counts as "not associated".
pub fn is_md_associated(probe: Option<ProcessOutput>, bundle_id: &str) -> (r: bool)
    ensures
        r == probe_shows(
            match probe {
                Some(o) => Some(o@),
                None => None,
            },
            bundle_id@,
        ),
{
    match probe {
        Some(o) => {
            if !o.success {
                return false;
            }
            let decoded = from_utf8_lossy(&o.stdout);
            let handler = to_lowercase(trim(decoded.as_str()).as_str());
            let own = to_lowercase(bundle_id);
            text_eq(handler.as_str(), own.as_str())
        },
        None => false,
    }
}

/// What a toggle comes to, given the texts that the interpreter wrote to
/// standard output and standard error. Only the marker `ok` confirms.
pub fn toggle_verdict(enable: bool, stdout: &str, stderr: String) -> (r: Result<bool, AssocError>)
    ensures
        toggle_view(r) == verdict_of(enable, stdout@, stderr@),
{
    if text_eq(stdout, "ok") {
        Ok(enable)
    } else {
        Err(AssocError::Rejected { enable, stderr })
    }
}

/// What a toggle to `enable` comes to, given what the spawn returned: the
/// output of the interpreter, or the reason why it did not start.
pub fn set_md_association(enable: bool, run: Result<ProcessOutput, String>) -> (r: Result<
    bool,
    AssocError,
>)
    ensures
        toggle_view(r) == toggle_outcome(enable, spawn_view(run)),
{
    match run {
        Ok(o) => {
            let out = from_utf8_lossy(&o.stdout);
            let stdout = trim(out.as_str());
            let err = from_utf8_lossy(&o.stderr);
            let stderr = trim(err.as_str());
            toggle_verdict(enable, stdout.as_str(), stderr)
        },
        Err(reason) => Err(AssocError::Spawn(reason)),
    }
}

impl AssocError {
    /// The message that tells the user of the failure, with what to try.
    pub fn message(&self) -> (r: String)
        ensures
            r@ == failure_message(self@),
    {
        match self {
            AssocError::Spawn(reason) => {
                let mut r = String::from_str("Failed to run swift: ");
                r.append(reason.as_str());
                r.append(
                    "\n\nTry: install the Swift command line tools (run `xcode-select --install` in a terminal) and try again.\nYou can always change this in Finder: right-click a .md file \u{2192} Get Info \u{2192} Open With.",
                );
                r
            },
            AssocError::Rejected { enable, stderr } => {
                let mut r = String::from_str("Failed to ");
                r.append(
                    if *enable {
                        "set"
                    } else {
                        "remove"
                    },
                );
                r.append(" file association. ");
                r.append(stderr.as_str());
                r.append(
                    "\n\nTry: ensure you are running the .app bundle (not `cargo tauri dev`) and that the app is in /Applications.\nYou can always change this in Finder: right-click a .md file \u{2192} Get Info \u{2192} Open With.",
                );
                r
            },
        }
    }
}

/// A toggle is confirmed by the marker alone: it succeeds exactly where the
/// interpreter started and wrote `ok`, and then it returns the requested
/// state; an exit with success does not count.
pub proof fn lemma_toggle_needs_marker(enable: bool, run: Result<OutputModel, Seq<char>>)
    ensures
        toggle_outcome(enable, run) is Ok <==> (run matches Ok(o) && written_text(o.stdout)
            == "ok"@),
        toggle_outcome(enable, run) matches Ok(b) ==> b == enable,
{
}

/// Every failure message carries the detail that the system gave (the
/// reason why the interpreter did not start, or what it wrote to standard
/// error) and ends with what the user can try.
pub proof fn lemma_failure_message_has_detail_and_hint(e: AssocFailure)
    ensures
        ({
            let message = failure_message(e);
            let (detail, hint) = match e {
                AssocFailure::Spawn(reason) => (reason, spawn_hint()),
                AssocFailure::Rejected { enable, stderr } => (stderr, rejection_hint()),
            };
            &&& is_infix_of(detail, message)
            &&& message.len() >= hint.len()
            &&& message.subrange(message.len() - hint.len(), message.len() as int) == hint
        }),
{
    let message = failure_message(e);
    match e {
        AssocFailure::Spawn(reason) => {
            let head = "Failed to run swift: "@;
            let at = head.len() as int;
            assert(message.subrange(at, at + reason.len()) =~= reason);
            assert(message.subrange(message.len() - spawn_hint().len(), message.len() as int)
                =~= spawn_hint());
        },
        AssocFailure::Rejected { enable, stderr } => {
            let head = "Failed to "@ + (if enable {
                "set"@
            } else {
                "remove"@
            }) + " file association. "@;
            let at = head.len() as int;
            assert(message.subrange(at, at + stderr.len()) =~= stderr);
            assert(message.subrange(
                message.len() - rejection_hint().len(),
                message.len() as int,
            ) =~= rejection_hint());
        },
    }
}

} // verus!
