//! Installing and removing the helper daemon through one privileged script run: the
//! command handed to the privilege prompt, and the reading of its outcome.
use crate::text::{contains_text, has_substring};
use vstd::prelude::*;

verus! {

#[derive(Clone, Copy, Debug, PartialEq, Eq, Structural)]
pub enum HelperAction {
    Install,
    Uninstall,
}

/// Why a helper operation did not succeed.
#[derive(Clone, Debug, PartialEq, Eq)]
pub enum HelperError {
    /// The helper mechanism exists on macOS only.
    Unsupported,
    /// The application's resource directory could not be resolved.
    ResourceDirUnavailable(String),
    /// The bundled script is missing, at this path.
    ResourceNotFound(String),
    /// The privilege prompt could not be started.
    EscalationUnavailable(String),
    /// The user declined the privilege prompt.
    UserCancelled,
    /// The script ran and failed, with this error output.
    ScriptFailed(String),
}

/// What a finished privileged run reported.
#[derive(Clone, Debug, PartialEq, Eq)]
pub struct ScriptRun {
    pub success: bool,
    pub stdout: String,
    pub stderr: String,
}

/// The privilege prompt's error output says that the user declined.
pub open spec fn cancelled_spec(stderr: Seq<char>) -> bool {
    has_substring(stderr, "User canceled"@) || has_substring(stderr, "-128"@)
}

/// The AppleScript that runs the bundled script with administrator privileges; the
/// install script also receives the helpers directory.
pub open spec fn escalation_text(action: HelperAction, script: Seq<char>, dir: Seq<char>) -> Seq<
    char,
> {
    match action {
        HelperAction::Install => "do shell script \"bash '"@ + script + "' '"@ + dir
            + "'\" with administrator privileges"@,
        HelperAction::Uninstall => "do shell script \"bash '"@ + script
            + "'\" with administrator privileges"@,
    }
}

pub open spec fn success_text(action: HelperAction, stdout: Seq<char>) -> Seq<char> {
    match action {
        HelperAction::Install => "Wake Helper erfolgreich installiert.\n"@ + stdout,
        HelperAction::Uninstall => "Wake Helper erfolgreich deinstalliert."@,
    }
}

/// Whether the error output of a privileged run reports that the user declined.
pub fn is_user_cancellation(stderr: &str) -> (r: bool)
    ensures
        r == cancelled_spec(stderr@),
{
    contains_text(stderr, "User canceled") || contains_text(stderr, "-128")
}

/// The AppleScript for the privilege prompt.
pub fn escalation_script(action: HelperAction, script_path: &str, helpers_dir: &str) -> (r:
    String)
    ensures
        r@ == escalation_text(action, script_path@, helpers_dir@),
{
    let mut s = String::from_str("do shell script \"bash '");
    s.append(script_path);
    match action {
        HelperAction::Install => {
            s.append("' '");
            s.append(helpers_dir);
        },
        HelperAction::Uninstall => {},
    }
    s.append("'\" with administrator privileges");
    s
}

/// The prompt's script when the bundled script exists; otherwise the run fails before
/// any privilege is asked for.
pub fn prepare_run(
    action: HelperAction,
    script_path: &str,
    script_exists: bool,
    helpers_dir: &str,
) -> (r: Result<String, HelperError>)
    ensures
        !script_exists ==> (r matches Err(HelperError::ResourceNotFound(p)) && p@ == script_path@),
        script_exists ==> (r matches Ok(s) && s@ == escalation_text(action, script_path@, helpers_dir@)),
{
    if !script_exists {
        Err(HelperError::ResourceNotFound(String::from_str(script_path)))
    } else {
        Ok(escalation_script(action, script_path, helpers_dir))
    }
}

/// The outcome of a privileged run: success with its message; the user's refusal; the
/// script's failure with its error output; or the prompt not starting at all.
pub fn classify_run(action: HelperAction, run: Result<ScriptRun, String>) -> (r: Result<
    String,
    HelperError,
>)
    ensures
        match run {
            Err(e) => r matches Err(HelperError::EscalationUnavailable(m)) && m@ == e@,
            Ok(o) => if o.success {
                r matches Ok(m) && m@ == success_text(action, o.stdout@)
            } else if cancelled_spec(o.stderr@) {
                r matches Err(HelperError::UserCancelled)
            } else {
                r matches Err(HelperError::ScriptFailed(m)) && m@ == o.stderr@
            },
        },
{
    match run {
        Err(e) => Err(HelperError::EscalationUnavailable(e)),
        Ok(o) => {
            if o.success {
                match action {
                    HelperAction::Install => {
                        let mut m = String::from_str("Wake Helper erfolgreich installiert.\n");
                        m.append(o.stdout.as_str());
                        Ok(m)
                    },
                    HelperAction::Uninstall => Ok(
                        String::from_str("Wake Helper erfolgreich deinstalliert."),
                    ),
                }
            } else if is_user_cancellation(o.stderr.as_str()) {
                Err(HelperError::UserCancelled)
            } else {
                Err(HelperError::ScriptFailed(o.stderr))
            }
        },
    }
}

pub open spec fn error_text(action: HelperAction, e: HelperError) -> Seq<char> {
    let install = action == HelperAction::Install;
    match e {
        HelperError::Unsupported => "Nur auf macOS unterstützt"@,
        HelperError::ResourceDirUnavailable(m) => "Resource dir error: "@ + m@,
        HelperError::ResourceNotFound(p) => if install {
            "Install script not found at: "@ + p@
        } else {
            "Uninstall script not found at: "@ + p@
        },
        HelperError::EscalationUnavailable(m) => if install {
            "Failed to run installer: "@ + m@
        } else {
            "Failed to run uninstaller: "@ + m@
        },
        HelperError::UserCancelled => if install {
            "Installation vom Benutzer abgebrochen."@
        } else {
            "Deinstallation vom Benutzer abgebrochen."@
        },
        HelperError::ScriptFailed(m) => if install {
            "Installation fehlgeschlagen: "@ + m@
        } else {
            "Deinstallation fehlgeschlagen: "@ + m@
        },
    }
}

impl HelperError {
    /// The text shown to the user for this error of `action`.
    pub fn message(&self, action: HelperAction) -> (r: String)
        ensures
            r@ == error_text(action, *self),
    {
        let install = match action {
            HelperAction::Install => true,
            HelperAction::Uninstall => false,
        };
        match self {
            HelperError::Unsupported => String::from_str("Nur auf macOS unterstützt"),
            HelperError::ResourceDirUnavailable(m) => {
                String::from_str("Resource dir error: ").concat(m.as_str())
            },
            HelperError::ResourceNotFound(p) => if install {
                String::from_str("Install script not found at: ").concat(p.as_str())
            } else {
                String::from_str("Uninstall script not found at: ").concat(p.as_str())
            },
            HelperError::EscalationUnavailable(m) => if install {
                String::from_str("Failed to run installer: ").concat(m.as_str())
            } else {
                String::from_str("Failed to run uninstaller: ").concat(m.as_str())
            },
            HelperError::UserCancelled => if install {
                String::from_str("Installation vom Benutzer abgebrochen.")
            } else {
                String::from_str("Deinstallation vom Benutzer abgebrochen.")
            },
            HelperError::ScriptFailed(m) => if install {
                String::from_str("Installation fehlgeschlagen: ").concat(m.as_str())
            } else {
                String::from_str("Deinstallation fehlgeschlagen: ").concat(m.as_str())
            },
        }
    }
}

} // verus!
