//! The command policy: which concrete command line an operation runs.
//!
//! The policy is a closed decision table over the operation kind and the
//! package source. It is pure: the capability probes (is the privileged
//! helper functional, is the flatpak tool present) and the home directory
//! are performed respectively read by the caller and handed in as values,
//! and the selected action comes back as data. Nothing here touches the
//! operating system.

use vstd::prelude::*;
use vstd::string::StringExecFns;

use crate::script::heal_script;
use crate::script::heal_script_text;
use crate::text::lower_of;
use crate::text::to_lowercase;

verus! {

/// What the caller wants done with the package.
#[derive(Clone, Copy, Debug, PartialEq, Eq, Structural)]
pub enum OperationKind {
    Install,
    Uninstall,
}

/// Which package source an app comes from.
#[derive(Clone, Debug, PartialEq, Eq, Structural)]
pub enum Source {
    Aur,
    Pacman,
    Flatpak,
    AppImage,
    Script,
}

impl Source {
    /// The short label under which the source is shown.
    pub fn label(&self) -> (r: &'static str)
        ensures
            r@ == match self {
                Source::Aur => "AUR"@,
                Source::Pacman => "Pacman"@,
                Source::Flatpak => "Flatpak"@,
                Source::AppImage => "AppImage"@,
                Source::Script => "Script"@,
            },
    {
        match self {
            Source::Aur => "AUR",
            Source::Pacman => "Pacman",
            Source::Flatpak => "Flatpak",
            Source::AppImage => "AppImage",
            Source::Script => "Script",
        }
    }
}

/// One concrete command line: the executable, its arguments, and, for
/// helper installs, the self-heal script that the shell receives as its
/// final argument.
pub struct CommandSpec {
    pub executable: String,
    pub arguments: Vec<String>,
    pub pre_check: Option<String>,
}

/// The mathematical shape of a [`CommandSpec`].
#[verifier::ext_equal]
pub struct CommandSpecView {
    pub executable: Seq<char>,
    pub arguments: Seq<Seq<char>>,
    pub pre_check: Option<Seq<char>>,
}

impl View for CommandSpec {
    type V = CommandSpecView;

    open spec fn view(&self) -> CommandSpecView {
        CommandSpecView {
            executable: self.executable@,
            arguments: self.arguments.deep_view(),
            pre_check: match self.pre_check {
                Some(s) => Some(s@),
                None => None,
            },
        }
    }
}

impl CommandSpec {
    /// The executable and the argument vector actually handed to the
    /// launcher: the plain arguments, with the pre-check script appended
    /// when there is one.
    pub fn resolve(self) -> (r: (String, Vec<String>))
        ensures
            r.0@ == self@.executable,
            r.1.deep_view() == resolved_arguments(self@),
    {
        let ghost shape = self@;
        let CommandSpec { executable, mut arguments, pre_check } = self;
        match pre_check {
            Some(s) => {
                arguments.push(s);
                proof {
                    assert(arguments.deep_view() =~= resolved_arguments(shape));
                }
            },
            None => {
                proof {
                    assert(arguments.deep_view() =~= resolved_arguments(shape));
                }
            },
        }
        (executable, arguments)
    }
}

/// The arguments of a command with its pre-check script, if any, appended.
pub open spec fn resolved_arguments(c: CommandSpecView) -> Seq<Seq<char>> {
    match c.pre_check {
        Some(s) => c.arguments.push(s),
        None => c.arguments,
    }
}

/// Result for operations that complete instantly (no streaming needed).
pub struct ImmediateResult {
    pub success: bool,
    pub message: String,
}

/// The mathematical shape of an [`ImmediateResult`].
#[verifier::ext_equal]
pub struct OutcomeView {
    pub success: bool,
    pub message: Seq<char>,
}

impl View for ImmediateResult {
    type V = OutcomeView;

    open spec fn view(&self) -> OutcomeView {
        OutcomeView { success: self.success, message: self.message@ }
    }
}

/// What the policy decided: run a command (possibly after a best-effort
/// setup command whose result is ignored), remove files directly and report
/// the given outcome, or report an outcome with nothing to run at all.
pub enum CommandDecision {
    Run { setup: Option<CommandSpec>, command: CommandSpec },
    RemoveFiles { paths: Vec<String>, outcome: ImmediateResult },
    Immediate(ImmediateResult),
}

/// The mathematical shape of a [`CommandDecision`].
#[verifier::ext_equal]
pub enum DecisionView {
    Run { setup: Option<CommandSpecView>, command: CommandSpecView },
    RemoveFiles { paths: Seq<Seq<char>>, outcome: OutcomeView },
    Immediate(OutcomeView),
}

impl View for CommandDecision {
    type V = DecisionView;

    open spec fn view(&self) -> DecisionView {
        match self {
            CommandDecision::Run { setup, command } => DecisionView::Run {
                setup: match setup {
                    Some(s) => Some(s@),
                    None => None,
                },
                command: command@,
            },
            CommandDecision::RemoveFiles { paths, outcome } => DecisionView::RemoveFiles {
                paths: paths.deep_view(),
                outcome: outcome@,
            },
            CommandDecision::Immediate(o) => DecisionView::Immediate(o@),
        }
    }
}

/// A command without a pre-check script.
pub open spec fn plain_command(exe: Seq<char>, args: Seq<Seq<char>>) -> CommandSpecView {
    CommandSpecView { executable: exe, arguments: args, pre_check: None }
}

/// The guidance shown when the flatpak tool is missing.
pub open spec fn flatpak_missing_text() -> Seq<char> {
    "flatpak is not installed. Run: sudo pacman -S flatpak"@
}

/// The three locations an installed AppImage may occupy: the system-wide
/// directory, the user's binary directory, and the generated desktop entry
/// (whose file name is the lowercased display name).
pub open spec fn appimage_paths_text(name: Seq<char>, home: Seq<char>) -> Seq<Seq<char>> {
    seq![
        "/opt/appimages/"@ + name + ".AppImage"@,
        home + "/.local/bin/"@ + name + ".AppImage"@,
        home + "/.local/share/applications/"@ + lower_of(name) + "-appimage.desktop"@,
    ]
}

/// The whole decision table. `helper_ok` is the result of probing the
/// privileged helper with a version check; `flatpak_present` the result of
/// looking the flatpak tool up on the path; `home` the user's home
/// directory; `name` the display name (used only for AppImage files).
pub open spec fn selected_command(
    kind: OperationKind,
    source: Source,
    id: Seq<char>,
    name: Seq<char>,
    home: Seq<char>,
    helper_ok: bool,
    flatpak_present: bool,
) -> DecisionView {
    match kind {
        OperationKind::Install => match source {
            Source::Pacman => DecisionView::Run {
                setup: None,
                command: if helper_ok {
                    plain_command("paru"@, seq!["-S"@, "--noconfirm"@, id])
                } else {
                    plain_command("pkexec"@, seq!["pacman"@, "-S"@, "--noconfirm"@, id])
                },
            },
            Source::Aur => DecisionView::Run {
                setup: None,
                command: CommandSpecView {
                    executable: "bash"@,
                    arguments: seq!["-c"@],
                    pre_check: Some(heal_script_text(id)),
                },
            },
            Source::Flatpak => if !flatpak_present {
                DecisionView::Immediate(
                    OutcomeView { success: false, message: flatpak_missing_text() },
                )
            } else {
                DecisionView::Run {
                    setup: Some(
                        plain_command(
                            "flatpak"@,
                            seq![
                                "remote-add"@,
                                "--if-not-exists"@,
                                "--user"@,
                                "flathub"@,
                                "https://dl.flathub.org/repo/flathub.flatpakrepo"@,
                            ],
                        ),
                    ),
                    command: plain_command(
                        "flatpak"@,
                        seq!["install"@, "-y"@, "--user"@, "flathub"@, id],
                    ),
                }
            },
            Source::AppImage => DecisionView::Immediate(
                OutcomeView {
                    success: false,
                    message: "Visit appimage.github.io to download "@ + id
                        + ".AppImage, then place it in ~/.local/bin/"@,
                },
            ),
            Source::Script => DecisionView::Run {
                setup: None,
                command: plain_command(id, seq!["install"@]),
            },
        },
        OperationKind::Uninstall => match source {
            Source::Aur | Source::Pacman => DecisionView::Run {
                setup: None,
                command: if helper_ok {
                    plain_command("paru"@, seq!["-Rns"@, "--noconfirm"@, id])
                } else {
                    plain_command("pkexec"@, seq!["pacman"@, "-R"@, "--noconfirm"@, id])
                },
            },
            Source::Flatpak => if !flatpak_present {
                DecisionView::Immediate(
                    OutcomeView { success: false, message: flatpak_missing_text() },
                )
            } else {
                DecisionView::Run {
                    setup: None,
                    command: plain_command("flatpak"@, seq!["uninstall"@, "-y"@, "--user"@, id]),
                }
            },
            Source::AppImage => DecisionView::RemoveFiles {
                paths: appimage_paths_text(name, home),
                outcome: OutcomeView { success: true, message: "Removed "@ + name },
            },
            Source::Script => DecisionView::Run {
                setup: None,
                command: plain_command(id, seq!["uninstall"@]),
            },
        },
    }
}

fn owned(s: &str) -> (r: String)
    ensures
        r@ == s@,
{
    s.to_owned()
}

fn plain(exe: &str, arguments: Vec<String>) -> (r: CommandSpec)
    ensures
        r@ == plain_command(exe@, arguments.deep_view()),
{
    CommandSpec { executable: exe.to_owned(), arguments, pre_check: None }
}

/// The three file-system locations removed when an AppImage is uninstalled.
pub fn appimage_paths(name: &str, home: &str) -> (v: Vec<String>)
    ensures
        v.deep_view() == appimage_paths_text(name@, home@),
{
    let mut p1 = owned("/opt/appimages/");
    p1.append(name);
    p1.append(".AppImage");
    let mut p2 = owned(home);
    p2.append("/.local/bin/");
    p2.append(name);
    p2.append(".AppImage");
    let mut p3 = owned(home);
    p3.append("/.local/share/applications/");
    let low = to_lowercase(name);
    p3.append(low.as_str());
    p3.append("-appimage.desktop");
    let v = vec![p1, p2, p3];
    proof {
        assert(v.deep_view() =~~= appimage_paths_text(name@, home@));
    }
    v
}

/// Selects the concrete action for one operation, following the decision
/// table of [`selected_command`] exactly.
pub fn select_command(
    kind: OperationKind,
    source: &Source,
    id: &str,
    name: &str,
    home: &str,
    helper_ok: bool,
    flatpak_present: bool,
) -> (r: CommandDecision)
    ensures
        r@ == selected_command(kind, *source, id@, name@, home@, helper_ok, flatpak_present),
{
    let ghost target = selected_command(kind, *source, id@, name@, home@, helper_ok, flatpak_present);
    match kind {
        OperationKind::Install => match source {
            Source::Pacman => {
                let command = if helper_ok {
                    plain("paru", vec![owned("-S"), owned("--noconfirm"), owned(id)])
                } else {
                    plain("pkexec", vec![owned("pacman"), owned("-S"), owned("--noconfirm"), owned(id)])
                };
                let r = CommandDecision::Run { setup: None, command };
                proof {
                    assert(r@ =~~= target);
                }
                r
            },
            Source::Aur => {
                let command = CommandSpec {
                    executable: owned("bash"),
                    arguments: vec![owned("-c")],
                    pre_check: Some(heal_script(id)),
                };
                let r = CommandDecision::Run { setup: None, command };
                proof {
                    assert(r@ =~~= target);
                }
                r
            },
            Source::Flatpak => {
                if !flatpak_present {
                    let r = CommandDecision::Immediate(
                        ImmediateResult {
                            success: false,
                            message: owned("flatpak is not installed. Run: sudo pacman -S flatpak"),
                        },
                    );
                    proof {
                        assert(r@ =~~= target);
                    }
                    r
                } else {
                    let setup = plain(
                        "flatpak",
                        vec![
                            owned("remote-add"),
                            owned("--if-not-exists"),
                            owned("--user"),
                            owned("flathub"),
                            owned("https://dl.flathub.org/repo/flathub.flatpakrepo"),
                        ],
                    );
                    let command = plain(
                        "flatpak",
                        vec![owned("install"), owned("-y"), owned("--user"), owned("flathub"), owned(id)],
                    );
                    let r = CommandDecision::Run { setup: Some(setup), command };
                    proof {
                        assert(r@ =~~= target);
                    }
                    r
                }
            },
            Source::AppImage => {
                let mut message = owned("Visit appimage.github.io to download ");
                message.append(id);
                message.append(".AppImage, then place it in ~/.local/bin/");
                let r = CommandDecision::Immediate(ImmediateResult { success: false, message });
                proof {
                    assert(r@ =~~= target);
                }
                r
            },
            Source::Script => {
                let r = CommandDecision::Run {
                    setup: None,
                    command: plain(id, vec![owned("install")]),
                };
                proof {
                    assert(r@ =~~= target);
                }
                r
            },
        },
        OperationKind::Uninstall => match source {
            Source::Aur | Source::Pacman => {
                let command = if helper_ok {
                    plain("paru", vec![owned("-Rns"), owned("--noconfirm"), owned(id)])
                } else {
                    plain("pkexec", vec![owned("pacman"), owned("-R"), owned("--noconfirm"), owned(id)])
                };
                let r = CommandDecision::Run { setup: None, command };
                proof {
                    assert(r@ =~~= target);
                }
                r
            },
            Source::Flatpak => {
                if !flatpak_present {
                    let r = CommandDecision::Immediate(
                        ImmediateResult {
                            success: false,
                            message: owned("flatpak is not installed. Run: sudo pacman -S flatpak"),
                        },
                    );
                    proof {
                        assert(r@ =~~= target);
                    }
                    r
                } else {
                    let command = plain(
                        "flatpak",
                        vec![owned("uninstall"), owned("-y"), owned("--user"), owned(id)],
                    );
                    let r = CommandDecision::Run { setup: None, command };
                    proof {
                        assert(r@ =~~= target);
                    }
                    r
                }
            },
            Source::AppImage => {
                let paths = appimage_paths(name, home);
                let mut message = owned("Removed ");
                message.append(name);
                let r = CommandDecision::RemoveFiles {
                    paths,
                    outcome: ImmediateResult { success: true, message },
                };
                proof {
                    assert(r@ =~~= target);
                }
                r
            },
            Source::Script => {
                let r = CommandDecision::Run {
                    setup: None,
                    command: plain(id, vec![owned("uninstall")]),
                };
                proof {
                    assert(r@ =~~= target);
                }
                r
            },
        },
    }
}

} // verus!
