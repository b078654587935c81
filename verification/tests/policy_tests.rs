use app_center::policy::CommandDecision;
use app_center::policy::OperationKind;
use app_center::policy::Source;
use app_center::policy::select_command;

fn args_of(v: &[String]) -> Vec<&str> {
    v.iter().map(|s| s.as_str()).collect()
}

#[test]
fn repo_install_uses_helper_when_it_works() {
    let d = select_command(OperationKind::Install, &Source::Pacman, "vim", "Vim", "/home/u", true, true);
    match d {
        CommandDecision::Run { setup, command } => {
            assert!(setup.is_none());
            assert_eq!(command.executable, "paru");
            assert_eq!(args_of(&command.arguments), ["-S", "--noconfirm", "vim"]);
            assert!(command.pre_check.is_none());
        },
        _ => panic!("expected a command"),
    }
}

#[test]
fn repo_install_falls_back_when_helper_broken() {
    let d = select_command(OperationKind::Install, &Source::Pacman, "vim", "Vim", "/home/u", false, true);
    match d {
        CommandDecision::Run { setup, command } => {
            assert!(setup.is_none());
            assert_eq!(command.executable, "pkexec");
            assert_eq!(args_of(&command.arguments), ["pacman", "-S", "--noconfirm", "vim"]);
        },
        _ => panic!("expected a command"),
    }
}

#[test]
fn repo_uninstall_uses_helper_when_it_works() {
    let d = select_command(OperationKind::Uninstall, &Source::Pacman, "vim", "Vim", "/home/u", true, true);
    match d {
        CommandDecision::Run { setup, command } => {
            assert!(setup.is_none());
            assert_eq!(command.executable, "paru");
            assert_eq!(args_of(&command.arguments), ["-Rns", "--noconfirm", "vim"]);
        },
        _ => panic!("expected a command"),
    }
}

#[test]
fn repo_uninstall_falls_back_when_helper_broken() {
    let d = select_command(OperationKind::Uninstall, &Source::Aur, "vim", "Vim", "/home/u", false, true);
    match d {
        CommandDecision::Run { setup, command } => {
            assert!(setup.is_none());
            assert_eq!(command.executable, "pkexec");
            assert_eq!(args_of(&command.arguments), ["pacman", "-R", "--noconfirm", "vim"]);
        },
        _ => panic!("expected a command"),
    }
}

#[test]
fn aur_install_wraps_heal_script() {
    let d = select_command(OperationKind::Install, &Source::Aur, "foo's-app", "Foo", "/home/u", false, true);
    match d {
        CommandDecision::Run { setup, command } => {
            assert!(setup.is_none());
            assert_eq!(command.executable, "bash");
            assert_eq!(args_of(&command.arguments), ["-c"]);
            let script = command.pre_check.expect("the shell receives a script");
            assert!(script.contains("paru -S --noconfirm 'foo'\\''s-app'"));
            assert!(script.contains("heal-paru"));
        },
        _ => panic!("expected a command"),
    }
}

#[test]
fn aur_install_resolves_to_bash_invocation() {
    let d = select_command(OperationKind::Install, &Source::Aur, "ripgrep", "ripgrep", "/home/u", true, true);
    match d {
        CommandDecision::Run { command, .. } => {
            let (exe, args) = command.resolve();
            assert_eq!(exe, "bash");
            assert_eq!(args.len(), 2);
            assert_eq!(args[0], "-c");
            assert!(args[1].ends_with("paru -S --noconfirm 'ripgrep'\n"));
        },
        _ => panic!("expected a command"),
    }
}

#[test]
fn flatpak_install_missing_tool_is_immediate_failure() {
    let d = select_command(OperationKind::Install, &Source::Flatpak, "org.gnome.Maps", "Maps", "/home/u", true, false);
    match d {
        CommandDecision::Immediate(outcome) => {
            assert!(!outcome.success);
            assert!(outcome.message.contains("flatpak is not installed"));
        },
        _ => panic!("expected an immediate outcome, no process"),
    }
}

#[test]
fn flatpak_uninstall_missing_tool_is_immediate_failure() {
    let d = select_command(OperationKind::Uninstall, &Source::Flatpak, "org.gnome.Maps", "Maps", "/home/u", true, false);
    match d {
        CommandDecision::Immediate(outcome) => {
            assert!(!outcome.success);
            assert!(outcome.message.contains("flatpak is not installed"));
        },
        _ => panic!("expected an immediate outcome, no process"),
    }
}

#[test]
fn flatpak_install_registers_remote_first() {
    let d = select_command(OperationKind::Install, &Source::Flatpak, "org.gnome.Maps", "Maps", "/home/u", true, true);
    match d {
        CommandDecision::Run { setup, command } => {
            let pre = setup.expect("remote registration runs first");
            assert_eq!(pre.executable, "flatpak");
            assert_eq!(
                args_of(&pre.arguments),
                [
                    "remote-add",
                    "--if-not-exists",
                    "--user",
                    "flathub",
                    "https://dl.flathub.org/repo/flathub.flatpakrepo",
                ],
            );
            assert_eq!(command.executable, "flatpak");
            assert_eq!(args_of(&command.arguments), ["install", "-y", "--user", "flathub", "org.gnome.Maps"]);
        },
        _ => panic!("expected a command"),
    }
}

#[test]
fn flatpak_uninstall_with_tool_present() {
    let d = select_command(OperationKind::Uninstall, &Source::Flatpak, "org.gnome.Maps", "Maps", "/home/u", true, true);
    match d {
        CommandDecision::Run { setup, command } => {
            assert!(setup.is_none());
            assert_eq!(command.executable, "flatpak");
            assert_eq!(args_of(&command.arguments), ["uninstall", "-y", "--user", "org.gnome.Maps"]);
        },
        _ => panic!("expected a command"),
    }
}

#[test]
fn appimage_install_is_immediate_failure_with_guidance() {
    let d = select_command(OperationKind::Install, &Source::AppImage, "Krita", "Krita", "/home/u", true, true);
    match d {
        CommandDecision::Immediate(outcome) => {
            assert!(!outcome.success);
            assert_eq!(
                outcome.message,
                "Visit appimage.github.io to download Krita.AppImage, then place it in ~/.local/bin/",
            );
        },
        _ => panic!("expected an immediate outcome"),
    }
}

#[test]
fn appimage_uninstall_removes_known_locations() {
    let d = select_command(OperationKind::Uninstall, &Source::AppImage, "foo", "Foo", "/home/u", true, true);
    match d {
        CommandDecision::RemoveFiles { paths, outcome } => {
            assert_eq!(
                args_of(&paths),
                [
                    "/opt/appimages/Foo.AppImage",
                    "/home/u/.local/bin/Foo.AppImage",
                    "/home/u/.local/share/applications/foo-appimage.desktop",
                ],
            );
            assert!(outcome.success);
            assert_eq!(outcome.message, "Removed Foo");
        },
        _ => panic!("expected direct file removal"),
    }
}

#[test]
fn script_source_delegates_to_package_executable() {
    let d = select_command(OperationKind::Install, &Source::Script, "zen-kernel-setup", "Zen", "/home/u", true, true);
    match d {
        CommandDecision::Run { setup, command } => {
            assert!(setup.is_none());
            assert_eq!(command.executable, "zen-kernel-setup");
            assert_eq!(args_of(&command.arguments), ["install"]);
        },
        _ => panic!("expected a command"),
    }
    let d = select_command(OperationKind::Uninstall, &Source::Script, "zen-kernel-setup", "Zen", "/home/u", true, true);
    match d {
        CommandDecision::Run { command, .. } => {
            assert_eq!(command.executable, "zen-kernel-setup");
            assert_eq!(args_of(&command.arguments), ["uninstall"]);
        },
        _ => panic!("expected a command"),
    }
}

#[test]
fn source_labels() {
    assert_eq!(Source::Aur.label(), "AUR");
    assert_eq!(Source::Pacman.label(), "Pacman");
    assert_eq!(Source::Flatpak.label(), "Flatpak");
    assert_eq!(Source::AppImage.label(), "AppImage");
    assert_eq!(Source::Script.label(), "Script");
}

#[test]
fn resolve_without_pre_check_keeps_arguments() {
    let d = select_command(OperationKind::Install, &Source::Pacman, "vim", "Vim", "/home/u", true, true);
    match d {
        CommandDecision::Run { command, .. } => {
            let (exe, args) = command.resolve();
            assert_eq!(exe, "paru");
            assert_eq!(args, ["-S", "--noconfirm", "vim"]);
        },
        _ => panic!("expected a command"),
    }
}
