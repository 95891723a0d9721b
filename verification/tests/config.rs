use shellpicker::config::{shell_display_name, ConfigFile, ShellItem, ShellItemEnvironmentVariable};

#[test]
fn new_owns_the_borrowed_fields() {
    let item = ShellItem::new(
        "zsh",
        "/bin/zsh".to_string(),
        vec!["-l", "--no-rcs"],
        Some(vec![ShellItemEnvironmentVariable {
            name: "TERM".to_string(),
            value: "xterm-256color".to_string(),
        }]),
    );
    assert_eq!(item.name, "zsh");
    assert_eq!(item.path, "/bin/zsh");
    assert_eq!(item.args, vec!["-l".to_string(), "--no-rcs".to_string()]);
    let env_vars = item.env_vars.unwrap();
    assert_eq!(env_vars.len(), 1);
    assert_eq!(env_vars[0].name, "TERM");
    assert_eq!(env_vars[0].value, "xterm-256color");
}

#[test]
fn display_name_is_the_final_path_component() {
    assert_eq!(shell_display_name("/bin/bash"), "bash");
    assert_eq!(shell_display_name("/usr/local/bin/fish"), "fish");
    assert_eq!(shell_display_name("zsh"), "zsh");
    assert_eq!(shell_display_name(".bashrc"), ".bashrc");
}

#[test]
fn display_name_skips_trailing_separators_and_dot_components() {
    assert_eq!(shell_display_name("/usr/bin/"), "bin");
    assert_eq!(shell_display_name("/usr/bin//"), "bin");
    assert_eq!(shell_display_name("foo.txt/."), "foo.txt");
    assert_eq!(shell_display_name("foo.txt/.//"), "foo.txt");
}

#[test]
fn display_name_agrees_with_the_platform_path_parser() {
    for path in [
        "/bin/bash",
        "/usr/bin/",
        "/usr/bin//",
        "foo.txt/.",
        "foo.txt/.//",
        ".bashrc",
        "zsh",
        "...",
        "a/../b",
    ] {
        let expected = std::path::Path::new(path)
            .file_name()
            .map(|name| name.to_string_lossy().into_owned())
            .unwrap_or_else(|| "Default".to_string());
        assert_eq!(shell_display_name(path), expected, "path {:?}", path);
    }
}

#[test]
fn display_name_falls_back_to_default() {
    assert_eq!(shell_display_name(""), "Default");
    assert_eq!(shell_display_name("/"), "Default");
    assert_eq!(shell_display_name("."), "Default");
    assert_eq!(shell_display_name(".."), "Default");
    assert_eq!(shell_display_name("/bin/.."), "Default");
    assert_eq!(shell_display_name("./"), "Default");
}

#[test]
fn base_windows_offers_powershell_and_cmd() {
    let config = ConfigFile::base_windows();
    assert_eq!(config.shells.len(), 2);
    assert_eq!(config.shells[0].name, "PowerShell");
    assert_eq!(
        config.shells[0].path,
        "C:\\Windows\\System32\\WindowsPowerShell\\v1.0\\powershell.exe"
    );
    assert!(config.shells[0].args.is_empty());
    assert!(config.shells[0].env_vars.is_none());
    assert_eq!(config.shells[1].name, "Command Prompt");
    assert_eq!(config.shells[1].path, "C:\\Windows\\System32\\cmd.exe");
    assert!(config.shells[1].args.is_empty());
    assert!(config.shells[1].env_vars.is_none());
}

#[test]
fn base_unix_offers_the_default_shell() {
    let config = ConfigFile::base_unix("/bin/bash");
    assert_eq!(config.shells.len(), 1);
    assert_eq!(config.shells[0].name, "bash");
    assert_eq!(config.shells[0].path, "/bin/bash");
    assert!(config.shells[0].args.is_empty());
    assert!(config.shells[0].env_vars.is_none());
}

#[test]
fn base_unix_ignores_a_trailing_separator() {
    let config = ConfigFile::base_unix("/usr/bin/");
    assert_eq!(config.shells.len(), 1);
    assert_eq!(config.shells[0].name, "bin");
    assert_eq!(config.shells[0].path, "/usr/bin/");
}

#[test]
fn base_unix_without_a_file_name_is_labelled_default() {
    let config = ConfigFile::base_unix("");
    assert_eq!(config.shells.len(), 1);
    assert_eq!(config.shells[0].name, "Default");
    assert_eq!(config.shells[0].path, "");
}
