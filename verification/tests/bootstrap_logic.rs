use agpt_we::bootstrap::{install_command_for_distro, parse_os_release_id};

#[test]
fn reads_the_id_line() {
    let content = "NAME=\"Ubuntu\"\nVERSION_ID=\"22.04\"\nID=ubuntu\nID_LIKE=debian\n";
    assert_eq!(parse_os_release_id(content).as_deref(), Some("ubuntu"));
}

#[test]
fn trims_quotes_around_the_id() {
    let content = "ID=\"arch\"\n";
    assert_eq!(parse_os_release_id(content).as_deref(), Some("arch"));
}

#[test]
fn version_id_is_not_the_id_line() {
    // `VERSION_ID=` holds the marker in its middle but does not open the line.
    let content = "VERSION_ID=\"9\"\nPRETTY_NAME=x\n";
    assert_eq!(parse_os_release_id(content), None);
}

#[test]
fn missing_id_yields_none() {
    assert_eq!(parse_os_release_id(""), None);
    assert_eq!(parse_os_release_id("NAME=foo\n"), None);
}

#[test]
fn install_commands_per_distro() {
    let pacman = vec!["sudo", "pacman", "-S", "--noconfirm", "chromium"];
    let apt = vec!["sudo", "apt-get", "install", "-y", "chromium-browser"];
    let dnf = vec!["sudo", "dnf", "install", "-y", "chromium"];
    assert_eq!(install_command_for_distro("arch").unwrap(), pacman);
    assert_eq!(install_command_for_distro("manjaro").unwrap(), pacman);
    assert_eq!(install_command_for_distro("ubuntu").unwrap(), apt);
    assert_eq!(install_command_for_distro("debian").unwrap(), apt);
    assert_eq!(install_command_for_distro("fedora").unwrap(), dnf);
    assert_eq!(install_command_for_distro("gentoo"), None);
    assert_eq!(install_command_for_distro(""), None);
}
