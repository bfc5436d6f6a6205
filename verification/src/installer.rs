//! Activation of the tool's terminal commands: one small launcher script
//! per subcommand under `/usr/bin`, each running this binary with the
//! menu it maps to.

use vstd::prelude::*;

verus! {

/// One launcher script: a usage line, a description, and the menu the
/// binary opens for it.
pub open spec fn spec_command_file_script(
    exe_path: Seq<char>,
    name: Seq<char>,
    description: Seq<char>,
    menu_arg: Seq<char>,
) -> Seq<char> {
    "#!/bin/sh\nif [ \"$1\" = \"--help\" ]; then\necho \"Usage: "@ + name + "\"\necho \""@
        + description + "\"\nexit 0\nfi\nexec "@ + exe_path + " "@ + menu_arg + "\n"@
}

/// Write one launcher script.
pub fn command_file_script(exe_path: &str, name: &str, description: &str, menu_arg: &str) -> (r:
    String)
    ensures
        r@ == spec_command_file_script(exe_path@, name@, description@, menu_arg@),
{
    let mut s = String::new();
    s.append("#!/bin/sh\nif [ \"$1\" = \"--help\" ]; then\necho \"Usage: ");
    s.append(name);
    s.append("\"\necho \"");
    s.append(description);
    s.append("\"\nexit 0\nfi\nexec ");
    s.append(exe_path);
    s.append(" ");
    s.append(menu_arg);
    s.append("\n");
    proof {
        assert(s@ =~= spec_command_file_script(exe_path@, name@, description@, menu_arg@));
    }
    s
}

/// The command that installs one launcher script under `/usr/bin` and
/// makes it executable.
pub open spec fn spec_install_command_file(script: Seq<char>, name: Seq<char>) -> Seq<char> {
    "bash -c 'echo -e \""@ + script + "\" > /usr/bin/"@ + name + " && chmod 755 /usr/bin/"@ + name
        + "'"@
}

/// Install one launcher script.
pub fn install_command_file(script: &str, name: &str) -> (r: String)
    ensures
        r@ == spec_install_command_file(script@, name@),
{
    let mut c = String::new();
    c.append("bash -c 'echo -e \"");
    c.append(script);
    c.append("\" > /usr/bin/");
    c.append(name);
    c.append(" && chmod 755 /usr/bin/");
    c.append(name);
    c.append("'");
    proof {
        assert(c@ =~= spec_install_command_file(script@, name@));
    }
    c
}

/// The install command of one launcher, written from its parts.
pub open spec fn spec_one_command_file(
    exe_path: Seq<char>,
    name: Seq<char>,
    description: Seq<char>,
    menu_arg: Seq<char>,
) -> Seq<char> {
    spec_install_command_file(
        spec_command_file_script(exe_path, name, description, menu_arg),
        name,
    )
}

/// The six launchers, in installation order.
pub open spec fn spec_command_files_cmds(exe_path: Seq<char>) -> Seq<Seq<char>> {
    seq![
        spec_one_command_file(exe_path, "gen-init"@, "Generate initcpio configuration"@, "5"@),
        spec_one_command_file(exe_path, "edit-isocfg"@, "Edit isolinux.cfg file"@, "6"@),
        spec_one_command_file(exe_path, "edit-grubcfg"@, "Edit grub.cfg file"@, "7"@),
        spec_one_command_file(exe_path, "setup-script"@, "Open setup script menu"@, "8"@),
        spec_one_command_file(exe_path, "make-iso"@, "Launches the ISO creation menu"@, "3"@),
        spec_one_command_file(
            exe_path,
            "make-squashfs"@,
            "Launches the SquashFS creation menu"@,
            "4"@,
        ),
    ]
}

/// Install the tool's six terminal commands; each command is run with
/// root rights by the caller.
pub fn create_command_files(exe_path: &str) -> (r: Vec<String>)
    ensures
        r.deep_view() == spec_command_files_cmds(exe_path@),
{
    let mut r: Vec<String> = Vec::new();
    let s1 = command_file_script(exe_path, "gen-init", "Generate initcpio configuration", "5");
    r.push(install_command_file(s1.as_str(), "gen-init"));
    let s2 = command_file_script(exe_path, "edit-isocfg", "Edit isolinux.cfg file", "6");
    r.push(install_command_file(s2.as_str(), "edit-isocfg"));
    let s3 = command_file_script(exe_path, "edit-grubcfg", "Edit grub.cfg file", "7");
    r.push(install_command_file(s3.as_str(), "edit-grubcfg"));
    let s4 = command_file_script(exe_path, "setup-script", "Open setup script menu", "8");
    r.push(install_command_file(s4.as_str(), "setup-script"));
    let s5 = command_file_script(exe_path, "make-iso", "Launches the ISO creation menu", "3");
    r.push(install_command_file(s5.as_str(), "make-iso"));
    let s6 = command_file_script(
        exe_path,
        "make-squashfs",
        "Launches the SquashFS creation menu",
        "4",
    );
    r.push(install_command_file(s6.as_str(), "make-squashfs"));
    proof {
        assert(r.deep_view() =~~= spec_command_files_cmds(exe_path@));
    }
    r
}

/// The removal commands of the six launchers, in order.
pub open spec fn spec_remove_command_files_cmds() -> Seq<Seq<char>> {
    seq![
        "sudo rm -f /usr/bin/gen-init"@,
        "sudo rm -f /usr/bin/edit-isocfg"@,
        "sudo rm -f /usr/bin/edit-grubcfg"@,
        "sudo rm -f /usr/bin/setup-script"@,
        "sudo rm -f /usr/bin/make-iso"@,
        "sudo rm -f /usr/bin/make-squashfs"@,
    ]
}

/// Remove the tool's six terminal commands.
pub fn remove_command_files() -> (r: Vec<String>)
    ensures
        r.deep_view() == spec_remove_command_files_cmds(),
{
    let mut r: Vec<String> = Vec::new();
    let mut c1 = String::new();
    c1.append("sudo rm -f /usr/bin/gen-init");
    r.push(c1);
    let mut c2 = String::new();
    c2.append("sudo rm -f /usr/bin/edit-isocfg");
    r.push(c2);
    let mut c3 = String::new();
    c3.append("sudo rm -f /usr/bin/edit-grubcfg");
    r.push(c3);
    let mut c4 = String::new();
    c4.append("sudo rm -f /usr/bin/setup-script");
    r.push(c4);
    let mut c5 = String::new();
    c5.append("sudo rm -f /usr/bin/make-iso");
    r.push(c5);
    let mut c6 = String::new();
    c6.append("sudo rm -f /usr/bin/make-squashfs");
    r.push(c6);
    proof {
        assert(r.deep_view() =~~= spec_remove_command_files_cmds());
    }
    r
}

} // verus!
