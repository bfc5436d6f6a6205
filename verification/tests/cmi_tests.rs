use cmi::cmi::CmiUtils;
use cmi::distro::Distro;

#[test]
fn detect_distro_reads_the_id_line() {
    assert_eq!(CmiUtils::detect_distro("NAME=\"Arch Linux\"\nID=arch\n"), Distro::Arch);
    assert_eq!(CmiUtils::detect_distro("ID=ubuntu\nVERSION_ID=\"24.04\"\n"), Distro::Ubuntu);
    assert_eq!(CmiUtils::detect_distro("ID=debian\n"), Distro::Debian);
    assert_eq!(CmiUtils::detect_distro("ID=cachyos\n"), Distro::Cachyos);
    assert_eq!(CmiUtils::detect_distro("ID=neon\n"), Distro::Neon);
    assert_eq!(CmiUtils::detect_distro("ID=gentoo\n"), Distro::Unknown);
    assert_eq!(CmiUtils::detect_distro(""), Distro::Unknown);
    // ID_LIKE does not start with ID= and decides nothing
    assert_eq!(CmiUtils::detect_distro("ID_LIKE=debian\nID=gentoo\n"), Distro::Unknown);
    // a later ID= line decides when the first names nothing known
    assert_eq!(CmiUtils::detect_distro("ID=gentoo\nID=arch\n"), Distro::Arch);
}

#[test]
fn distro_names_and_trees() {
    assert_eq!(Distro::Arch.name(), "Arch Linux");
    assert_eq!(Distro::Cachyos.name(), "CachyOS");
    assert_eq!(Distro::Neon.name(), "KDE Neon");
    assert_eq!(Distro::Unknown.name(), "Unknown");
    assert_eq!(Distro::Arch.build_tree(), "build-image-arch");
    assert_eq!(Distro::Ubuntu.build_tree(), "build-image-noble");
    assert_eq!(Distro::Neon.build_tree(), "build-image-noble");
    assert_eq!(Distro::Debian.build_tree(), "build-image-debian");
    assert_eq!(Distro::Unknown.build_tree(), "build-image-arch");
}

#[test]
fn version_readers_take_the_first_line() {
    assert_eq!(CmiUtils::get_cmi_version(None), "unknown");
    assert_eq!(CmiUtils::get_cmi_version(Some("")), "unknown");
    assert_eq!(CmiUtils::get_cmi_version(Some("v5.0\nextra\n")), "v5.0");
    assert_eq!(CmiUtils::get_cmi_version(Some("v5.0")), "v5.0");
}

#[test]
fn vmlinuz_version_takes_the_last_path_component() {
    assert_eq!(CmiUtils::get_vmlinuz_version("/boot/vmlinuz-linux\n/boot/vmlinuz-lts\n"), "vmlinuz-linux");
    assert_eq!(CmiUtils::get_vmlinuz_version("vmlinuz-linux\n"), "vmlinuz-linux");
    assert_eq!(CmiUtils::get_vmlinuz_version(""), "unknown");
}

#[test]
fn distro_version_strips_the_quotes() {
    assert_eq!(
        CmiUtils::get_distro_version("ID=ubuntu\nVERSION_ID=\"24.04\"\n"),
        "24.04"
    );
    assert_eq!(CmiUtils::get_distro_version("VERSION_ID=12\n"), "12");
    assert_eq!(CmiUtils::get_distro_version("ID=arch\n"), "unknown");
}

#[test]
fn clone_dir_is_normalized_on_read() {
    assert_eq!(CmiUtils::read_clone_dir(None), None);
    assert_eq!(CmiUtils::read_clone_dir(Some("/mnt/work\n")).as_deref(), Some("/mnt/work/"));
    assert_eq!(CmiUtils::read_clone_dir(Some("/mnt/work/")).as_deref(), Some("/mnt/work/"));
    assert_eq!(CmiUtils::read_clone_dir(Some("  /mnt/work  ")).as_deref(), Some("/mnt/work/"));
}

#[test]
fn iso_name_is_trimmed_on_read() {
    assert_eq!(CmiUtils::get_iso_name(None), None);
    assert_eq!(CmiUtils::get_iso_name(Some("my.iso\n")).as_deref(), Some("my.iso"));
}

#[test]
fn saving_the_clone_dir_creates_what_is_missing() {
    let save = CmiUtils::save_clone_dir("/mnt/work", "bob", false, false);
    assert_eq!(save.make_config_dir.as_deref(), Some("mkdir -p /home/bob/.config/cmi"));
    assert_eq!(save.file_content, "/mnt/work/");
    assert_eq!(save.make_marker_dir.as_deref(), Some("mkdir -p /mnt/work/clone_system_temp"));
    let save2 = CmiUtils::save_clone_dir("/mnt/work/", "bob", true, true);
    assert!(save2.make_config_dir.is_none());
    assert_eq!(save2.file_content, "/mnt/work/");
    assert!(save2.make_marker_dir.is_none());
}

#[test]
fn saving_the_iso_name_keeps_it_as_given() {
    let save = CmiUtils::save_iso_name("my.iso", "bob", false);
    assert_eq!(save.make_config_dir.as_deref(), Some("mkdir -p /home/bob/.config/cmi"));
    assert_eq!(save.file_content, "my.iso");
    assert!(CmiUtils::save_iso_name("x", "bob", true).make_config_dir.is_none());
}

#[test]
fn dependency_installs_differ_by_family() {
    let arch = CmiUtils::install_dependencies(Distro::Arch).unwrap();
    assert!(arch.starts_with("sudo pacman -S --needed --noconfirm arch-install-scripts"));
    assert!(arch.ends_with("kernel-modules-hook virt-manager"));
    assert_eq!(arch, CmiUtils::install_dependencies(Distro::Cachyos).unwrap());
    let ubuntu = CmiUtils::install_dependencies(Distro::Ubuntu).unwrap();
    assert!(ubuntu.contains("libaio-dev libcares2"));
    let debian = CmiUtils::install_dependencies(Distro::Debian).unwrap();
    assert!(debian.contains("libaio1 libc-ares2"));
    assert_eq!(
        CmiUtils::install_dependencies(Distro::Unknown).err().as_deref(),
        Some("Unknown distribution")
    );
}

#[test]
fn initrd_generation_runs_in_the_build_tree() {
    let arch = CmiUtils::generate_initrd(Distro::Arch, "bob").unwrap();
    assert_eq!(
        arch,
        vec![
            "cd /home/bob/.config/cmi/build-image-arch >/dev/null 2>&1 && sudo mkinitcpio -c live.conf -g /home/bob/.config/cmi/build-image-arch/live/initramfs-linux.img".to_string(),
            "sudo cp /boot/vmlinuz-linux* /home/bob/.config/cmi/build-image-arch/live/ 2>/dev/null".to_string(),
        ]
    );
    let ubuntu = CmiUtils::generate_initrd(Distro::Ubuntu, "bob").unwrap();
    assert_eq!(
        ubuntu[0],
        "sudo mkinitramfs -o \"/home/bob/.config/cmi/build-image-noble/live/initrd.img-$(uname -r)\" \"$(uname -r)\""
    );
    assert!(CmiUtils::generate_initrd(Distro::Unknown, "bob").is_err());
}

#[test]
fn config_edits_open_the_right_tree() {
    assert_eq!(
        CmiUtils::edit_isolinux_cfg(Distro::Debian, "bob").unwrap(),
        "nano /home/bob/.config/cmi/build-image-debian/isolinux/isolinux.cfg"
    );
    assert_eq!(
        CmiUtils::edit_grub_cfg(Distro::Neon, "bob").unwrap(),
        "nano /home/bob/.config/cmi/build-image-noble/boot/grub/grub.cfg"
    );
    assert!(CmiUtils::edit_grub_cfg(Distro::Unknown, "bob").is_err());
}

#[test]
fn installer_packages_differ_by_family() {
    assert!(CmiUtils::install_calamares(Distro::Arch, "bob").unwrap().starts_with(
        "cd /home/bob/.config/cmi/calamares-per-distro/arch >/dev/null 2>&1 && sudo pacman -U"
    ));
    assert!(CmiUtils::install_calamares(Distro::Cachyos, "bob").unwrap().starts_with(
        "sudo pacman -U --noconfirm"
    ));
    assert_eq!(
        CmiUtils::install_calamares(Distro::Debian, "bob").unwrap(),
        "sudo apt install -y calamares-settings-debian calamares"
    );
    assert!(CmiUtils::install_calamares(Distro::Unknown, "bob").is_err());
    assert_eq!(
        CmiUtils::edit_calamares_branding(),
        "sudo nano /usr/share/calamares/branding/claudemods/branding.desc"
    );
}

#[test]
fn clone_stage_creates_the_marker_only_when_missing() {
    let fresh = CmiUtils::clone_system("/mnt/work", false);
    assert_eq!(fresh.len(), 2);
    assert_eq!(fresh[0], "mkdir -p /mnt/work/clone_system_temp");
    assert!(fresh[1].starts_with("sudo rsync -aHAXSr"));
    assert!(fresh[1].ends_with(" / /mnt/work/clone_system_temp"));
    let staged = CmiUtils::clone_system("/mnt/work/", true);
    assert_eq!(staged.len(), 1);
    assert!(staged[0].starts_with("sudo rsync"));
}

#[test]
fn squashfs_goes_into_the_family_tree() {
    assert_eq!(
        CmiUtils::create_squashfs(Distro::Arch, Some("/mnt/work"), "bob").unwrap(),
        "sudo mksquashfs /mnt/work/clone_system_temp /home/bob/.config/cmi/build-image-arch/arch/x86_64/airootfs.sfs -comp xz -Xbcj x86 -b 1M -no-duplicates -no-recovery -always-use-fragments -wildcards -xattrs"
    );
    assert!(CmiUtils::create_squashfs(Distro::Ubuntu, Some("/w/"), "bob")
        .unwrap()
        .contains("/home/bob/.config/cmi/build-image-noble/live/filesystem.sfs"));
    assert_eq!(
        CmiUtils::create_squashfs(Distro::Arch, None, "bob").err().as_deref(),
        Some("Clone directory not set")
    );
}

#[test]
fn existing_marker_skips_the_clone_step() {
    let skipped = CmiUtils::create_squashfs_clone(Distro::Arch, Some("/mnt/work"), true, "bob")
        .unwrap();
    assert_eq!(skipped.len(), 1);
    assert!(skipped[0].starts_with("sudo mksquashfs"));
    let full = CmiUtils::create_squashfs_clone(Distro::Arch, Some("/mnt/work"), false, "bob")
        .unwrap();
    assert_eq!(full.len(), 3);
    assert!(full[0].starts_with("mkdir -p"));
    assert!(full[1].starts_with("sudo rsync"));
    assert!(full[2].starts_with("sudo mksquashfs"));
    assert!(CmiUtils::create_squashfs_clone(Distro::Arch, None, true, "bob").is_err());
}

#[test]
fn deleting_the_clone_removes_the_artifact_only_when_present() {
    let both = CmiUtils::delete_clone(Distro::Debian, Some("/mnt/work"), true, "bob").unwrap();
    assert_eq!(
        both,
        vec![
            "sudo rm -rf /mnt/work/clone_system_temp".to_string(),
            "sudo rm -f /home/bob/.config/cmi/build-image-debian/live/filesystem.sfs".to_string(),
        ]
    );
    let only_dir = CmiUtils::delete_clone(Distro::Debian, Some("/mnt/work"), false, "bob").unwrap();
    assert_eq!(only_dir.len(), 1);
    assert!(CmiUtils::delete_clone(Distro::Debian, None, false, "bob").is_err());
}

#[test]
fn iso_assembly_is_gated_on_name_and_directory() {
    assert_eq!(
        CmiUtils::create_iso(Distro::Arch, "/out", None, true, "bob").err().as_deref(),
        Some("ISO name not set")
    );
    assert_eq!(
        CmiUtils::create_iso(Distro::Arch, "", Some("x"), true, "bob").err().as_deref(),
        Some("Output directory not specified")
    );
}

#[test]
fn iso_assembly_stamps_the_file_and_creates_the_directory() {
    let cmds = CmiUtils::create_iso(Distro::Arch, "/out", Some("my"), false, "bob").unwrap();
    assert_eq!(cmds.len(), 2);
    assert_eq!(cmds[0], "mkdir -p /out");
    assert!(cmds[1].starts_with("sudo xorriso -as mkisofs -o /out/my_amd64_"));
    assert!(cmds[1].contains(".iso -V 2025 -iso-level 3"));
    assert!(cmds[1].contains("/usr/lib/syslinux/bios/isohdpfx.bin"));
    assert!(cmds[1].ends_with(" /home/bob/.config/cmi/build-image-arch"));
    let existing = CmiUtils::create_iso(Distro::Ubuntu, "/out", Some("my"), true, "bob").unwrap();
    assert_eq!(existing.len(), 1);
    assert!(existing[0].contains("/usr/lib/ISOLINUX/isohdpfx.bin"));
    assert!(existing[0].contains("boot/grub/efi.img"));
    assert!(existing[0].ends_with(" /home/bob/.config/cmi/build-image-noble"));
}

#[test]
fn iso_file_name_joins_its_parts() {
    assert_eq!(
        CmiUtils::iso_file_name("/out", "my", "2025-01-02_0304"),
        "/out/my_amd64_2025-01-02_0304.iso"
    );
}

#[test]
fn fixed_commands_of_the_cli() {
    assert_eq!(
        CmiUtils::run_qemu(),
        "ruby /opt/claudemods-iso-konsole-script/Supported-Distros/qemu.rb"
    );
    assert_eq!(CmiUtils::install_updater("bob"), "./home/bob/.config/cmi/patch.sh");
    assert_eq!(CmiUtils::show_guide("bob"), "cat /home/bob/.config/cmi/readme.txt");
    assert_eq!(CmiUtils::show_changelog("bob"), "cat /home/bob/.config/cmi/changelog.txt");
}

#[test]
fn init_image_paths_follow_the_family() {
    assert_eq!(
        CmiUtils::init_image_path(Distro::Arch, "bob", "6.9.1"),
        "/home/bob/.config/cmi/build-image-arch/live/initramfs-linux.img"
    );
    assert_eq!(
        CmiUtils::init_image_path(Distro::Ubuntu, "bob", "6.9.1"),
        "/home/bob/.config/cmi/build-image-noble/live/initrd.img-6.9.1"
    );
    // the probe runs against the real disk; this path is not there
    assert!(!CmiUtils::is_init_generated(Distro::Arch, "no-such-user-here", "6.9.1"));
}

#[test]
fn expand_path_replaces_every_user_marker() {
    assert_eq!(CmiUtils::expand_path("/home/$USER/.config/cmi", "bob"), "/home/bob/.config/cmi");
    assert_eq!(CmiUtils::expand_path("$USER/$USER", "b"), "b/b");
    assert_eq!(CmiUtils::expand_path("/none", "b"), "/none");
}

#[test]
fn directory_probe_answers_for_the_real_disk() {
    assert!(CmiUtils::dir_exists("/"));
    assert!(!CmiUtils::dir_exists("/no/such/directory/anywhere"));
}
