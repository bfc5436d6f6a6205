use cmi::distro::Distro;
use cmi::installer::{
    command_file_script, create_command_files, install_command_file, remove_command_files,
};
use cmi::isotool::{
    clone_system, create_iso_plan, create_squashfs_image, delete_clone_system_temp,
    edit_grub_cfg_arch, edit_grub_cfg_debian, edit_grub_cfg_ubuntu, edit_isolinux_cfg_arch,
    edit_isolinux_cfg_debian, edit_isolinux_cfg_ubuntu, generate_initrd_arch,
    generate_initrd_debian, generate_initrd_ubuntu, install_one_time_updater, run_iso_in_qemu,
    set_clone_directory,
};

#[test]
fn initrd_commands_use_the_fixed_trees() {
    assert_eq!(
        generate_initrd_arch(),
        vec![
            "cd /home/$USER/.config/cmi".to_string(),
            "sudo mkinitcpio -c live.conf -g /home/$USER/.config/cmi/build-image-arch/live/initramfs-linux.img".to_string(),
        ]
    );
    assert_eq!(
        generate_initrd_ubuntu()[1],
        "sudo mkinitramfs -o \"/home/$USER/.config/cmi/build-image-noble/live/initrd.img-$(uname -r)\" \"$(uname -r)\""
    );
    assert_eq!(
        generate_initrd_debian()[1],
        "sudo mkinitramfs -o \"/home/$USER/.config/cmi/build-image-debian/live/initrd.img-$(uname -r)\" \"$(uname -r)\""
    );
}

#[test]
fn edit_commands_open_the_fixed_files() {
    assert_eq!(edit_grub_cfg_arch(), "nano /home/$USER/.config/cmi/build-image-arch/boot/grub/grub.cfg");
    assert_eq!(edit_grub_cfg_ubuntu(), "nano /home/$USER/.config/cmi/build-image-noble/boot/grub/grub.cfg");
    assert_eq!(edit_grub_cfg_debian(), "nano /home/$USER/.config/cmi/build-image-debian/boot/grub/grub.cfg");
    assert_eq!(edit_isolinux_cfg_arch(), "nano /home/$USER/.config/cmi/build-image-arch/isolinux/isolinux.cfg");
    assert_eq!(edit_isolinux_cfg_ubuntu(), "nano /home/$USER/.config/cmi/build-image-noble/isolinux/isolinux.cfg");
    assert_eq!(edit_isolinux_cfg_debian(), "nano /home/$USER/.config/cmi/build-image-debian/isolinux/isolinux.cfg");
}

#[test]
fn squashfs_image_targets_the_family_artifact() {
    assert_eq!(
        create_squashfs_image(Distro::Ubuntu, Some("/mnt/clone")).unwrap(),
        "sudo mksquashfs /mnt/clone /home/$USER/.config/cmi/build-image-noble/live/filesystem.sfs -comp xz -Xbcj x86 -b 1M -no-duplicates -no-recovery -always-use-fragments -wildcards -xattrs"
    );
    assert!(create_squashfs_image(Distro::Debian, Some("/c"))
        .unwrap()
        .contains("build-image-debian/live/filesystem.sfs"));
    assert!(create_squashfs_image(Distro::Arch, Some("/c"))
        .unwrap()
        .contains("build-image-arch/arch/x86_64/airootfs.sfs"));
    assert_eq!(
        create_squashfs_image(Distro::Arch, None).err().as_deref(),
        Some("No clone directory specified. Please set it in Setup Script menu.")
    );
}

#[test]
fn delete_clone_commands_follow_the_marker() {
    let both = delete_clone_system_temp(Distro::Arch, Some("/mnt/clone"), true).unwrap();
    assert_eq!(
        both,
        vec![
            "sudo rm -rf /mnt/clone".to_string(),
            "sudo rm -f /home/$USER/.config/cmi/build-image-arch/arch/x86_64/airootfs.sfs"
                .to_string(),
        ]
    );
    let only = delete_clone_system_temp(Distro::Arch, Some("/mnt/clone"), false).unwrap();
    assert_eq!(only, vec!["sudo rm -rf /mnt/clone".to_string()]);
    assert!(delete_clone_system_temp(Distro::Arch, None, false).is_err());
}

#[test]
fn clone_command_excludes_its_own_target() {
    let cmd = clone_system("/mnt/clone");
    assert!(cmd.starts_with("sudo rsync -aHAxSr --numeric-ids --info=progress2"));
    assert!(cmd.contains("--exclude=/mnt/clone"));
    assert!(cmd.ends_with(" / /mnt/clone"));
}

#[test]
fn clone_directory_entry_is_normalized() {
    assert_eq!(set_clone_directory("/mnt/clone").as_deref(), Ok("/mnt/clone/"));
    assert_eq!(set_clone_directory("/mnt/clone/").as_deref(), Ok("/mnt/clone/"));
    assert_eq!(
        set_clone_directory("").err().as_deref(),
        Some("Directory path cannot be empty")
    );
}

#[test]
fn updater_is_staged_by_eight_commands() {
    let cmds = install_one_time_updater();
    assert_eq!(cmds.len(), 8);
    assert_eq!(cmds[0], "cd /home/$USER");
    assert!(cmds[1].starts_with("git clone "));
    assert!(cmds[7].starts_with("rm -rf "));
}

#[test]
fn qemu_command_is_fixed() {
    assert_eq!(run_iso_in_qemu(), "ruby /opt/claudemods-iso-konsole-script/Supported-Distros/qemu.rb");
}

#[test]
fn iso_plan_is_gated_on_the_name() {
    assert_eq!(
        create_iso_plan(Distro::Arch, "", "/out", "/cwd").err().as_deref(),
        Some("ISO name cannot be empty.")
    );
}

#[test]
fn iso_plan_uses_the_invoking_directory() {
    let plan = create_iso_plan(Distro::Ubuntu, "my", "", "/cwd").unwrap();
    assert_eq!(plan.build_image_dir, "/cwd/build-image-noble");
    assert!(plan.xorriso_cmd.starts_with("sudo xorriso -as mkisofs -o \"./my_amd64_"));
    assert!(plan.xorriso_cmd.contains("/usr/lib/ISOLINUX/isohdpfx.bin"));
    assert!(plan.xorriso_cmd.contains("boot/grub/efi.img"));
    assert!(plan.xorriso_cmd.ends_with("\"/cwd/build-image-noble\""));
    let arch = create_iso_plan(Distro::Arch, "my", "/out", "/cwd").unwrap();
    assert_eq!(arch.build_image_dir, "/cwd/build-image-arch");
    assert!(arch.xorriso_cmd.starts_with("sudo xorriso -as mkisofs -o \"/out/my_amd64_"));
    assert!(arch.xorriso_cmd.contains("/usr/lib/syslinux/bios/isohdpfx.bin"));
    assert!(arch.xorriso_cmd.contains("boot/grub/efiboot.img"));
}

#[test]
fn launcher_scripts_wrap_the_binary() {
    let script = command_file_script("/usr/local/bin/tool", "gen-init", "Generate initcpio configuration", "5");
    assert_eq!(
        script,
        "#!/bin/sh\nif [ \"$1\" = \"--help\" ]; then\necho \"Usage: gen-init\"\necho \"Generate initcpio configuration\"\nexit 0\nfi\nexec /usr/local/bin/tool 5\n"
    );
    let install = install_command_file("body", "gen-init");
    assert_eq!(
        install,
        "bash -c 'echo -e \"body\" > /usr/bin/gen-init && chmod 755 /usr/bin/gen-init'"
    );
}

#[test]
fn six_commands_are_activated_and_removed() {
    let installs = create_command_files("/usr/local/bin/tool");
    assert_eq!(installs.len(), 6);
    assert!(installs[0].contains("/usr/bin/gen-init"));
    assert!(installs[0].contains("exec /usr/local/bin/tool 5"));
    assert!(installs[4].contains("/usr/bin/make-iso"));
    assert!(installs[4].contains("exec /usr/local/bin/tool 3"));
    let removals = remove_command_files();
    assert_eq!(removals.len(), 6);
    assert_eq!(removals[0], "sudo rm -f /usr/bin/gen-init");
    assert_eq!(removals[5], "sudo rm -f /usr/bin/make-squashfs");
}
