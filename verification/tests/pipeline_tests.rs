use cmi::config::{set_iso_name, set_iso_tag, ConfigState};
use cmi::imgtool::{
    build_image_plan, config_file_path, copy_files_with_rsync, create_checksum, create_iso,
    create_squashfs, expand_path, filter_vmlinuz, format_filesystem, generate_mkinitcpio,
    get_output_directory, install_dependencies_command, mount_filesystem, select_vmlinuz,
    set_output_dir, unmount_and_cleanup, update_script_command,
};
use cmi::{command_outcome, CommandOutcome, OnFailure};

fn ready_config() -> ConfigState {
    let mut c = ConfigState::default();
    set_iso_tag(&mut c, "2025".to_string());
    set_iso_name(&mut c, "live.iso".to_string());
    c.set_output_dir("~/out".to_string());
    c.set_vmlinuz_path("/boot/vmlinuz-linux".to_string());
    c.mark_mkinitcpio_generated();
    c.mark_grub_edited();
    c.mark_dependencies_installed();
    c
}

#[test]
fn empty_config_cannot_create_iso() {
    let c = ConfigState::default();
    let r = create_iso(&c, "alice");
    assert_eq!(r.err().as_deref(), Some("Cannot create ISO - setup is incomplete!"));
}

#[test]
fn ready_config_builds_iso_at_expanded_path() {
    let c = ready_config();
    let plan = create_iso(&c, "alice").unwrap();
    assert_eq!(plan.iso_path, "/home/alice/out/live.iso");
    assert_eq!(plan.mkdir_cmd, "mkdir -p /home/alice/out");
    assert!(plan.xorriso_cmd.starts_with("sudo xorriso -as mkisofs"));
    assert!(plan.xorriso_cmd.contains("-volid \"2025\""));
    assert!(plan.xorriso_cmd.contains(
        "--grub2-mbr /home/alice/.config/cmi/build-image-arch-img/boot/grub/i386-pc/boot_hybrid.img"
    ));
    assert!(plan.xorriso_cmd.contains("-o \"/home/alice/out/live.iso\""));
    assert!(plan.xorriso_cmd.ends_with("/home/alice/.config/cmi/build-image-arch-img"));
}

#[test]
fn ext4_build_produces_a_second_distinct_artifact() {
    let plan = build_image_plan("1.2", "ext4", "alice").unwrap();
    let raw = plan.raw_image.clone();
    assert_eq!(raw, "/home/alice/.config/cmi/build-image-arch-img/LiveOS/rootfs.img");
    let squash = plan.squashfs_image.clone().unwrap();
    assert_eq!(squash, "/home/alice/.config/cmi/build-image-arch-img/LiveOS/rootfs.sfs");
    assert_ne!(raw, squash);
    // format, mount, copy, unmount all present and in order
    let cmds = &plan.commands;
    let pos_format = cmds.iter().position(|c| c.starts_with("sudo mkfs.ext4")).unwrap();
    let pos_mount = cmds.iter().position(|c| c.starts_with("sudo mount")).unwrap();
    let pos_copy = cmds.iter().position(|c| c.starts_with("sudo rsync")).unwrap();
    let pos_umount = cmds.iter().position(|c| c.starts_with("sudo umount /mnt/btrfs_temp") && !c.contains("|| true")).unwrap();
    let pos_squash = cmds.iter().position(|c| c.starts_with("sudo mksquashfs")).unwrap();
    let pos_sum = cmds.iter().position(|c| c.starts_with("md5sum")).unwrap();
    assert!(pos_format < pos_mount);
    assert!(pos_mount < pos_copy);
    assert!(pos_copy < pos_umount);
    assert!(pos_umount < pos_squash);
    assert!(pos_squash < pos_sum);
}

#[test]
fn btrfs_build_produces_only_the_raw_image() {
    let plan = build_image_plan("1.2", "btrfs", "alice").unwrap();
    assert!(plan.squashfs_image.is_none());
    assert!(!plan.commands.iter().any(|c| c.starts_with("sudo mksquashfs")));
    assert!(plan.commands.iter().any(|c| c.starts_with("sudo mkfs.btrfs")));
    assert!(plan.commands.iter().any(|c| c.starts_with("md5sum")));
}

#[test]
fn invalid_size_yields_no_plan() {
    assert!(build_image_plan("abc", "ext4", "alice").is_none());
    assert!(build_image_plan("0", "ext4", "alice").is_none());
}

#[test]
fn format_commands_are_exact() {
    let b = format_filesystem("btrfs", "f.img");
    assert_eq!(
        b,
        vec![
            "sudo mkdir -p //btrfs_rootdir".to_string(),
            "sudo mkfs.btrfs -L \"LIVE_SYSTEM\" --compress=zstd --rootdir=//btrfs_rootdir -f f.img"
                .to_string(),
            "sudo rmdir //btrfs_rootdir".to_string(),
        ]
    );
    let e = format_filesystem("ext4", "f.img");
    assert_eq!(
        e,
        vec![
            "sudo mkfs.ext4 -F -O ^has_journal,^resize_inode -E lazy_itable_init=0 -m 0 -L \"SYSTEM_BACKUP\" f.img"
                .to_string(),
        ]
    );
}

#[test]
fn mount_commands_are_exact() {
    let b = mount_filesystem("btrfs", "f.img", "/mnt/btrfs_temp");
    assert_eq!(
        b,
        vec![
            "sudo mkdir -p /mnt/btrfs_temp".to_string(),
            "sudo mount -o compress=zstd,compress-force=zstd:22 f.img /mnt/btrfs_temp".to_string(),
        ]
    );
    let e = mount_filesystem("ext4", "f.img", "/mnt/btrfs_temp");
    assert_eq!(e[1],
        "sudo mount -o loop,discard,noatime,data=writeback,commit=60,barrier=0,nobh,errors=remount-ro f.img /mnt/btrfs_temp");
}

#[test]
fn copy_stage_branches_on_the_filesystem() {
    let b = copy_files_with_rsync("/", "/mnt/btrfs_temp", "btrfs");
    assert_eq!(b.len(), 3);
    assert!(b[0].starts_with(
        "sudo rsync -aHAXSr --numeric-ids --info=progress2 --compress --compress-level=22 --exclude="
    ));
    assert!(b[0].ends_with(" / /mnt/btrfs_temp"));
    assert_eq!(b[1], "sudo btrfs filesystem defrag -r -v -c zstd /mnt/btrfs_temp");
    assert_eq!(b[2], "sudo btrfs filesystem resize max /mnt/btrfs_temp");
    let e = copy_files_with_rsync("/", "/mnt/btrfs_temp", "ext4");
    assert!(e[0].starts_with("sudo rsync -aHAXSr --numeric-ids --info=progress2   --exclude="));
    assert_eq!(e[1], "sudo e4defrag /mnt/btrfs_temp");
    assert_eq!(e[2], "sudo tune2fs -o journal_data_writeback /mnt/btrfs_temp");
}

#[test]
fn tune2fs_takes_the_first_token_of_the_destination() {
    let e = copy_files_with_rsync("/", "/mnt/a b", "ext4");
    assert_eq!(e[2], "sudo tune2fs -o journal_data_writeback /mnt/a");
}

#[test]
fn unmount_and_checksum_are_exact() {
    assert_eq!(
        unmount_and_cleanup("/mnt/btrfs_temp"),
        vec![
            "sync".to_string(),
            "sudo umount /mnt/btrfs_temp".to_string(),
            "sudo rmdir /mnt/btrfs_temp".to_string(),
        ]
    );
    assert_eq!(create_checksum("out/rootfs.img"), "md5sum out/rootfs.img > out/rootfs.img.md5");
    assert_eq!(
        create_squashfs("a.img", "a.sfs"),
        "sudo mksquashfs a.img a.sfs -comp zstd -Xcompression-level 22 -noappend -b 256K -Xbcj x86"
    );
}

#[test]
fn paths_and_fixed_commands() {
    assert_eq!(
        get_output_directory("bob"),
        "/home/bob/.config/cmi/build-image-arch-img/LiveOS"
    );
    assert_eq!(config_file_path("bob"), "/home/bob/.config/cmi/configuration.txt");
    assert!(install_dependencies_command().starts_with("sudo pacman -Sy --needed --noconfirm rsync "));
    assert!(update_script_command().starts_with("bash -c \"$(curl -fsSL"));
}

#[test]
fn path_expansion_covers_tilde_and_user() {
    assert_eq!(expand_path("~/Downloads", "bob"), "/home/bob/Downloads");
    assert_eq!(expand_path("$USER/x", "bob"), "bob/x");
    assert_eq!(expand_path("/plain", "bob"), "/plain");
    assert_eq!(expand_path("~ and $USER", "bob"), "/home/bob and bob");
}

#[test]
fn output_dir_entry_defaults_and_expands() {
    let mut c = ConfigState::default();
    let cmd = set_output_dir(&mut c, "", "bob");
    assert_eq!(c.output_dir, "/home/bob/Downloads");
    assert_eq!(cmd, "mkdir -p /home/bob/Downloads");
    let cmd2 = set_output_dir(&mut c, "/home/$USER/out", "bob");
    assert_eq!(c.output_dir, "/home/bob/out");
    assert_eq!(cmd2, "mkdir -p /home/bob/out");
}

#[test]
fn kernel_images_are_filtered_and_selected() {
    let names = vec![
        "initramfs-linux.img".to_string(),
        "vmlinuz-linux".to_string(),
        "grub".to_string(),
        "vmlinuz-lts".to_string(),
    ];
    let found = filter_vmlinuz(&names);
    assert_eq!(found, vec!["/boot/vmlinuz-linux".to_string(), "/boot/vmlinuz-lts".to_string()]);
    let mut c = ConfigState::default();
    let cmd = select_vmlinuz(&mut c, &found, "2", "/home/bob/.config/cmi/build-image-arch-img");
    assert_eq!(
        cmd.as_deref(),
        Some(
            "sudo cp /boot/vmlinuz-lts /home/bob/.config/cmi/build-image-arch-img/boot/vmlinuz-x86_64"
        )
    );
    assert_eq!(c.vmlinuz_path, "/boot/vmlinuz-lts");
    // out-of-range and malformed entries change nothing
    assert!(select_vmlinuz(&mut c, &found, "3", "bd").is_none());
    assert!(select_vmlinuz(&mut c, &found, "0", "bd").is_none());
    assert!(select_vmlinuz(&mut c, &found, "x", "bd").is_none());
    assert_eq!(c.vmlinuz_path, "/boot/vmlinuz-lts");
}

#[test]
fn initramfs_stage_is_gated_on_the_kernel() {
    let mut c = ConfigState::default();
    assert!(generate_mkinitcpio(&c, "/bd").is_none());
    c.set_vmlinuz_path("/boot/vmlinuz-linux".to_string());
    assert!(generate_mkinitcpio(&c, "").is_none());
    assert_eq!(
        generate_mkinitcpio(&c, "/bd").as_deref(),
        Some("cd /bd && sudo mkinitcpio -c mkinitcpio.conf -g /bd/boot/initramfs-x86_64.img")
    );
}

#[test]
fn command_outcome_follows_the_policy() {
    assert_eq!(command_outcome(OnFailure::Abort, true), CommandOutcome::Success);
    assert_eq!(command_outcome(OnFailure::Continue, true), CommandOutcome::Success);
    assert_eq!(command_outcome(OnFailure::Continue, false), CommandOutcome::FailedContinue);
    assert_eq!(command_outcome(OnFailure::Abort, false), CommandOutcome::FailedAbort);
}
