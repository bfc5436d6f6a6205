//! The image-build pipeline: raw filesystem image, optional compressed
//! image, checksum, ISO assembly.
//!
//! Every stage is backed by exactly one external command run through the
//! shell boundary; the functions here decide and build those command
//! lines.  The fixed mount point is `/mnt/btrfs_temp`, the copy source is
//! the running system's root, and the raw image is always `rootfs.img`
//! in the tool's output tree.

use crate::config::{ConfigModel, ConfigState};
use crate::sizes::{image_size_bytes, size_input_positive, spec_decimal_parts, spec_gib_bytes};
use crate::strutil::{
    find_char_from, replace_all, spec_dec, spec_replace, str_eq, u64_to_dec,
};
use vstd::prelude::*;

verus! {

/// `~` expanded to the user's home directory, then `$USER` to the user name.
pub open spec fn spec_expand_path(path: Seq<char>, username: Seq<char>) -> Seq<char> {
    spec_replace(
        spec_replace(path, "~"@, "/home/"@ + username),
        "$USER"@,
        username,
    )
}

/// Expand `~` and `$USER` in a path entered by the operator.
pub fn expand_path(path: &str, username: &str) -> (r: String)
    ensures
        r@ == spec_expand_path(path@, username@),
{
    let mut home = String::new();
    home.append("/home/");
    home.append(username);
    proof {
        assert(home@ =~= "/home/"@ + username@);
    }
    let step = replace_all(path, "~", home.as_str());
    replace_all(step.as_str(), "$USER", username)
}

/// The directory that receives the produced image.
pub open spec fn spec_output_directory(username: Seq<char>) -> Seq<char> {
    "/home/"@ + username + "/.config/cmi/build-image-arch-img/LiveOS"@
}

/// Where the produced image lives: a fixed tree under the user's
/// configuration directory.
pub fn get_output_directory(username: &str) -> (r: String)
    ensures
        r@ == spec_output_directory(username@),
{
    let mut r = String::new();
    r.append("/home/");
    r.append(username);
    r.append("/.config/cmi/build-image-arch-img/LiveOS");
    proof {
        assert(r@ =~= spec_output_directory(username@));
    }
    r
}

/// The build tree of the image tool.
pub open spec fn spec_build_dir(username: Seq<char>) -> Seq<char> {
    "/home/"@ + username + "/.config/cmi/build-image-arch-img"@
}

/// The build tree of the image tool, under the user's configuration
/// directory.
pub fn build_dir_path(username: &str) -> (r: String)
    ensures
        r@ == spec_build_dir(username@),
{
    let mut r = String::new();
    r.append("/home/");
    r.append(username);
    r.append("/.config/cmi/build-image-arch-img");
    proof {
        assert(r@ =~= spec_build_dir(username@));
    }
    r
}

/// Where the configuration record is persisted.
pub open spec fn spec_config_file_path(username: Seq<char>) -> Seq<char> {
    "/home/"@ + username + "/.config/cmi/configuration.txt"@
}

/// The file that holds the persisted configuration record.
pub fn config_file_path(username: &str) -> (r: String)
    ensures
        r@ == spec_config_file_path(username@),
{
    let mut r = String::new();
    r.append("/home/");
    r.append(username);
    r.append("/.config/cmi/configuration.txt");
    proof {
        assert(r@ =~= spec_config_file_path(username@));
    }
    r
}

/// The package-install command of the dependency stage.
pub open spec fn spec_install_dependencies_cmd() -> Seq<char> {
    "sudo pacman -Sy --needed --noconfirm rsync squashfs-tools xorriso grub dosfstools unzip nano arch-install-scripts bash-completion erofs-utils findutils unzip jq libarchive libisoburn lsb-release lvm2 mkinitcpio-archiso mkinitcpio-nfs-utils mtools nbd pacman-contrib parted procps-ng pv python sshfs syslinux xdg-utils zsh-completions kernel-modules-hook virt-manager qt6-tools qt5-tools"@
}

/// Install the fixed package set the pipeline needs.
pub fn install_dependencies_command() -> (r: String)
    ensures
        r@ == spec_install_dependencies_cmd(),
{
    let mut r = String::new();
    r.append(
        "sudo pacman -Sy --needed --noconfirm rsync squashfs-tools xorriso grub dosfstools unzip nano arch-install-scripts bash-completion erofs-utils findutils unzip jq libarchive libisoburn lsb-release lvm2 mkinitcpio-archiso mkinitcpio-nfs-utils mtools nbd pacman-contrib parted procps-ng pv python sshfs syslinux xdg-utils zsh-completions kernel-modules-hook virt-manager qt6-tools qt5-tools",
    );
    proof {
        assert(r@ =~= spec_install_dependencies_cmd());
    }
    r
}

/// The sparse-file allocation command for a size entry, when the entry
/// reads as a number greater than zero whose byte count fits 64 bits.
pub open spec fn spec_fallocate_cmd(bytes: int, filename: Seq<char>) -> Seq<char> {
    "sudo fallocate -l "@ + spec_dec(bytes) + " "@ + filename
}

/// Allocate the sparse image file of the requested size in GiB.
/// Yields no command when the entry is not a positive decimal number or
/// its byte count does not fit in 64 bits.
pub fn create_image_file(size_str: &str, filename: &str) -> (r: Option<String>)
    ensures
        match r {
            Some(cmd) => {
                &&& crate::sizes::spec_size_positive(size_str@)
                &&& spec_decimal_parts(size_str@) matches Some((intd, fracd)) && spec_gib_bytes(
                    intd,
                    fracd,
                ) <= u64::MAX && cmd@ == spec_fallocate_cmd(
                    spec_gib_bytes(intd, fracd),
                    filename@,
                )
            },
            None => !crate::sizes::spec_size_positive(size_str@) || (spec_decimal_parts(size_str@)
                matches Some((intd, fracd)) && spec_gib_bytes(intd, fracd) > u64::MAX),
        },
{
    if !size_input_positive(size_str) {
        return None;
    }
    match image_size_bytes(size_str) {
        None => None,
        Some(bytes) => {
            let mut r = String::new();
            r.append("sudo fallocate -l ");
            let dec = u64_to_dec(bytes);
            r.append(dec.as_str());
            r.append(" ");
            r.append(filename);
            proof {
                assert(r@ =~= spec_fallocate_cmd(bytes as int, filename@));
            }
            Some(r)
        },
    }
}

/// The formatting commands: Btrfs builds its root directory around the
/// call, ext4 is one command.
pub open spec fn spec_format_cmds(btrfs: bool, filename: Seq<char>) -> Seq<Seq<char>> {
    if btrfs {
        seq![
            "sudo mkdir -p //btrfs_rootdir"@,
            "sudo mkfs.btrfs -L \"LIVE_SYSTEM\" --compress=zstd --rootdir=//btrfs_rootdir -f "@
                + filename,
            "sudo rmdir //btrfs_rootdir"@,
        ]
    } else {
        seq![
            "sudo mkfs.ext4 -F -O ^has_journal,^resize_inode -E lazy_itable_init=0 -m 0 -L \"SYSTEM_BACKUP\" "@
                + filename,
        ]
    }
}

/// Format the image file: Btrfs with compression label, or ext4 with the
/// journal and feature flags of a throwaway live root.
pub fn format_filesystem(fs_type: &str, filename: &str) -> (r: Vec<String>)
    ensures
        r.deep_view() == spec_format_cmds(fs_type@ == "btrfs"@, filename@),
{
    let mut r: Vec<String> = Vec::new();
    if str_eq(fs_type, "btrfs") {
        let mut c1 = String::new();
        c1.append("sudo mkdir -p //btrfs_rootdir");
        let mut c2 = String::new();
        c2.append("sudo mkfs.btrfs -L \"LIVE_SYSTEM\" --compress=zstd --rootdir=//btrfs_rootdir -f ");
        c2.append(filename);
        let mut c3 = String::new();
        c3.append("sudo rmdir //btrfs_rootdir");
        r.push(c1);
        r.push(c2);
        r.push(c3);
        proof {
            assert(r.deep_view() =~~= spec_format_cmds(true, filename@));
        }
    } else {
        let mut c1 = String::new();
        c1.append(
            "sudo mkfs.ext4 -F -O ^has_journal,^resize_inode -E lazy_itable_init=0 -m 0 -L \"SYSTEM_BACKUP\" ",
        );
        c1.append(filename);
        r.push(c1);
        proof {
            assert(r.deep_view() =~~= spec_format_cmds(false, filename@));
        }
    }
    r
}

/// The mount commands: create the mount point, then mount with
/// filesystem-appropriate options.
pub open spec fn spec_mount_cmds(btrfs: bool, filename: Seq<char>, mount_point: Seq<char>) -> Seq<
    Seq<char>,
> {
    seq![
        "sudo mkdir -p "@ + mount_point,
        if btrfs {
            "sudo mount -o compress=zstd,compress-force=zstd:22 "@ + filename + " "@ + mount_point
        } else {
            "sudo mount -o loop,discard,noatime,data=writeback,commit=60,barrier=0,nobh,errors=remount-ro "@
                + filename + " "@ + mount_point
        },
    ]
}

/// Mount the formatted image at the fixed mount point with performance
/// options suited to its filesystem.
pub fn mount_filesystem(fs_type: &str, filename: &str, mount_point: &str) -> (r: Vec<String>)
    ensures
        r.deep_view() == spec_mount_cmds(fs_type@ == "btrfs"@, filename@, mount_point@),
{
    let mut r: Vec<String> = Vec::new();
    let mut c1 = String::new();
    c1.append("sudo mkdir -p ");
    c1.append(mount_point);
    r.push(c1);
    let mut c2 = String::new();
    if str_eq(fs_type, "btrfs") {
        c2.append("sudo mount -o compress=zstd,compress-force=zstd:22 ");
    } else {
        c2.append(
            "sudo mount -o loop,discard,noatime,data=writeback,commit=60,barrier=0,nobh,errors=remount-ro ",
        );
    }
    c2.append(filename);
    c2.append(" ");
    c2.append(mount_point);
    r.push(c2);
    proof {
        assert(r.deep_view() =~~= spec_mount_cmds(fs_type@ == "btrfs"@, filename@, mount_point@));
    }
    r
}

/// The filtered recursive copy of the live system, and the post-pass:
/// defragment and grow for Btrfs, defragment and switch the journal mode
/// for ext4.  The copy excludes virtual and volatile paths and the
/// build's own artifacts.
pub open spec fn spec_copy_cmds(btrfs: bool, source: Seq<char>, destination: Seq<char>) -> Seq<
    Seq<char>,
> {
    seq![
        "sudo rsync -aHAXSr --numeric-ids --info=progress2 "@ + (if btrfs {
            "--compress"@
        } else {
            ""@
        }) + " "@ + (if btrfs {
            "--compress-level=22"@
        } else {
            ""@
        })
            + " --exclude=/etc/udev/rules.d/70-persistent-cd.rules --exclude=/etc/udev/rules.d/70-persistent-net.rules --exclude=/etc/mtab --exclude=/etc/fstab --exclude=/dev/* --exclude=/proc/* --exclude=/sys/* --exclude=/tmp/* --exclude=/run/* --exclude=/mnt/* --exclude=/media/* --exclude=/lost+found --exclude=*rootfs1.img --exclude=btrfs_temp --exclude=rootfs.img "@
            + source + " "@ + destination,
        if btrfs {
            "sudo btrfs filesystem defrag -r -v -c zstd "@ + destination
        } else {
            "sudo e4defrag "@ + destination
        },
        if btrfs {
            "sudo btrfs filesystem resize max "@ + destination
        } else {
            "sudo tune2fs -o journal_data_writeback "@ + destination.take(
                crate::strutil::spec_scan_to(destination, ' '),
            )
        },
    ]
}

/// Populate the mounted image by a filtered copy of the live system,
/// then run the filesystem's post-pass.
pub fn copy_files_with_rsync(source: &str, destination: &str, fs_type: &str) -> (r: Vec<String>)
    ensures
        r.deep_view() == spec_copy_cmds(fs_type@ == "btrfs"@, source@, destination@),
{
    let btrfs = str_eq(fs_type, "btrfs");
    let mut r: Vec<String> = Vec::new();
    let mut c1 = String::new();
    c1.append("sudo rsync -aHAXSr --numeric-ids --info=progress2 ");
    c1.append(if btrfs {
        "--compress"
    } else {
        ""
    });
    c1.append(" ");
    c1.append(if btrfs {
        "--compress-level=22"
    } else {
        ""
    });
    c1.append(
        " --exclude=/etc/udev/rules.d/70-persistent-cd.rules --exclude=/etc/udev/rules.d/70-persistent-net.rules --exclude=/etc/mtab --exclude=/etc/fstab --exclude=/dev/* --exclude=/proc/* --exclude=/sys/* --exclude=/tmp/* --exclude=/run/* --exclude=/mnt/* --exclude=/media/* --exclude=/lost+found --exclude=*rootfs1.img --exclude=btrfs_temp --exclude=rootfs.img ",
    );
    c1.append(source);
    c1.append(" ");
    c1.append(destination);
    r.push(c1);
    let mut c2 = String::new();
    if btrfs {
        c2.append("sudo btrfs filesystem defrag -r -v -c zstd ");
        c2.append(destination);
    } else {
        c2.append("sudo e4defrag ");
        c2.append(destination);
    }
    r.push(c2);
    let mut c3 = String::new();
    if btrfs {
        c3.append("sudo btrfs filesystem resize max ");
        c3.append(destination);
    } else {
        // the device handed to tune2fs is the destination's first
        // space-separated token, as the copy stage has always passed it
        let dlen = destination.unicode_len();
        let cut = match find_char_from(destination, 0, ' ') {
            Some(p) => p,
            None => dlen,
        };
        proof {
            crate::strutil::lemma_scan_to_determined(destination@, ' ', cut as int);
        }
        let head = destination.substring_char(0, cut);
        c3.append("sudo tune2fs -o journal_data_writeback ");
        c3.append(head);
    }
    r.push(c3);
    proof {
        assert(r.deep_view() =~~= spec_copy_cmds(fs_type@ == "btrfs"@, source@, destination@));
    }
    r
}

/// Sync, unmount, and remove the mount point.
pub open spec fn spec_unmount_cmds(mount_point: Seq<char>) -> Seq<Seq<char>> {
    seq!["sync"@, "sudo umount "@ + mount_point, "sudo rmdir "@ + mount_point]
}

/// Flush, unmount and remove the mount point after the copy.
pub fn unmount_and_cleanup(mount_point: &str) -> (r: Vec<String>)
    ensures
        r.deep_view() == spec_unmount_cmds(mount_point@),
{
    let mut r: Vec<String> = Vec::new();
    let mut c1 = String::new();
    c1.append("sync");
    r.push(c1);
    let mut c2 = String::new();
    c2.append("sudo umount ");
    c2.append(mount_point);
    r.push(c2);
    let mut c3 = String::new();
    c3.append("sudo rmdir ");
    c3.append(mount_point);
    r.push(c3);
    proof {
        assert(r.deep_view() =~~= spec_unmount_cmds(mount_point@));
    }
    r
}

/// The compression pass that wraps a raw ext4 image into a SquashFS
/// image: 256 KiB blocks, x86 byte-compare-jump filter.
pub open spec fn spec_squashfs_cmd(input: Seq<char>, output: Seq<char>) -> Seq<char> {
    "sudo mksquashfs "@ + input + " "@ + output
        + " -comp zstd -Xcompression-level 22 -noappend -b 256K -Xbcj x86"@
}

/// Wrap the raw image into a compressed SquashFS image.
pub fn create_squashfs(input_file: &str, output_file: &str) -> (r: String)
    ensures
        r@ == spec_squashfs_cmd(input_file@, output_file@),
{
    let mut r = String::new();
    r.append("sudo mksquashfs ");
    r.append(input_file);
    r.append(" ");
    r.append(output_file);
    r.append(" -comp zstd -Xcompression-level 22 -noappend -b 256K -Xbcj x86");
    proof {
        assert(r@ =~= spec_squashfs_cmd(input_file@, output_file@));
    }
    r
}

/// The checksum stage: a hash file next to the image, named by suffix.
pub open spec fn spec_checksum_cmd(filename: Seq<char>) -> Seq<char> {
    "md5sum "@ + filename + " > "@ + filename + ".md5"@
}

/// Compute and persist the content hash of the produced image.
pub fn create_checksum(filename: &str) -> (r: String)
    ensures
        r@ == spec_checksum_cmd(filename@),
{
    let mut r = String::new();
    r.append("md5sum ");
    r.append(filename);
    r.append(" > ");
    r.append(filename);
    r.append(".md5");
    proof {
        assert(r@ =~= spec_checksum_cmd(filename@));
    }
    r
}

/// Initramfs generation against the build tree.  Needs a selected kernel
/// image and a build directory.
pub open spec fn spec_mkinitcpio_cmd(build_dir: Seq<char>) -> Seq<char> {
    "cd "@ + build_dir + " && sudo mkinitcpio -c mkinitcpio.conf -g "@ + build_dir
        + "/boot/initramfs-x86_64.img"@
}

/// Generate the initramfs in the build tree; refused until a kernel
/// image was selected and the build directory is known.
pub fn generate_mkinitcpio(config: &ConfigState, build_dir: &str) -> (r: Option<String>)
    ensures
        match r {
            Some(cmd) => config@.vmlinuz_path.len() > 0 && build_dir@.len() > 0 && cmd@
                == spec_mkinitcpio_cmd(build_dir@),
            None => config@.vmlinuz_path.len() == 0 || build_dir@.len() == 0,
        },
{
    if config.vmlinuz_path.as_str().is_empty() {
        return None;
    }
    if build_dir.is_empty() {
        return None;
    }
    let mut r = String::new();
    r.append("cd ");
    r.append(build_dir);
    r.append(" && sudo mkinitcpio -c mkinitcpio.conf -g ");
    r.append(build_dir);
    r.append("/boot/initramfs-x86_64.img");
    proof {
        assert(r@ =~= spec_mkinitcpio_cmd(build_dir@));
    }
    Some(r)
}

/// Opening the bootloader configuration for a manual edit.
pub open spec fn spec_edit_grub_cmd(build_dir: Seq<char>) -> Seq<char> {
    "sudo env TERM=xterm-256color nano -Y cyanish "@ + build_dir + "/boot/grub/grub.cfg"@
}

/// Open the build tree's bootloader configuration in the editor;
/// refused while the build directory is unknown.
pub fn edit_grub_cfg(build_dir: &str) -> (r: Option<String>)
    ensures
        match r {
            Some(cmd) => build_dir@.len() > 0 && cmd@ == spec_edit_grub_cmd(build_dir@),
            None => build_dir@.len() == 0,
        },
{
    if build_dir.is_empty() {
        return None;
    }
    let mut r = String::new();
    r.append("sudo env TERM=xterm-256color nano -Y cyanish ");
    r.append(build_dir);
    r.append("/boot/grub/grub.cfg");
    proof {
        assert(r@ =~= spec_edit_grub_cmd(build_dir@));
    }
    Some(r)
}

/// The kernel images among a boot-directory listing, as full paths:
/// every name that starts with `vmlinuz`, in order.
pub open spec fn spec_filter_vmlinuz(names: Seq<Seq<char>>) -> Seq<Seq<char>>
    decreases names.len(),
{
    if names.len() == 0 {
        Seq::empty()
    } else {
        spec_filter_vmlinuz(names.drop_last()) + (if crate::strutil::is_prefix(
            "vmlinuz"@,
            names.last(),
        ) {
            seq!["/boot/"@ + names.last()]
        } else {
            Seq::empty()
        })
    }
}

/// Pick the kernel images out of a boot-directory listing.
pub fn filter_vmlinuz(names: &Vec<String>) -> (r: Vec<String>)
    ensures
        r.deep_view() == spec_filter_vmlinuz(names.deep_view()),
{
    let mut r: Vec<String> = Vec::new();
    let mut i: usize = 0;
    proof {
        assert(names.deep_view().take(0) =~= Seq::<Seq<char>>::empty());
        assert(r.deep_view() =~~= spec_filter_vmlinuz(names.deep_view().take(0)));
    }
    while i < names.len()
        invariant
            i <= names.len(),
            r.deep_view() == spec_filter_vmlinuz(names.deep_view().take(i as int)),
        decreases names.len() - i,
    {
        proof {
            assert(names.deep_view().take(i + 1).drop_last() =~= names.deep_view().take(i as int));
            assert(names.deep_view().take(i + 1).last() == names.deep_view()[i as int]);
        }
        let name = &names[i];
        if crate::strutil::has_prefix(name.as_str(), "vmlinuz") {
            let mut p = String::new();
            p.append("/boot/");
            p.append(name.as_str());
            r.push(p);
            proof {
                assert(r.deep_view() =~~= spec_filter_vmlinuz(names.deep_view().take(i + 1)));
            }
        } else {
            proof {
                assert(r.deep_view() =~~= spec_filter_vmlinuz(names.deep_view().take(i + 1)));
            }
        }
        i += 1;
    }
    proof {
        assert(names.deep_view().take(names.deep_view().len() as int) =~= names.deep_view());
    }
    r
}

/// Record the operator's kernel choice — a one-based index into the
/// found images — and yield the command that copies the image into the
/// build tree under its fixed name.  An entry that is not a number in
/// range changes nothing.
pub fn select_vmlinuz(
    config: &mut ConfigState,
    files: &Vec<String>,
    selection: &str,
    build_dir: &str,
) -> (r: Option<String>)
    ensures
        r is Some <==> (crate::sizes::spec_index_valid(selection@) && 1 <= crate::sizes::digits_val(
            selection@,
        ) <= files@.len()),
        r is Some ==> final(config)@ == (ConfigModel {
            vmlinuz_path: files@[crate::sizes::digits_val(selection@) - 1]@,
            ..old(config)@
        }),
        r is Some ==> r->0@ == "sudo cp "@ + files@[crate::sizes::digits_val(selection@) - 1]@
            + " "@ + build_dir@ + "/boot/vmlinuz-x86_64"@,
        r is None ==> final(config)@ == old(config)@,
{
    let choice = match crate::sizes::parse_index(selection) {
        None => {
            return None;
        },
        Some(v) => v,
    };
    if choice == 0 || choice > files.len() as u64 {
        return None;
    }
    let idx = (choice - 1) as usize;
    let path = files[idx].clone();
    let mut cmd = String::new();
    cmd.append("sudo cp ");
    cmd.append(path.as_str());
    cmd.append(" ");
    cmd.append(build_dir);
    cmd.append("/boot/vmlinuz-x86_64");
    config.set_vmlinuz_path(path);
    Some(cmd)
}

/// The hybrid BIOS/EFI ISO assembly command: two-partition layout, MBR
/// boot image from the build tree, appended EFI partition, volume id
/// from the configured tag.
pub open spec fn spec_xorriso_cmd(
    tag: Seq<char>,
    build_dir: Seq<char>,
    out_dir: Seq<char>,
    iso_name: Seq<char>,
) -> Seq<char> {
    "sudo xorriso -as mkisofs --modification-date=\"$(date +%Y%m%d%H%M%S00)\" --protective-msdos-label -volid \""@
        + tag
        + "\" -appid \"claudemods Linux Live/Rescue CD\" -publisher \"claudemods claudemods101@gmail.com >\" -preparer \"Prepared by user\" -r -graft-points -no-pad --sort-weight 0 / --sort-weight 1 /boot --grub2-mbr "@
        + build_dir
        + "/boot/grub/i386-pc/boot_hybrid.img -partition_offset 16 -b boot/grub/i386-pc/eltorito.img -c boot.catalog -no-emul-boot -boot-load-size 4 -boot-info-table --grub2-boot-info -eltorito-alt-boot -append_partition 2 0xef "@
        + build_dir + "/boot/efi.img -e --interval:appended_partition_2:all:: -no-emul-boot -iso-level 3 -o \""@
        + out_dir + "/"@ + iso_name + "\" "@ + build_dir
}

/// The ISO assembly stage, fully decided: the directory to create, the
/// assembly command, and where the ISO will land.
pub struct IsoPlan {
    pub mkdir_cmd: String,
    pub xorriso_cmd: String,
    pub iso_path: String,
}

/// Assemble the ISO from the build tree.  Refused — with no command
/// built — unless the readiness gate holds; the output lands at the
/// expanded output directory joined with the configured name.
pub fn create_iso(config: &ConfigState, username: &str) -> (r: Result<IsoPlan, String>)
    ensures
        r is Ok <==> config@.ready_for_iso(),
        r is Err ==> r->Err_0@ == "Cannot create ISO - setup is incomplete!"@,
        r is Ok ==> r->Ok_0.mkdir_cmd@ == "mkdir -p "@ + spec_expand_path(
            config@.output_dir,
            username@,
        ),
        r is Ok ==> r->Ok_0.iso_path@ == spec_expand_path(config@.output_dir, username@) + "/"@
            + config@.iso_name,
        r is Ok ==> r->Ok_0.xorriso_cmd@ == spec_xorriso_cmd(
            config@.iso_tag,
            spec_build_dir(username@),
            spec_expand_path(config@.output_dir, username@),
            config@.iso_name,
        ),
{
    if !config.is_ready_for_iso() {
        let mut e = String::new();
        e.append("Cannot create ISO - setup is incomplete!");
        proof {
            assert(e@ =~= "Cannot create ISO - setup is incomplete!"@);
        }
        return Err(e);
    }
    let expanded = expand_path(config.output_dir.as_str(), username);
    let build_dir = build_dir_path(username);
    let mut mkdir_cmd = String::new();
    mkdir_cmd.append("mkdir -p ");
    mkdir_cmd.append(expanded.as_str());
    let mut iso_path = String::new();
    iso_path.append(expanded.as_str());
    iso_path.append("/");
    iso_path.append(config.iso_name.as_str());
    let mut x = String::new();
    x.append(
        "sudo xorriso -as mkisofs --modification-date=\"$(date +%Y%m%d%H%M%S00)\" --protective-msdos-label -volid \"",
    );
    x.append(config.iso_tag.as_str());
    x.append(
        "\" -appid \"claudemods Linux Live/Rescue CD\" -publisher \"claudemods claudemods101@gmail.com >\" -preparer \"Prepared by user\" -r -graft-points -no-pad --sort-weight 0 / --sort-weight 1 /boot --grub2-mbr ",
    );
    x.append(build_dir.as_str());
    x.append(
        "/boot/grub/i386-pc/boot_hybrid.img -partition_offset 16 -b boot/grub/i386-pc/eltorito.img -c boot.catalog -no-emul-boot -boot-load-size 4 -boot-info-table --grub2-boot-info -eltorito-alt-boot -append_partition 2 0xef ",
    );
    x.append(build_dir.as_str());
    x.append("/boot/efi.img -e --interval:appended_partition_2:all:: -no-emul-boot -iso-level 3 -o \"");
    x.append(expanded.as_str());
    x.append("/");
    x.append(config.iso_name.as_str());
    x.append("\" ");
    x.append(build_dir.as_str());
    proof {
        assert(x@ =~= spec_xorriso_cmd(
            config@.iso_tag,
            spec_build_dir(username@),
            spec_expand_path(config@.output_dir, username@),
            config@.iso_name,
        ));
    }
    Ok(IsoPlan { mkdir_cmd, xorriso_cmd: x, iso_path })
}

/// The clean-up commands run before a new image build: drop a stale
/// mount, remove the old image, recreate the mount point and the output
/// directory.
pub open spec fn spec_image_pre_cmds(out_dir: Seq<char>, raw_image: Seq<char>) -> Seq<Seq<char>> {
    seq![
        "sudo umount /mnt/btrfs_temp 2>/dev/null || true"@,
        "sudo rm -rf "@ + raw_image,
        "sudo mkdir -p /mnt/btrfs_temp"@,
        "sudo mkdir -p "@ + out_dir,
    ]
}

/// The whole image-build stage, fully decided: the commands in order and
/// the artifacts they produce.
pub struct ImagePlan {
    /// Every command of the stage, in execution order.
    pub commands: Vec<String>,
    /// The raw filesystem image.
    pub raw_image: String,
    /// The compressed second artifact; only an ext4 build produces one.
    pub squashfs_image: Option<String>,
}

/// All commands of one image build, in order: clean-up, allocation,
/// format, mount, filtered copy with post-pass, unmount, the compression
/// pass for ext4, and the checksum.
pub open spec fn spec_image_cmds(
    size: Seq<char>,
    fs_type: Seq<char>,
    out_dir: Seq<char>,
    raw_image: Seq<char>,
    bytes: int,
) -> Seq<Seq<char>> {
    spec_image_pre_cmds(out_dir, raw_image) + seq![spec_fallocate_cmd(bytes, raw_image)]
        + spec_format_cmds(fs_type == "btrfs"@, raw_image) + spec_mount_cmds(
        fs_type == "btrfs"@,
        raw_image,
        "/mnt/btrfs_temp"@,
    ) + spec_copy_cmds(fs_type == "btrfs"@, "/"@, "/mnt/btrfs_temp"@) + spec_unmount_cmds(
        "/mnt/btrfs_temp"@,
    ) + (if fs_type == "ext4"@ {
        seq![spec_squashfs_cmd(raw_image, out_dir + "/rootfs.sfs"@)]
    } else {
        Seq::empty()
    }) + seq![spec_checksum_cmd(raw_image)]
}

/// Decide one whole image build from the validated size entry and the
/// chosen filesystem.  Yields no plan when the entry is not a positive
/// decimal number or its byte count does not fit 64 bits.  An ext4 build
/// adds the compression pass, so it produces a second artifact beside
/// the raw image; a Btrfs build compresses in place and produces only
/// the raw image.
pub fn build_image_plan(size_input: &str, fs_type: &str, username: &str) -> (r: Option<ImagePlan>)
    ensures
        r is Some <==> (crate::sizes::spec_size_positive(size_input@) && (spec_decimal_parts(
            size_input@,
        ) matches Some((intd, fracd)) && spec_gib_bytes(intd, fracd) <= u64::MAX)),
        r is Some ==> {
            let out_dir = spec_output_directory(username@);
            let raw = out_dir + "/rootfs.img"@;
            let plan = r->Some_0;
            &&& plan.raw_image@ == raw
            &&& (fs_type@ == "ext4"@ ==> (plan.squashfs_image matches Some(s) && s@ == out_dir
                + "/rootfs.sfs"@))
            &&& (fs_type@ != "ext4"@ ==> plan.squashfs_image is None)
            &&& (spec_decimal_parts(size_input@) matches Some((intd, fracd))
                && plan.commands.deep_view() == spec_image_cmds(
                size_input@,
                fs_type@,
                out_dir,
                raw,
                spec_gib_bytes(intd, fracd),
            ))
        },
{
    let out_dir = get_output_directory(username);
    let mut raw = String::new();
    raw.append(out_dir.as_str());
    raw.append("/rootfs.img");
    let fallocate = match create_image_file(size_input, raw.as_str()) {
        None => {
            return None;
        },
        Some(c) => c,
    };
    let mut commands: Vec<String> = Vec::new();
    let mut c1 = String::new();
    c1.append("sudo umount /mnt/btrfs_temp 2>/dev/null || true");
    commands.push(c1);
    let mut c2 = String::new();
    c2.append("sudo rm -rf ");
    c2.append(raw.as_str());
    commands.push(c2);
    let mut c3 = String::new();
    c3.append("sudo mkdir -p /mnt/btrfs_temp");
    commands.push(c3);
    let mut c4 = String::new();
    c4.append("sudo mkdir -p ");
    c4.append(out_dir.as_str());
    commands.push(c4);
    commands.push(fallocate);
    let mut fmt = format_filesystem(fs_type, raw.as_str());
    commands.append(&mut fmt);
    let mut mnt = mount_filesystem(fs_type, raw.as_str(), "/mnt/btrfs_temp");
    commands.append(&mut mnt);
    let mut cpy = copy_files_with_rsync("/", "/mnt/btrfs_temp", fs_type);
    commands.append(&mut cpy);
    let mut unm = unmount_and_cleanup("/mnt/btrfs_temp");
    commands.append(&mut unm);
    let squashfs_image: Option<String> = if str_eq(fs_type, "ext4") {
        let mut sq = String::new();
        sq.append(out_dir.as_str());
        sq.append("/rootfs.sfs");
        commands.push(create_squashfs(raw.as_str(), sq.as_str()));
        Some(sq)
    } else {
        None
    };
    commands.push(create_checksum(raw.as_str()));
    proof {
        let ghost_out = spec_output_directory(username@);
        let ghost_raw = ghost_out + "/rootfs.img"@;
        let (intd, fracd) = spec_decimal_parts(size_input@)->Some_0;
        assert(commands.deep_view() =~~= spec_image_cmds(
            size_input@,
            fs_type@,
            ghost_out,
            ghost_raw,
            spec_gib_bytes(intd, fracd),
        ));
    }
    Some(ImagePlan { commands, raw_image: raw, squashfs_image })
}

/// The self-update command: fetch and run the published patch script.
pub open spec fn spec_update_script_cmd() -> Seq<char> {
    "bash -c \"$(curl -fsSL https://raw.githubusercontent.com/claudemods/claudemods-multi-iso-konsole-script/main/advancedimgscript/installer/patch.sh)\""@
}

/// Update the tool from its published patch script.
pub fn update_script_command() -> (r: String)
    ensures
        r@ == spec_update_script_cmd(),
{
    let mut c = String::new();
    c.append(
        "bash -c \"$(curl -fsSL https://raw.githubusercontent.com/claudemods/claudemods-multi-iso-konsole-script/main/advancedimgscript/installer/patch.sh)\"",
    );
    proof {
        assert(c@ =~= spec_update_script_cmd());
    }
    c
}

/// Record the output directory from the operator's entry: `$USER`
/// expanded, the per-user download directory when the entry is empty;
/// the directory is then created if missing.
pub open spec fn spec_chosen_output_dir(input: Seq<char>, username: Seq<char>) -> Seq<char> {
    if input.len() == 0 {
        "/home/"@ + username + "/Downloads"@
    } else {
        spec_replace(input, "$USER"@, username)
    }
}

/// Store the output directory and yield the command that creates it.
pub fn set_output_dir(config: &mut ConfigState, input: &str, username: &str) -> (r: String)
    ensures
        final(config)@ == (ConfigModel {
            output_dir: spec_chosen_output_dir(input@, username@),
            ..old(config)@
        }),
        r@ == "mkdir -p "@ + spec_chosen_output_dir(input@, username@),
{
    let dir: String = if input.is_empty() {
        let mut d = String::new();
        d.append("/home/");
        d.append(username);
        d.append("/Downloads");
        proof {
            assert(d@ =~= "/home/"@ + username@ + "/Downloads"@);
        }
        d
    } else {
        replace_all(input, "$USER", username)
    };
    let mut r = String::new();
    r.append("mkdir -p ");
    r.append(dir.as_str());
    config.set_output_dir(dir);
    r
}

} // verus!
