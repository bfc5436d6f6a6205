//! The menu-driven SquashFS and ISO tool: fixed per-distribution build
//! trees under the user's configuration directory, addressed with a
//! literal `$USER` that the shell expands when the command runs.
//!
//! Each function decides one stage and yields its shell command lines;
//! the surrounding binary prompts, probes the disk, and runs them.

use crate::distro::Distro;
use crate::strutil::{ensure_trailing_slash, spec_with_trailing_slash};
use vstd::prelude::*;

verus! {

/// The two initramfs commands of the Arch tree.
pub open spec fn spec_initrd_arch_cmds() -> Seq<Seq<char>> {
    seq![
        "cd /home/$USER/.config/cmi"@,
        "sudo mkinitcpio -c live.conf -g /home/$USER/.config/cmi/build-image-arch/live/initramfs-linux.img"@,
    ]
}

/// Generate the initramfs for the Arch build tree.
pub fn generate_initrd_arch() -> (r: Vec<String>)
    ensures
        r.deep_view() == spec_initrd_arch_cmds(),
{
    let mut r: Vec<String> = Vec::new();
    let mut c1 = String::new();
    c1.append("cd /home/$USER/.config/cmi");
    r.push(c1);
    let mut c2 = String::new();
    c2.append(
        "sudo mkinitcpio -c live.conf -g /home/$USER/.config/cmi/build-image-arch/live/initramfs-linux.img",
    );
    r.push(c2);
    proof {
        assert(r.deep_view() =~~= spec_initrd_arch_cmds());
    }
    r
}

/// The two initramfs commands of the Ubuntu tree.
pub open spec fn spec_initrd_ubuntu_cmds() -> Seq<Seq<char>> {
    seq![
        "cd /home/$USER/.config/cmi"@,
        "sudo mkinitramfs -o \"/home/$USER/.config/cmi/build-image-noble/live/initrd.img-$(uname -r)\" \"$(uname -r)\""@,
    ]
}

/// Generate the initramfs for the Ubuntu build tree.
pub fn generate_initrd_ubuntu() -> (r: Vec<String>)
    ensures
        r.deep_view() == spec_initrd_ubuntu_cmds(),
{
    let mut r: Vec<String> = Vec::new();
    let mut c1 = String::new();
    c1.append("cd /home/$USER/.config/cmi");
    r.push(c1);
    let mut c2 = String::new();
    c2.append(
        "sudo mkinitramfs -o \"/home/$USER/.config/cmi/build-image-noble/live/initrd.img-$(uname -r)\" \"$(uname -r)\"",
    );
    r.push(c2);
    proof {
        assert(r.deep_view() =~~= spec_initrd_ubuntu_cmds());
    }
    r
}

/// The two initramfs commands of the Debian tree.
pub open spec fn spec_initrd_debian_cmds() -> Seq<Seq<char>> {
    seq![
        "cd /home/$USER/.config/cmi"@,
        "sudo mkinitramfs -o \"/home/$USER/.config/cmi/build-image-debian/live/initrd.img-$(uname -r)\" \"$(uname -r)\""@,
    ]
}

/// Generate the initramfs for the Debian build tree.
pub fn generate_initrd_debian() -> (r: Vec<String>)
    ensures
        r.deep_view() == spec_initrd_debian_cmds(),
{
    let mut r: Vec<String> = Vec::new();
    let mut c1 = String::new();
    c1.append("cd /home/$USER/.config/cmi");
    r.push(c1);
    let mut c2 = String::new();
    c2.append(
        "sudo mkinitramfs -o \"/home/$USER/.config/cmi/build-image-debian/live/initrd.img-$(uname -r)\" \"$(uname -r)\"",
    );
    r.push(c2);
    proof {
        assert(r.deep_view() =~~= spec_initrd_debian_cmds());
    }
    r
}

/// Open the Arch tree's bootloader configuration in the editor.
pub fn edit_grub_cfg_arch() -> (r: String)
    ensures
        r@ == "nano /home/$USER/.config/cmi/build-image-arch/boot/grub/grub.cfg"@,
{
    let mut c = String::new();
    c.append("nano /home/$USER/.config/cmi/build-image-arch/boot/grub/grub.cfg");
    proof {
        assert(c@ =~= "nano /home/$USER/.config/cmi/build-image-arch/boot/grub/grub.cfg"@);
    }
    c
}

/// Open the Arch tree's isolinux configuration in the editor.
pub fn edit_isolinux_cfg_arch() -> (r: String)
    ensures
        r@ == "nano /home/$USER/.config/cmi/build-image-arch/isolinux/isolinux.cfg"@,
{
    let mut c = String::new();
    c.append("nano /home/$USER/.config/cmi/build-image-arch/isolinux/isolinux.cfg");
    proof {
        assert(c@ =~= "nano /home/$USER/.config/cmi/build-image-arch/isolinux/isolinux.cfg"@);
    }
    c
}

/// Open the Ubuntu tree's bootloader configuration in the editor.
pub fn edit_grub_cfg_ubuntu() -> (r: String)
    ensures
        r@ == "nano /home/$USER/.config/cmi/build-image-noble/boot/grub/grub.cfg"@,
{
    let mut c = String::new();
    c.append("nano /home/$USER/.config/cmi/build-image-noble/boot/grub/grub.cfg");
    proof {
        assert(c@ =~= "nano /home/$USER/.config/cmi/build-image-noble/boot/grub/grub.cfg"@);
    }
    c
}

/// Open the Ubuntu tree's isolinux configuration in the editor.
pub fn edit_isolinux_cfg_ubuntu() -> (r: String)
    ensures
        r@ == "nano /home/$USER/.config/cmi/build-image-noble/isolinux/isolinux.cfg"@,
{
    let mut c = String::new();
    c.append("nano /home/$USER/.config/cmi/build-image-noble/isolinux/isolinux.cfg");
    proof {
        assert(c@ =~= "nano /home/$USER/.config/cmi/build-image-noble/isolinux/isolinux.cfg"@);
    }
    c
}

/// Open the Debian tree's bootloader configuration in the editor.
pub fn edit_grub_cfg_debian() -> (r: String)
    ensures
        r@ == "nano /home/$USER/.config/cmi/build-image-debian/boot/grub/grub.cfg"@,
{
    let mut c = String::new();
    c.append("nano /home/$USER/.config/cmi/build-image-debian/boot/grub/grub.cfg");
    proof {
        assert(c@ =~= "nano /home/$USER/.config/cmi/build-image-debian/boot/grub/grub.cfg"@);
    }
    c
}

/// Open the Debian tree's isolinux configuration in the editor.
pub fn edit_isolinux_cfg_debian() -> (r: String)
    ensures
        r@ == "nano /home/$USER/.config/cmi/build-image-debian/isolinux/isolinux.cfg"@,
{
    let mut c = String::new();
    c.append("nano /home/$USER/.config/cmi/build-image-debian/isolinux/isolinux.cfg");
    proof {
        assert(c@ =~= "nano /home/$USER/.config/cmi/build-image-debian/isolinux/isolinux.cfg"@);
    }
    c
}

/// The SquashFS artifact each family's build tree receives.
pub open spec fn spec_tool_squashfs_output(distro: Distro) -> Seq<char> {
    match distro {
        Distro::Ubuntu | Distro::Neon => "/home/$USER/.config/cmi/build-image-noble/live/filesystem.sfs"@,
        Distro::Debian => "/home/$USER/.config/cmi/build-image-debian/live/filesystem.sfs"@,
        _ => "/home/$USER/.config/cmi/build-image-arch/arch/x86_64/airootfs.sfs"@,
    }
}

/// The compression command from the clone directory into the build
/// tree's SquashFS artifact.
pub open spec fn spec_squashfs_image_cmd(distro: Distro, clone_dir: Seq<char>) -> Seq<char> {
    "sudo mksquashfs "@ + clone_dir + " "@ + spec_tool_squashfs_output(distro)
        + " -comp xz -Xbcj x86 -b 1M -no-duplicates -no-recovery -always-use-fragments -wildcards -xattrs"@
}

/// The missing-clone-directory report shown by every stage that needs one.
pub open spec fn spec_no_clone_dir_err() -> Seq<char> {
    "No clone directory specified. Please set it in Setup Script menu."@
}

fn no_clone_dir_err() -> (r: String)
    ensures
        r@ == spec_no_clone_dir_err(),
{
    let mut e = String::new();
    e.append("No clone directory specified. Please set it in Setup Script menu.");
    proof {
        assert(e@ =~= spec_no_clone_dir_err());
    }
    e
}

/// Compress the clone directory into the family's SquashFS artifact;
/// refused while no clone directory is stored.
pub fn create_squashfs_image(distro: Distro, clone_dir: Option<&str>) -> (r: Result<
    String,
    String,
>)
    ensures
        r is Ok <==> clone_dir is Some,
        r is Ok ==> r->Ok_0@ == spec_squashfs_image_cmd(distro, clone_dir->Some_0@),
        r is Err ==> r->Err_0@ == spec_no_clone_dir_err(),
{
    let dir = match clone_dir {
        None => {
            return Err(no_clone_dir_err());
        },
        Some(d) => d,
    };
    let mut c = String::new();
    c.append("sudo mksquashfs ");
    c.append(dir);
    c.append(" ");
    match distro {
        Distro::Ubuntu | Distro::Neon => {
            c.append("/home/$USER/.config/cmi/build-image-noble/live/filesystem.sfs");
        },
        Distro::Debian => {
            c.append("/home/$USER/.config/cmi/build-image-debian/live/filesystem.sfs");
        },
        _ => {
            c.append("/home/$USER/.config/cmi/build-image-arch/arch/x86_64/airootfs.sfs");
        },
    }
    c.append(
        " -comp xz -Xbcj x86 -b 1M -no-duplicates -no-recovery -always-use-fragments -wildcards -xattrs",
    );
    proof {
        assert(c@ =~= spec_squashfs_image_cmd(distro, dir@));
    }
    Ok(c)
}

/// Remove the clone directory, and the family's SquashFS artifact when
/// its marker file is present; refused while no clone directory is
/// stored.
pub fn delete_clone_system_temp(
    distro: Distro,
    clone_dir: Option<&str>,
    squashfs_marker_exists: bool,
) -> (r: Result<Vec<String>, String>)
    ensures
        r is Ok <==> clone_dir is Some,
        r is Err ==> r->Err_0@ == spec_no_clone_dir_err(),
        r is Ok ==> r->Ok_0.deep_view() == (if squashfs_marker_exists {
            seq![
                "sudo rm -rf "@ + clone_dir->Some_0@,
                "sudo rm -f "@ + spec_tool_squashfs_output(distro),
            ]
        } else {
            seq!["sudo rm -rf "@ + clone_dir->Some_0@]
        }),
{
    let dir = match clone_dir {
        None => {
            return Err(no_clone_dir_err());
        },
        Some(d) => d,
    };
    let mut cmds: Vec<String> = Vec::new();
    let mut rm = String::new();
    rm.append("sudo rm -rf ");
    rm.append(dir);
    cmds.push(rm);
    if squashfs_marker_exists {
        let mut rf = String::new();
        rf.append("sudo rm -f ");
        match distro {
            Distro::Ubuntu | Distro::Neon => {
                rf.append("/home/$USER/.config/cmi/build-image-noble/live/filesystem.sfs");
            },
            Distro::Debian => {
                rf.append("/home/$USER/.config/cmi/build-image-debian/live/filesystem.sfs");
            },
            _ => {
                rf.append("/home/$USER/.config/cmi/build-image-arch/arch/x86_64/airootfs.sfs");
            },
        }
        cmds.push(rf);
        proof {
            assert(cmds.deep_view() =~~= seq![
                "sudo rm -rf "@ + dir@,
                "sudo rm -f "@ + spec_tool_squashfs_output(distro),
            ]);
        }
    } else {
        proof {
            assert(cmds.deep_view() =~~= seq!["sudo rm -rf "@ + dir@]);
        }
    }
    Ok(cmds)
}

/// The filtered recursive copy of the running system into the clone
/// directory, which is excluded from its own copy.
pub open spec fn spec_tool_clone_cmd(clone_dir: Seq<char>) -> Seq<char> {
    "sudo rsync -aHAxSr --numeric-ids --info=progress2 --include=dev --include=usr --include=proc --include=tmp --include=sys --include=run --include=media --exclude=dev/* --exclude=proc/* --exclude=tmp/* --exclude=sys/* --exclude=run/* --exclude=media/* --exclude="@
        + clone_dir + " / "@ + clone_dir
}

/// Copy the running system into the clone directory; the directory is
/// created by the caller when missing.
pub fn clone_system(clone_dir: &str) -> (r: String)
    ensures
        r@ == spec_tool_clone_cmd(clone_dir@),
{
    let mut c = String::new();
    c.append(
        "sudo rsync -aHAxSr --numeric-ids --info=progress2 --include=dev --include=usr --include=proc --include=tmp --include=sys --include=run --include=media --exclude=dev/* --exclude=proc/* --exclude=tmp/* --exclude=sys/* --exclude=run/* --exclude=media/* --exclude=",
    );
    c.append(clone_dir);
    c.append(" / ");
    c.append(clone_dir);
    proof {
        assert(c@ =~= spec_tool_clone_cmd(clone_dir@));
    }
    c
}

/// Accept a clone-directory entry: a non-empty path, stored with its
/// trailing separator always present.
pub fn set_clone_directory(dir_path: &str) -> (r: Result<String, String>)
    ensures
        r is Ok <==> dir_path@.len() > 0,
        r is Ok ==> r->Ok_0@ == spec_with_trailing_slash(dir_path@),
        r is Err ==> r->Err_0@ == "Directory path cannot be empty"@,
{
    if dir_path.is_empty() {
        let mut e = String::new();
        e.append("Directory path cannot be empty");
        proof {
            assert(e@ =~= "Directory path cannot be empty"@);
        }
        return Err(e);
    }
    Ok(ensure_trailing_slash(dir_path))
}

/// The commands that fetch and stage the one-time updater.
pub open spec fn spec_updater_cmds() -> Seq<Seq<char>> {
    seq![
        "cd /home/$USER"@,
        "git clone https://github.com/claudemods/claudemods-multi-iso-konsole-script.git >/dev/null 2>&1"@,
        "mkdir -p /home/$USER/.config/cmi >/dev/null 2>&1"@,
        "cp /home/$USER/claudemods-multi-iso-konsole-script/advancedcscript/updatermain/advancedcscriptupdater /home/$USER/.config/cmi >/dev/null 2>&1"@,
        "cp /home/$USER/claudemods-multi-iso-konsole-script/advancedcscript/installer/patch.sh /home/$USER/.config/cmi >/dev/null 2>&1"@,
        "chmod +x /home/$USER/.config/cmi/patch.sh >/dev/null 2>&1"@,
        "chmod +x /home/$USER/.config/cmi/advancedcscriptupdater >/dev/null 2>&1"@,
        "rm -rf /home/$USER/claudemods-multi-iso-konsole-script >/dev/null 2>&1"@,
    ]
}

/// Fetch the updater and stage it in the configuration directory.
pub fn install_one_time_updater() -> (r: Vec<String>)
    ensures
        r.deep_view() == spec_updater_cmds(),
{
    let mut r: Vec<String> = Vec::new();
    let mut c1 = String::new();
    c1.append("cd /home/$USER");
    r.push(c1);
    let mut c2 = String::new();
    c2.append(
        "git clone https://github.com/claudemods/claudemods-multi-iso-konsole-script.git >/dev/null 2>&1",
    );
    r.push(c2);
    let mut c3 = String::new();
    c3.append("mkdir -p /home/$USER/.config/cmi >/dev/null 2>&1");
    r.push(c3);
    let mut c4 = String::new();
    c4.append(
        "cp /home/$USER/claudemods-multi-iso-konsole-script/advancedcscript/updatermain/advancedcscriptupdater /home/$USER/.config/cmi >/dev/null 2>&1",
    );
    r.push(c4);
    let mut c5 = String::new();
    c5.append(
        "cp /home/$USER/claudemods-multi-iso-konsole-script/advancedcscript/installer/patch.sh /home/$USER/.config/cmi >/dev/null 2>&1",
    );
    r.push(c5);
    let mut c6 = String::new();
    c6.append("chmod +x /home/$USER/.config/cmi/patch.sh >/dev/null 2>&1");
    r.push(c6);
    let mut c7 = String::new();
    c7.append("chmod +x /home/$USER/.config/cmi/advancedcscriptupdater >/dev/null 2>&1");
    r.push(c7);
    let mut c8 = String::new();
    c8.append("rm -rf /home/$USER/claudemods-multi-iso-konsole-script >/dev/null 2>&1");
    r.push(c8);
    proof {
        assert(r.deep_view() =~~= spec_updater_cmds());
    }
    r
}

/// Run the produced ISO in the emulator.
pub fn run_iso_in_qemu() -> (r: String)
    ensures
        r@ == "ruby /opt/claudemods-iso-konsole-script/Supported-Distros/qemu.rb"@,
{
    let mut c = String::new();
    c.append("ruby /opt/claudemods-iso-konsole-script/Supported-Distros/qemu.rb");
    proof {
        assert(c@ =~= "ruby /opt/claudemods-iso-konsole-script/Supported-Distros/qemu.rb"@);
    }
    c
}

/// The build tree used for ISO assembly, under the invoking directory.
pub open spec fn spec_tool_build_image_dir(distro: Distro, current_dir: Seq<char>) -> Seq<char> {
    current_dir + "/"@ + distro.spec_build_tree()
}

/// The output directory actually used: the entry, or the invoking
/// directory when the entry is empty.
pub open spec fn spec_effective_output_dir(entry: Seq<char>) -> Seq<char> {
    if entry.len() == 0 {
        "."@
    } else {
        entry
    }
}

/// The assembly command for one stamped ISO file: the Debian family
/// boots through the isolinux files shipped by the system, the Arch
/// family through syslinux.
pub open spec fn spec_tool_iso_cmd(
    distro: Distro,
    iso_file: Seq<char>,
    build_image_dir: Seq<char>,
) -> Seq<char> {
    match distro {
        Distro::Ubuntu | Distro::Neon | Distro::Debian => "sudo xorriso -as mkisofs -o \""@
            + iso_file
            + "\" -V 2025 -iso-level 3 -isohybrid-mbr /usr/lib/ISOLINUX/isohdpfx.bin -c isolinux/boot.cat -b isolinux/isolinux.bin -no-emul-boot -boot-load-size 4 -boot-info-table -eltorito-alt-boot -e boot/grub/efi.img -no-emul-boot -isohybrid-gpt-basdat \""@
            + build_image_dir + "\""@,
        _ => "sudo xorriso -as mkisofs -o \""@ + iso_file
            + "\" -V 2025 -iso-level 3 -isohybrid-mbr /usr/lib/syslinux/bios/isohdpfx.bin -c isolinux/boot.cat -b isolinux/isolinux.bin -no-emul-boot -boot-load-size 4 -boot-info-table -eltorito-alt-boot -e boot/grub/efiboot.img -no-emul-boot -isohybrid-gpt-basdat \""@
            + build_image_dir + "\""@,
    }
}

/// The ISO file of one assembly, stamped with the given time.
pub open spec fn spec_tool_iso_file(
    output_dir: Seq<char>,
    iso_name: Seq<char>,
    timestamp: Seq<char>,
) -> Seq<char> {
    output_dir + "/"@ + iso_name + "_amd64_"@ + timestamp + ".iso"@
}

/// One decided ISO assembly: the build tree to make sure of, and the
/// assembly command.
pub struct IsoCreatePlan {
    pub build_image_dir: String,
    pub xorriso_cmd: String,
}

/// Decide one ISO assembly from the entered name and output directory.
/// Refused while the name is empty; an empty output directory entry
/// means the invoking directory.  Whatever the clock returned, the
/// command assembles one stamped file from the family's build tree.
pub fn create_iso_plan(distro: Distro, iso_name: &str, output_dir_entry: &str, current_dir: &str) -> (r:
    Result<IsoCreatePlan, String>)
    ensures
        r is Ok <==> iso_name@.len() > 0,
        r is Err ==> r->Err_0@ == "ISO name cannot be empty."@,
        r is Ok ==> r->Ok_0.build_image_dir@ == spec_tool_build_image_dir(distro, current_dir@),
        r is Ok ==> exists|ts: Seq<char>|
            r->Ok_0.xorriso_cmd@ == #[trigger] spec_tool_iso_cmd(
                distro,
                spec_tool_iso_file(spec_effective_output_dir(output_dir_entry@), iso_name@, ts),
                spec_tool_build_image_dir(distro, current_dir@),
            ),
{
    if iso_name.is_empty() {
        let mut e = String::new();
        e.append("ISO name cannot be empty.");
        proof {
            assert(e@ =~= "ISO name cannot be empty."@);
        }
        return Err(e);
    }
    let mut build_image_dir = String::new();
    build_image_dir.append(current_dir);
    build_image_dir.append("/");
    build_image_dir.append(distro.build_tree());
    let ts = crate::host::timestamp_now();
    let mut iso_file = String::new();
    if output_dir_entry.is_empty() {
        iso_file.append(".");
        proof {
            assert(iso_file@ =~= spec_effective_output_dir(output_dir_entry@));
        }
    } else {
        iso_file.append(output_dir_entry);
    }
    iso_file.append("/");
    iso_file.append(iso_name);
    iso_file.append("_amd64_");
    iso_file.append(ts.as_str());
    iso_file.append(".iso");
    let mut x = String::new();
    x.append("sudo xorriso -as mkisofs -o \"");
    x.append(iso_file.as_str());
    match distro {
        Distro::Ubuntu | Distro::Neon | Distro::Debian => {
            x.append(
                "\" -V 2025 -iso-level 3 -isohybrid-mbr /usr/lib/ISOLINUX/isohdpfx.bin -c isolinux/boot.cat -b isolinux/isolinux.bin -no-emul-boot -boot-load-size 4 -boot-info-table -eltorito-alt-boot -e boot/grub/efi.img -no-emul-boot -isohybrid-gpt-basdat \"",
            );
        },
        _ => {
            x.append(
                "\" -V 2025 -iso-level 3 -isohybrid-mbr /usr/lib/syslinux/bios/isohdpfx.bin -c isolinux/boot.cat -b isolinux/isolinux.bin -no-emul-boot -boot-load-size 4 -boot-info-table -eltorito-alt-boot -e boot/grub/efiboot.img -no-emul-boot -isohybrid-gpt-basdat \"",
            );
        },
    }
    x.append(build_image_dir.as_str());
    x.append("\"");
    proof {
        assert(iso_file@ =~= spec_tool_iso_file(
            spec_effective_output_dir(output_dir_entry@),
            iso_name@,
            ts@,
        ));
        assert(x@ =~= spec_tool_iso_cmd(
            distro,
            spec_tool_iso_file(spec_effective_output_dir(output_dir_entry@), iso_name@, ts@),
            spec_tool_build_image_dir(distro, current_dir@),
        ));
    }
    Ok(IsoCreatePlan { build_image_dir, xorriso_cmd: x })
}

} // verus!
