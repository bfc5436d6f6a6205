//! The multi-distribution command-line pipeline: clone the running
//! system, compress it into a SquashFS image, and assemble a bootable
//! ISO from a fixed per-distribution build tree.
//!
//! Every operation is decided here and carried out by the surrounding
//! binary: file reads are handed in as plain values, and each stage
//! yields the shell command lines to run, in order.

use crate::distro::Distro;
use crate::strutil::{
    ensure_trailing_slash, find_char_from, has_prefix, is_prefix, is_ws, lemma_scan_to_determined,
    replace_all, rfind_char, spec_replace, spec_rscan, spec_scan_to, spec_trim,
    spec_with_trailing_slash, trim_char, trim_ws,
};
use vstd::prelude::*;

verus! {

/// The per-user configuration directory of the tool.
pub open spec fn spec_config_base(username: Seq<char>) -> Seq<char> {
    "/home/"@ + username + "/.config/cmi"@
}

/// The per-distribution build tree under the configuration directory.
pub open spec fn spec_build_image_dir(distro: Distro, username: Seq<char>) -> Seq<char> {
    spec_config_base(username) + "/"@ + distro.spec_build_tree()
}

/// The first line of a text, or the whole of it when it has no line break.
pub open spec fn spec_first_line(s: Seq<char>) -> Seq<char> {
    s.take(spec_scan_to(s, '\n'))
}

pub struct CmiUtils;

impl CmiUtils {
    /// Expand `$USER` in a stored path.
    pub fn expand_path(path: &str, username: &str) -> (r: String)
        ensures
            r@ == spec_replace(path@, "$USER"@, username@),
    {
        replace_all(path, "$USER", username)
    }

    /// The per-user configuration directory of the tool.
    pub fn config_base(username: &str) -> (r: String)
        ensures
            r@ == spec_config_base(username@),
    {
        let mut r = String::new();
        r.append("/home/");
        r.append(username);
        r.append("/.config/cmi");
        proof {
            assert(r@ =~= spec_config_base(username@));
        }
        r
    }

    /// The build tree of the given distribution.
    pub fn build_image_dir(distro: Distro, username: &str) -> (r: String)
        ensures
            r@ == spec_build_image_dir(distro, username@),
    {
        let mut r = Self::config_base(username);
        r.append("/");
        r.append(distro.build_tree());
        r
    }

    /// The tool's version: the first line of its version file, or
    /// `unknown` when the file is missing or empty.
    pub fn get_cmi_version(content: Option<&str>) -> (r: String)
        ensures
            match content {
                None => r@ == "unknown"@,
                Some(s) => r@ == if s@.len() == 0 {
                    "unknown"@
                } else {
                    spec_first_line(s@)
                },
            },
    {
        match content {
            None => {
                let mut r = String::new();
                r.append("unknown");
                proof {
                    assert(r@ =~= "unknown"@);
                }
                r
            },
            Some(s) => {
                let slen = s.unicode_len();
                if slen == 0 {
                    let mut r = String::new();
                    r.append("unknown");
                    proof {
                        assert(r@ =~= "unknown"@);
                    }
                    return r;
                }
                let j = match find_char_from(s, 0, '\n') {
                    Some(j) => j,
                    None => slen,
                };
                proof {
                    lemma_scan_to_determined(s@, '\n', j as int);
                }
                s.substring_char(0, j).to_owned()
            },
        }
    }

    /// The kernel image name: the last path component of the first line
    /// of a boot-directory listing, or `unknown` for an empty listing.
    pub fn get_vmlinuz_version(listing: &str) -> (r: String)
        ensures
            r@ == if listing@.len() == 0 {
                "unknown"@
            } else {
                spec_first_line(listing@).skip(spec_rscan(spec_first_line(listing@), '/') + 1)
            },
    {
        let slen = listing.unicode_len();
        if slen == 0 {
            let mut r = String::new();
            r.append("unknown");
            proof {
                assert(r@ =~= "unknown"@);
            }
            return r;
        }
        let j = match find_char_from(listing, 0, '\n') {
            Some(j) => j,
            None => slen,
        };
        proof {
            lemma_scan_to_determined(listing@, '\n', j as int);
        }
        let line = listing.substring_char(0, j);
        let cut = match rfind_char(line, '/') {
            Some(p) => p + 1,
            None => 0,
        };
        let llen = line.unicode_len();
        line.substring_char(cut, llen).to_owned()
    }

    /// The host's release number: the `VERSION_ID=` value of the host
    /// identification file, its quotes removed; `unknown` if absent.
    pub fn get_distro_version(os_release: &str) -> (r: String)
        ensures
            r@ == spec_distro_version(os_release@),
    {
        let slen = os_release.unicode_len();
        let mut i: usize = 0;
        proof {
            assert(os_release@.skip(0) =~= os_release@);
        }
        while i < slen
            invariant
                i <= slen,
                slen == os_release@.len(),
                spec_distro_version(os_release@.skip(i as int)) == spec_distro_version(
                    os_release@,
                ),
            decreases slen - i,
        {
            let ghost tail = os_release@.skip(i as int);
            let j = match find_char_from(os_release, i, '\n') {
                Some(j) => j,
                None => slen,
            };
            let line = os_release.substring_char(i, j);
            proof {
                assert forall|k: int| 0 <= k < j - i implies tail[k] != '\n' by {
                    assert(tail[k] == os_release@[i + k]);
                }
                assert(j - i < tail.len() ==> tail[j - i] == '\n') by {
                    if j - i < tail.len() {
                        assert(tail[j - i] == os_release@[j as int]);
                    }
                }
                lemma_scan_to_determined(tail, '\n', j - i);
                assert(tail.take(j - i) =~= line@);
                if j < slen {
                    assert(tail.skip(j - i + 1) =~= os_release@.skip(j + 1));
                } else {
                    assert(os_release@.skip(j as int) =~= Seq::<char>::empty());
                }
            }
            if has_prefix(line, "VERSION_ID=") {
                proof {
                    reveal_strlit("VERSION_ID=");
                }
                let llen = line.unicode_len();
                let value = line.substring_char(11, llen);
                proof {
                    assert(value@ =~= line@.skip("VERSION_ID="@.len() as int));
                }
                return trim_char(value, '"');
            }
            i = if j < slen {
                j + 1
            } else {
                slen
            };
        }
        proof {
            assert(os_release@.skip(slen as int) =~= Seq::<char>::empty());
        }
        let mut r = String::new();
        r.append("unknown");
        proof {
            assert(r@ =~= "unknown"@);
        }
        r
    }

    /// Decide the distribution family from the host identification file.
    pub fn detect_distro(os_release: &str) -> (r: Distro)
        ensures
            r == crate::distro::spec_detect(os_release@),
    {
        crate::distro::detect_distro(os_release)
    }

    /// The stored clone directory: the marker file's text, surrounding
    /// whitespace removed, the trailing separator made present.  Absent
    /// file, no clone directory.
    pub fn read_clone_dir(content: Option<&str>) -> (r: Option<String>)
        ensures
            match content {
                None => r is None,
                Some(c) => r matches Some(d) && d@ == spec_with_trailing_slash(
                    spec_trim(c@, |x: char| is_ws(x)),
                ),
            },
    {
        match content {
            None => None,
            Some(c) => {
                let t = trim_ws(c);
                Some(ensure_trailing_slash(t.as_str()))
            },
        }
    }

    /// Whether the path names a directory on disk; the answer depends on
    /// the disk alone.
    pub fn dir_exists(path: &str) -> bool {
        crate::host::dir_exists(path)
    }

    /// The stored ISO name: the name file's text with surrounding
    /// whitespace removed, or nothing when the file is absent.
    pub fn get_iso_name(content: Option<&str>) -> (r: Option<String>)
        ensures
            match content {
                None => r is None,
                Some(c) => r matches Some(n) && n@ == spec_trim(c@, |x: char| is_ws(x)),
            },
    {
        match content {
            None => None,
            Some(c) => Some(trim_ws(c)),
        }
    }

    /// The initramfs image path of the distribution's build tree: the
    /// Debian family names the image after the running kernel, the Arch
    /// family uses a fixed name.
    pub fn init_image_path(distro: Distro, username: &str, kernel_version: &str) -> (r: String)
        ensures
            r@ == spec_init_image_path(distro, username@, kernel_version@),
    {
        let mut r = Self::build_image_dir(distro, username);
        match distro {
            Distro::Ubuntu | Distro::Neon | Distro::Debian => {
                r.append("/live/initrd.img-");
                r.append(kernel_version);
            },
            _ => {
                r.append("/live/initramfs-linux.img");
            },
        }
        r
    }

    /// Whether the distribution's initramfs image is on disk; the path
    /// is fixed by `init_image_path`, the answer depends on the disk.
    pub fn is_init_generated(distro: Distro, username: &str, kernel_version: &str) -> bool {
        let path = Self::init_image_path(distro, username, kernel_version);
        crate::host::path_exists(path.as_str())
    }
}

/// The error reported by every stage that needs a known distribution.
pub open spec fn spec_unknown_distro_err() -> Seq<char> {
    "Unknown distribution"@
}

fn unknown_distro_err() -> (r: String)
    ensures
        r@ == spec_unknown_distro_err(),
{
    let mut r = String::new();
    r.append("Unknown distribution");
    proof {
        assert(r@ =~= spec_unknown_distro_err());
    }
    r
}

/// The package-install command of each distribution family.
pub open spec fn spec_cmi_install_deps_cmd(distro: Distro) -> Seq<char> {
    match distro {
        Distro::Arch | Distro::Cachyos => "sudo pacman -S --needed --noconfirm arch-install-scripts bash-completion dosfstools erofs-utils findutils grub jq libarchive libisoburn lsb-release lvm2 mkinitcpio-archiso mkinitcpio-nfs-utils mtools nbd pacman-contrib parted procps-ng pv python rsync squashfs-tools sshfs syslinux xdg-utils bash-completion zsh-completions kernel-modules-hook virt-manager"@,
        Distro::Ubuntu | Distro::Neon => "sudo apt install -y cryptsetup dmeventd isolinux libaio-dev libcares2 libdevmapper-event1.02.1 liblvm2cmd2.03 live-boot live-boot-doc live-boot-initramfs-tools live-config-systemd live-tools lvm2 pxelinux syslinux syslinux-common thin-provisioning-tools squashfs-tools xorriso"@,
        Distro::Debian => "sudo apt install -y cryptsetup dmeventd isolinux libaio1 libc-ares2 libdevmapper-event1.02.1 liblvm2cmd2.03 live-boot live-boot-doc live-boot-initramfs-tools live-config-systemd live-tools lvm2 pxelinux syslinux syslinux-common thin-provisioning-tools squashfs-tools xorriso"@,
        Distro::Unknown => Seq::empty(),
    }
}

/// The two initramfs-stage commands: generate into the build tree, then
/// copy the kernel images beside it.
pub open spec fn spec_gen_initrd_cmds(distro: Distro, username: Seq<char>) -> Seq<Seq<char>> {
    let bd = spec_build_image_dir(distro, username);
    match distro {
        Distro::Arch | Distro::Cachyos => seq![
            "cd "@ + bd + " >/dev/null 2>&1 && sudo mkinitcpio -c live.conf -g "@ + bd
                + "/live/initramfs-linux.img"@,
            "sudo cp /boot/vmlinuz-linux* "@ + bd + "/live/ 2>/dev/null"@,
        ],
        Distro::Ubuntu | Distro::Neon | Distro::Debian => seq![
            "sudo mkinitramfs -o \""@ + bd + "/live/initrd.img-$(uname -r)\" \"$(uname -r)\""@,
            "sudo cp /boot/vmlinuz* "@ + bd + "/live/ 2>/dev/null"@,
        ],
        Distro::Unknown => Seq::empty(),
    }
}

/// The SquashFS artifact of each build tree.
pub open spec fn spec_squashfs_output(distro: Distro, username: Seq<char>) -> Seq<char> {
    match distro {
        Distro::Ubuntu | Distro::Neon | Distro::Debian => spec_build_image_dir(distro, username)
            + "/live/filesystem.sfs"@,
        _ => spec_build_image_dir(distro, username) + "/arch/x86_64/airootfs.sfs"@,
    }
}

/// The compression command from the staged clone into the build tree's
/// SquashFS artifact: xz, x86 filter, 1 MiB blocks.
pub open spec fn spec_cmi_squashfs_cmd(distro: Distro, clone_dir: Seq<char>, username: Seq<char>) -> Seq<char> {
    "sudo mksquashfs "@ + spec_with_trailing_slash(clone_dir) + "clone_system_temp "@
        + spec_squashfs_output(distro, username)
        + " -comp xz -Xbcj x86 -b 1M -no-duplicates -no-recovery -always-use-fragments -wildcards -xattrs"@
}

/// The staged full-system copy: create the marker directory when it is
/// missing, then the filtered recursive copy into it.
pub open spec fn spec_clone_cmds(clone_dir: Seq<char>, marker_exists: bool) -> Seq<Seq<char>> {
    let full = spec_with_trailing_slash(clone_dir) + "clone_system_temp"@;
    let rsync =
        "sudo rsync -aHAXSr --numeric-ids --info=progress2 --exclude=/etc/udev/rules.d/70-persistent-cd.rules --exclude=/etc/udev/rules.d/70-persistent-net.rules --exclude=/etc/mtab --exclude=/etc/fstab --exclude=/dev/* --exclude=/proc/* --exclude=/sys/* --exclude=/tmp/* --exclude=/run/* --exclude=/mnt/* --exclude=/media/* --exclude=/lost+found --exclude=clone_system_temp --include=dev --include=proc --include=tmp --include=sys --include=run --include=dev --include=proc --include=tmp --include=sys --include=usr --include=etc / "@
        + full;
    if marker_exists {
        seq![rsync]
    } else {
        seq!["mkdir -p "@ + full, rsync]
    }
}

impl CmiUtils {
    /// Install the package set the pipeline needs on this family;
    /// refused, with no command, on an unknown distribution.
    pub fn install_dependencies(distro: Distro) -> (r: Result<String, String>)
        ensures
            r is Ok <==> distro != Distro::Unknown,
            r is Ok ==> r->Ok_0@ == spec_cmi_install_deps_cmd(distro),
            r is Err ==> r->Err_0@ == spec_unknown_distro_err(),
    {
        let text: &str = match distro {
            Distro::Arch | Distro::Cachyos => "sudo pacman -S --needed --noconfirm arch-install-scripts bash-completion dosfstools erofs-utils findutils grub jq libarchive libisoburn lsb-release lvm2 mkinitcpio-archiso mkinitcpio-nfs-utils mtools nbd pacman-contrib parted procps-ng pv python rsync squashfs-tools sshfs syslinux xdg-utils bash-completion zsh-completions kernel-modules-hook virt-manager",
            Distro::Ubuntu | Distro::Neon => "sudo apt install -y cryptsetup dmeventd isolinux libaio-dev libcares2 libdevmapper-event1.02.1 liblvm2cmd2.03 live-boot live-boot-doc live-boot-initramfs-tools live-config-systemd live-tools lvm2 pxelinux syslinux syslinux-common thin-provisioning-tools squashfs-tools xorriso",
            Distro::Debian => "sudo apt install -y cryptsetup dmeventd isolinux libaio1 libc-ares2 libdevmapper-event1.02.1 liblvm2cmd2.03 live-boot live-boot-doc live-boot-initramfs-tools live-config-systemd live-tools lvm2 pxelinux syslinux syslinux-common thin-provisioning-tools squashfs-tools xorriso",
            Distro::Unknown => {
                return Err(unknown_distro_err());
            },
        };
        Ok(text.to_owned())
    }

    /// Generate the initramfs in the build tree and copy the kernel
    /// images beside it; refused on an unknown distribution.
    pub fn generate_initrd(distro: Distro, username: &str) -> (r: Result<Vec<String>, String>)
        ensures
            r is Ok <==> distro != Distro::Unknown,
            r is Ok ==> r->Ok_0.deep_view() == spec_gen_initrd_cmds(distro, username@),
            r is Err ==> r->Err_0@ == spec_unknown_distro_err(),
    {
        if matches!(distro, Distro::Unknown) {
            return Err(unknown_distro_err());
        }
        let bd = Self::build_image_dir(distro, username);
        let mut cmds: Vec<String> = Vec::new();
        match distro {
            Distro::Arch | Distro::Cachyos => {
                let mut c1 = String::new();
                c1.append("cd ");
                c1.append(bd.as_str());
                c1.append(" >/dev/null 2>&1 && sudo mkinitcpio -c live.conf -g ");
                c1.append(bd.as_str());
                c1.append("/live/initramfs-linux.img");
                cmds.push(c1);
                let mut c2 = String::new();
                c2.append("sudo cp /boot/vmlinuz-linux* ");
                c2.append(bd.as_str());
                c2.append("/live/ 2>/dev/null");
                cmds.push(c2);
            },
            _ => {
                let mut c1 = String::new();
                c1.append("sudo mkinitramfs -o \"");
                c1.append(bd.as_str());
                c1.append("/live/initrd.img-$(uname -r)\" \"$(uname -r)\"");
                cmds.push(c1);
                let mut c2 = String::new();
                c2.append("sudo cp /boot/vmlinuz* ");
                c2.append(bd.as_str());
                c2.append("/live/ 2>/dev/null");
                cmds.push(c2);
            },
        }
        proof {
            assert(cmds.deep_view() =~~= spec_gen_initrd_cmds(distro, username@));
        }
        Ok(cmds)
    }

    /// Open the build tree's isolinux configuration in the editor;
    /// refused on an unknown distribution.
    pub fn edit_isolinux_cfg(distro: Distro, username: &str) -> (r: Result<String, String>)
        ensures
            r is Ok <==> distro != Distro::Unknown,
            r is Ok ==> r->Ok_0@ == "nano "@ + spec_build_image_dir(distro, username@)
                + "/isolinux/isolinux.cfg"@,
            r is Err ==> r->Err_0@ == spec_unknown_distro_err(),
    {
        if matches!(distro, Distro::Unknown) {
            return Err(unknown_distro_err());
        }
        let bd = Self::build_image_dir(distro, username);
        let mut c = String::new();
        c.append("nano ");
        c.append(bd.as_str());
        c.append("/isolinux/isolinux.cfg");
        Ok(c)
    }

    /// Open the build tree's bootloader configuration in the editor;
    /// refused on an unknown distribution.
    pub fn edit_grub_cfg(distro: Distro, username: &str) -> (r: Result<String, String>)
        ensures
            r is Ok <==> distro != Distro::Unknown,
            r is Ok ==> r->Ok_0@ == "nano "@ + spec_build_image_dir(distro, username@)
                + "/boot/grub/grub.cfg"@,
            r is Err ==> r->Err_0@ == spec_unknown_distro_err(),
    {
        if matches!(distro, Distro::Unknown) {
            return Err(unknown_distro_err());
        }
        let bd = Self::build_image_dir(distro, username);
        let mut c = String::new();
        c.append("nano ");
        c.append(bd.as_str());
        c.append("/boot/grub/grub.cfg");
        Ok(c)
    }

    /// Install the graphical installer of the family; refused on an
    /// unknown distribution.
    pub fn install_calamares(distro: Distro, username: &str) -> (r: Result<String, String>)
        ensures
            r is Ok <==> distro != Distro::Unknown,
            r is Ok ==> r->Ok_0@ == spec_install_calamares_cmd(distro, username@),
            r is Err ==> r->Err_0@ == spec_unknown_distro_err(),
    {
        match distro {
            Distro::Arch => {
                let mut c = String::new();
                c.append("cd ");
                let base = Self::config_base(username);
                c.append(base.as_str());
                c.append("/calamares-per-distro/arch");
                c.append(
                    " >/dev/null 2>&1 && sudo pacman -U calamares-3.3.14-5-x86_64_REPACKED.pkg.tar.zst calamares-oem-kde-settings-20240616-3-any.pkg.tar calamares-tools-0.1.0-1-any.pkg.tar ckbcomp-1.227-2-any.pkg.tar.zst",
                );
                proof {
                    assert(c@ =~= spec_install_calamares_cmd(distro, username@));
                }
                Ok(c)
            },
            Distro::Cachyos => {
                let mut c = String::new();
                c.append(
                    "sudo pacman -U --noconfirm calamares-3.3.14-5-x86_64_REPACKED.pkg.tar.zst calamares-oem-kde-settings-20240616-3-any.pkg.tar calamares-tools-0.1.0-1-any.pkg.tar ckbcomp-1.227-2-any.pkg.tar.zst",
                );
                proof {
                    assert(c@ =~= spec_install_calamares_cmd(distro, username@));
                }
                Ok(c)
            },
            Distro::Ubuntu | Distro::Neon => {
                let mut c = String::new();
                c.append("sudo apt install -y calamares-settings-ubuntu-common calamares");
                proof {
                    assert(c@ =~= spec_install_calamares_cmd(distro, username@));
                }
                Ok(c)
            },
            Distro::Debian => {
                let mut c = String::new();
                c.append("sudo apt install -y calamares-settings-debian calamares");
                proof {
                    assert(c@ =~= spec_install_calamares_cmd(distro, username@));
                }
                Ok(c)
            },
            Distro::Unknown => Err(unknown_distro_err()),
        }
    }

    /// Open the installer's branding description in the editor.
    pub fn edit_calamares_branding() -> (r: String)
        ensures
            r@ == "sudo nano /usr/share/calamares/branding/claudemods/branding.desc"@,
    {
        let mut c = String::new();
        c.append("sudo nano /usr/share/calamares/branding/claudemods/branding.desc");
        proof {
            assert(c@ =~= "sudo nano /usr/share/calamares/branding/claudemods/branding.desc"@);
        }
        c
    }

    /// Stage a full copy of the running system under the clone
    /// directory's marker: create the marker when it is missing, then
    /// run the filtered recursive copy.
    pub fn clone_system(clone_dir: &str, marker_exists: bool) -> (r: Vec<String>)
        ensures
            r.deep_view() == spec_clone_cmds(clone_dir@, marker_exists),
    {
        let normalized = ensure_trailing_slash(clone_dir);
        let mut full = String::new();
        full.append(normalized.as_str());
        full.append("clone_system_temp");
        let mut cmds: Vec<String> = Vec::new();
        if !marker_exists {
            let mut mk = String::new();
            mk.append("mkdir -p ");
            mk.append(full.as_str());
            cmds.push(mk);
        }
        let mut rs = String::new();
        rs.append(
            "sudo rsync -aHAXSr --numeric-ids --info=progress2 --exclude=/etc/udev/rules.d/70-persistent-cd.rules --exclude=/etc/udev/rules.d/70-persistent-net.rules --exclude=/etc/mtab --exclude=/etc/fstab --exclude=/dev/* --exclude=/proc/* --exclude=/sys/* --exclude=/tmp/* --exclude=/run/* --exclude=/mnt/* --exclude=/media/* --exclude=/lost+found --exclude=clone_system_temp --include=dev --include=proc --include=tmp --include=sys --include=run --include=dev --include=proc --include=tmp --include=sys --include=usr --include=etc / ",
        );
        rs.append(full.as_str());
        cmds.push(rs);
        proof {
            assert(cmds.deep_view() =~~= spec_clone_cmds(clone_dir@, marker_exists));
        }
        cmds
    }

    /// Compress the staged clone into the build tree's SquashFS
    /// artifact; refused while no clone directory is set.
    pub fn create_squashfs(distro: Distro, clone_dir: Option<&str>, username: &str) -> (r: Result<
        String,
        String,
    >)
        ensures
            r is Ok <==> clone_dir is Some,
            r is Ok ==> r->Ok_0@ == spec_cmi_squashfs_cmd(
                distro,
                clone_dir->Some_0@,
                username@,
            ),
            r is Err ==> r->Err_0@ == "Clone directory not set"@,
    {
        let dir = match clone_dir {
            None => {
                let mut e = String::new();
                e.append("Clone directory not set");
                proof {
                    assert(e@ =~= "Clone directory not set"@);
                }
                return Err(e);
            },
            Some(d) => d,
        };
        let normalized = ensure_trailing_slash(dir);
        let out = Self::squashfs_output_path(distro, username);
        let mut c = String::new();
        c.append("sudo mksquashfs ");
        c.append(normalized.as_str());
        c.append("clone_system_temp ");
        c.append(out.as_str());
        c.append(
            " -comp xz -Xbcj x86 -b 1M -no-duplicates -no-recovery -always-use-fragments -wildcards -xattrs",
        );
        proof {
            assert(c@ =~= spec_cmi_squashfs_cmd(distro, dir@, username@));
        }
        Ok(c)
    }

    /// The SquashFS artifact of the distribution's build tree.
    pub fn squashfs_output_path(distro: Distro, username: &str) -> (r: String)
        ensures
            r@ == spec_squashfs_output(distro, username@),
    {
        let mut r = Self::build_image_dir(distro, username);
        match distro {
            Distro::Ubuntu | Distro::Neon | Distro::Debian => {
                r.append("/live/filesystem.sfs");
            },
            _ => {
                r.append("/arch/x86_64/airootfs.sfs");
            },
        }
        r
    }

    /// Clone and compress in one stage.  A marker directory already on
    /// disk means the system is staged: the clone step is skipped and
    /// compression runs directly.
    pub fn create_squashfs_clone(
        distro: Distro,
        clone_dir: Option<&str>,
        marker_exists: bool,
        username: &str,
    ) -> (r: Result<Vec<String>, String>)
        ensures
            r is Ok <==> clone_dir is Some,
            r is Err ==> r->Err_0@ == "Clone directory not set"@,
            r is Ok ==> r->Ok_0.deep_view() == (if marker_exists {
                seq![spec_cmi_squashfs_cmd(distro, clone_dir->Some_0@, username@)]
            } else {
                spec_clone_cmds(clone_dir->Some_0@, false) + seq![
                    spec_cmi_squashfs_cmd(distro, clone_dir->Some_0@, username@),
                ]
            }),
            r is Ok && marker_exists ==> r->Ok_0.deep_view().len() == 1,
    {
        let dir = match clone_dir {
            None => {
                let mut e = String::new();
                e.append("Clone directory not set");
                proof {
                    assert(e@ =~= "Clone directory not set"@);
                }
                return Err(e);
            },
            Some(d) => d,
        };
        let mut cmds: Vec<String> = Vec::new();
        if !marker_exists {
            let mut clone_cmds = Self::clone_system(dir, false);
            cmds.append(&mut clone_cmds);
        }
        let squash = match Self::create_squashfs(distro, Some(dir), username) {
            Ok(c) => c,
            Err(e) => {
                proof {
                    assert(false);
                }
                return Err(e);
            },
        };
        cmds.push(squash);
        proof {
            if marker_exists {
                assert(cmds.deep_view() =~~= seq![
                    spec_cmi_squashfs_cmd(distro, dir@, username@),
                ]);
            } else {
                assert(cmds.deep_view() =~~= spec_clone_cmds(dir@, false) + seq![
                    spec_cmi_squashfs_cmd(distro, dir@, username@),
                ]);
            }
        }
        Ok(cmds)
    }

    /// Remove the staged clone, and the SquashFS artifact when it is on
    /// disk; refused while no clone directory is set.
    pub fn delete_clone(
        distro: Distro,
        clone_dir: Option<&str>,
        squashfs_exists: bool,
        username: &str,
    ) -> (r: Result<Vec<String>, String>)
        ensures
            r is Ok <==> clone_dir is Some,
            r is Err ==> r->Err_0@ == "Clone directory not set"@,
            r is Ok ==> r->Ok_0.deep_view() == (if squashfs_exists {
                seq![
                    "sudo rm -rf "@ + spec_with_trailing_slash(clone_dir->Some_0@)
                        + "clone_system_temp"@,
                    "sudo rm -f "@ + spec_squashfs_output(distro, username@),
                ]
            } else {
                seq![
                    "sudo rm -rf "@ + spec_with_trailing_slash(clone_dir->Some_0@)
                        + "clone_system_temp"@,
                ]
            }),
    {
        let dir = match clone_dir {
            None => {
                let mut e = String::new();
                e.append("Clone directory not set");
                proof {
                    assert(e@ =~= "Clone directory not set"@);
                }
                return Err(e);
            },
            Some(d) => d,
        };
        let normalized = ensure_trailing_slash(dir);
        let mut cmds: Vec<String> = Vec::new();
        let mut rm = String::new();
        rm.append("sudo rm -rf ");
        rm.append(normalized.as_str());
        rm.append("clone_system_temp");
        cmds.push(rm);
        if squashfs_exists {
            let out = Self::squashfs_output_path(distro, username);
            let mut rf = String::new();
            rf.append("sudo rm -f ");
            rf.append(out.as_str());
            cmds.push(rf);
            proof {
                assert(cmds.deep_view() =~~= seq![
                    "sudo rm -rf "@ + spec_with_trailing_slash(dir@) + "clone_system_temp"@,
                    "sudo rm -f "@ + spec_squashfs_output(distro, username@),
                ]);
            }
        } else {
            proof {
                assert(cmds.deep_view() =~~= seq![
                    "sudo rm -rf "@ + spec_with_trailing_slash(dir@) + "clone_system_temp"@,
                ]);
            }
        }
        Ok(cmds)
    }

    /// Run the produced ISO in the emulator.
    pub fn run_qemu() -> (r: String)
        ensures
            r@ == "ruby /opt/claudemods-iso-konsole-script/Supported-Distros/qemu.rb"@,
    {
        let mut c = String::new();
        c.append("ruby /opt/claudemods-iso-konsole-script/Supported-Distros/qemu.rb");
        proof {
            assert(c@ =~= "ruby /opt/claudemods-iso-konsole-script/Supported-Distros/qemu.rb"@);
        }
        c
    }

    /// Run the updater script kept in the configuration directory.
    pub fn install_updater(username: &str) -> (r: String)
        ensures
            r@ == "./home/"@ + username@ + "/.config/cmi/patch.sh"@,
    {
        let mut c = String::new();
        c.append("./home/");
        c.append(username);
        c.append("/.config/cmi/patch.sh");
        proof {
            assert(c@ =~= "./home/"@ + username@ + "/.config/cmi/patch.sh"@);
        }
        c
    }

    /// Print the user guide kept in the configuration directory.
    pub fn show_guide(username: &str) -> (r: String)
        ensures
            r@ == "cat /home/"@ + username@ + "/.config/cmi/readme.txt"@,
    {
        let mut c = String::new();
        c.append("cat /home/");
        c.append(username);
        c.append("/.config/cmi/readme.txt");
        proof {
            assert(c@ =~= "cat /home/"@ + username@ + "/.config/cmi/readme.txt"@);
        }
        c
    }

    /// Print the changelog kept in the configuration directory.
    pub fn show_changelog(username: &str) -> (r: String)
        ensures
            r@ == "cat /home/"@ + username@ + "/.config/cmi/changelog.txt"@,
    {
        let mut c = String::new();
        c.append("cat /home/");
        c.append(username);
        c.append("/.config/cmi/changelog.txt");
        proof {
            assert(c@ =~= "cat /home/"@ + username@ + "/.config/cmi/changelog.txt"@);
        }
        c
    }
}

/// What saving the clone directory amounts to: an optional command that
/// creates the configuration directory, the marker file's new text, and
/// an optional command that creates the marker directory.
pub struct CloneDirSave {
    pub make_config_dir: Option<String>,
    pub file_content: String,
    pub make_marker_dir: Option<String>,
}

/// What saving the ISO name amounts to: an optional command that creates
/// the configuration directory, and the name file's new text.
pub struct IsoNameSave {
    pub make_config_dir: Option<String>,
    pub file_content: String,
}

/// The ISO file produced by one assembly: name, architecture and time
/// stamp joined under the output directory.
pub open spec fn spec_iso_file_name(
    output_dir: Seq<char>,
    iso_name: Seq<char>,
    timestamp: Seq<char>,
) -> Seq<char> {
    output_dir + "/"@ + iso_name + "_amd64_"@ + timestamp + ".iso"@
}

/// The per-family ISO assembly command: isolinux BIOS boot plus an EFI
/// image, hybrid MBR from the family's bootloader files.
pub open spec fn spec_cmi_iso_cmd(distro: Distro, iso_file: Seq<char>, username: Seq<char>) -> Seq<
    char,
> {
    "sudo xorriso -as mkisofs -o "@ + iso_file + " -V 2025 -iso-level 3"@ + (match distro {
        Distro::Ubuntu | Distro::Neon => " -isohybrid-mbr /usr/lib/ISOLINUX/isohdpfx.bin -c isolinux/boot.cat -b isolinux/isolinux.bin -no-emul-boot -boot-load-size 4 -boot-info-table -eltorito-alt-boot -e boot/grub/efi.img -no-emul-boot -isohybrid-gpt-basdat"@,
        Distro::Debian => " -isohybrid-mbr /usr/lib/ISOLINUX/isohdpfx.bin -c isolinux/boot.cat -b isolinux/isolinux.bin -no-emul-boot -boot-load-size 4 -boot-info-table -eltorito-alt-boot -e boot/grub/efiboot.img -no-emul-boot -isohybrid-gpt-basdat"@,
        _ => " -isohybrid-mbr /usr/lib/syslinux/bios/isohdpfx.bin -c isolinux/boot.cat -b isolinux/isolinux.bin -no-emul-boot -boot-load-size 4 -boot-info-table -eltorito-alt-boot -e boot/grub/efiboot.img -no-emul-boot -isohybrid-gpt-basdat"@,
    }) + " "@ + spec_build_image_dir(distro, username)
}

/// The commands of one ISO assembly: create the output directory when it
/// is missing, then assemble.
pub open spec fn spec_cmi_iso_cmds(
    distro: Distro,
    output_dir: Seq<char>,
    iso_name: Seq<char>,
    timestamp: Seq<char>,
    username: Seq<char>,
    output_dir_exists: bool,
) -> Seq<Seq<char>> {
    let assemble = spec_cmi_iso_cmd(
        distro,
        spec_iso_file_name(output_dir, iso_name, timestamp),
        username,
    );
    if output_dir_exists {
        seq![assemble]
    } else {
        seq!["mkdir -p "@ + output_dir, assemble]
    }
}

impl CmiUtils {
    /// Save the clone directory: make sure the configuration directory
    /// is there, store the path with its trailing separator, and make
    /// sure the marker directory is there.
    pub fn save_clone_dir(
        dir_path: &str,
        username: &str,
        config_dir_exists: bool,
        marker_exists: bool,
    ) -> (r: CloneDirSave)
        ensures
            r.file_content@ == spec_with_trailing_slash(dir_path@),
            r.make_config_dir matches Some(c) <==> !config_dir_exists,
            r.make_config_dir matches Some(c) ==> c@ == "mkdir -p "@ + spec_config_base(username@),
            r.make_marker_dir matches Some(c) <==> !marker_exists,
            r.make_marker_dir matches Some(c) ==> c@ == "mkdir -p "@ + spec_with_trailing_slash(
                dir_path@,
            ) + "clone_system_temp"@,
    {
        let make_config_dir: Option<String> = if config_dir_exists {
            None
        } else {
            let base = Self::config_base(username);
            let mut mk = String::new();
            mk.append("mkdir -p ");
            mk.append(base.as_str());
            Some(mk)
        };
        let content = ensure_trailing_slash(dir_path);
        let make_marker_dir: Option<String> = if marker_exists {
            None
        } else {
            let mut mk = String::new();
            mk.append("mkdir -p ");
            mk.append(content.as_str());
            mk.append("clone_system_temp");
            Some(mk)
        };
        CloneDirSave { make_config_dir, file_content: content, make_marker_dir }
    }

    /// Save the ISO name: make sure the configuration directory is
    /// there, then store the name as given.
    pub fn save_iso_name(name: &str, username: &str, config_dir_exists: bool) -> (r: IsoNameSave)
        ensures
            r.file_content@ == name@,
            r.make_config_dir matches Some(c) <==> !config_dir_exists,
            r.make_config_dir matches Some(c) ==> c@ == "mkdir -p "@ + spec_config_base(username@),
    {
        let make_config_dir: Option<String> = if config_dir_exists {
            None
        } else {
            let base = Self::config_base(username);
            let mut mk = String::new();
            mk.append("mkdir -p ");
            mk.append(base.as_str());
            Some(mk)
        };
        IsoNameSave { make_config_dir, file_content: name.to_owned() }
    }

    /// The produced ISO's file name for a given time stamp.
    pub fn iso_file_name(output_dir: &str, iso_name: &str, timestamp: &str) -> (r: String)
        ensures
            r@ == spec_iso_file_name(output_dir@, iso_name@, timestamp@),
    {
        let mut r = String::new();
        r.append(output_dir);
        r.append("/");
        r.append(iso_name);
        r.append("_amd64_");
        r.append(timestamp);
        r.append(".iso");
        proof {
            assert(r@ =~= spec_iso_file_name(output_dir@, iso_name@, timestamp@));
        }
        r
    }

    /// The assembly command that builds the given ISO file from this
    /// family's build tree.
    pub fn iso_command(distro: Distro, iso_file: &str, username: &str) -> (r: String)
        ensures
            r@ == spec_cmi_iso_cmd(distro, iso_file@, username@),
    {
        let mut c = String::new();
        c.append("sudo xorriso -as mkisofs -o ");
        c.append(iso_file);
        c.append(" -V 2025 -iso-level 3");
        match distro {
            Distro::Ubuntu | Distro::Neon => {
                c.append(
                    " -isohybrid-mbr /usr/lib/ISOLINUX/isohdpfx.bin -c isolinux/boot.cat -b isolinux/isolinux.bin -no-emul-boot -boot-load-size 4 -boot-info-table -eltorito-alt-boot -e boot/grub/efi.img -no-emul-boot -isohybrid-gpt-basdat",
                );
            },
            Distro::Debian => {
                c.append(
                    " -isohybrid-mbr /usr/lib/ISOLINUX/isohdpfx.bin -c isolinux/boot.cat -b isolinux/isolinux.bin -no-emul-boot -boot-load-size 4 -boot-info-table -eltorito-alt-boot -e boot/grub/efiboot.img -no-emul-boot -isohybrid-gpt-basdat",
                );
            },
            _ => {
                c.append(
                    " -isohybrid-mbr /usr/lib/syslinux/bios/isohdpfx.bin -c isolinux/boot.cat -b isolinux/isolinux.bin -no-emul-boot -boot-load-size 4 -boot-info-table -eltorito-alt-boot -e boot/grub/efiboot.img -no-emul-boot -isohybrid-gpt-basdat",
                );
            },
        }
        c.append(" ");
        let bd = Self::build_image_dir(distro, username);
        c.append(bd.as_str());
        c
    }

    /// Assemble the ISO, stamped with the current time.  Refused while
    /// the ISO name is not set or the output directory is not given;
    /// whatever the clock returned, the commands are the optional
    /// directory creation and one assembly of the stamped file.
    pub fn create_iso(
        distro: Distro,
        output_dir: &str,
        iso_name: Option<&str>,
        output_dir_exists: bool,
        username: &str,
    ) -> (r: Result<Vec<String>, String>)
        ensures
            r is Ok <==> (iso_name is Some && output_dir@.len() > 0),
            iso_name is None ==> (r matches Err(e) && e@ == "ISO name not set"@),
            iso_name is Some && output_dir@.len() == 0 ==> (r matches Err(e) && e@
                == "Output directory not specified"@),
            r is Ok ==> exists|ts: Seq<char>|
                r->Ok_0.deep_view() == #[trigger] spec_cmi_iso_cmds(
                    distro,
                    output_dir@,
                    iso_name->Some_0@,
                    ts,
                    username@,
                    output_dir_exists,
                ),
    {
        let name = match iso_name {
            None => {
                let mut e = String::new();
                e.append("ISO name not set");
                proof {
                    assert(e@ =~= "ISO name not set"@);
                }
                return Err(e);
            },
            Some(n) => n,
        };
        if output_dir.is_empty() {
            let mut e = String::new();
            e.append("Output directory not specified");
            proof {
                assert(e@ =~= "Output directory not specified"@);
            }
            return Err(e);
        }
        let ts = crate::host::timestamp_now();
        let iso_file = Self::iso_file_name(output_dir, name, ts.as_str());
        let mut cmds: Vec<String> = Vec::new();
        if !output_dir_exists {
            let mut mk = String::new();
            mk.append("mkdir -p ");
            mk.append(output_dir);
            cmds.push(mk);
        }
        cmds.push(Self::iso_command(distro, iso_file.as_str(), username));
        proof {
            assert(cmds.deep_view() =~~= spec_cmi_iso_cmds(
                distro,
                output_dir@,
                name@,
                ts@,
                username@,
                output_dir_exists,
            ));
        }
        Ok(cmds)
    }
}

/// The installer-install command of each distribution family.
pub open spec fn spec_install_calamares_cmd(distro: Distro, username: Seq<char>) -> Seq<char> {
    match distro {
        Distro::Arch => "cd "@ + spec_config_base(username) + "/calamares-per-distro/arch"@
            + " >/dev/null 2>&1 && sudo pacman -U calamares-3.3.14-5-x86_64_REPACKED.pkg.tar.zst calamares-oem-kde-settings-20240616-3-any.pkg.tar calamares-tools-0.1.0-1-any.pkg.tar ckbcomp-1.227-2-any.pkg.tar.zst"@,
        Distro::Cachyos => "sudo pacman -U --noconfirm calamares-3.3.14-5-x86_64_REPACKED.pkg.tar.zst calamares-oem-kde-settings-20240616-3-any.pkg.tar calamares-tools-0.1.0-1-any.pkg.tar ckbcomp-1.227-2-any.pkg.tar.zst"@,
        Distro::Ubuntu | Distro::Neon => "sudo apt install -y calamares-settings-ubuntu-common calamares"@,
        Distro::Debian => "sudo apt install -y calamares-settings-debian calamares"@,
        Distro::Unknown => Seq::empty(),
    }
}

/// The `VERSION_ID=` value of the identification file, quotes removed;
/// `unknown` when no line carries that key.
pub open spec fn spec_distro_version(s: Seq<char>) -> Seq<char>
    decreases s.len(),
    via spec_distro_version_decreases
{
    if s.len() == 0 {
        "unknown"@
    } else {
        let e = spec_scan_to(s, '\n');
        let line = s.take(e);
        let rest = if e < s.len() {
            s.skip(e + 1)
        } else {
            Seq::empty()
        };
        if is_prefix("VERSION_ID="@, line) {
            spec_trim(line.skip("VERSION_ID="@.len() as int), |x: char| x == '"')
        } else {
            spec_distro_version(rest)
        }
    }
}

#[via_fn]
proof fn spec_distro_version_decreases(s: Seq<char>) {
    if s.len() != 0 {
        crate::strutil::lemma_scan_to_bounds(s, '\n');
    }
}

/// The initramfs image path inside the distribution's build tree.
pub open spec fn spec_init_image_path(
    distro: Distro,
    username: Seq<char>,
    kernel_version: Seq<char>,
) -> Seq<char> {
    match distro {
        Distro::Ubuntu | Distro::Neon | Distro::Debian => spec_build_image_dir(distro, username)
            + "/live/initrd.img-"@ + kernel_version,
        _ => spec_build_image_dir(distro, username) + "/live/initramfs-linux.img"@,
    }
}

} // verus!
