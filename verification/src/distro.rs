//! Host distribution detection and naming.
//!
//! The distribution is read from the host identification file
//! (`/etc/os-release` on every supported system): the first `ID=` line
//! whose value names a known family decides.  An unknown distribution is
//! reported as such and disables the distribution-specific stages; it is
//! never silently treated as one of the known families.

use crate::strutil::{
    contains_seq, contains_str, find_char_from, has_prefix, is_prefix, lemma_scan_to_determined,
    spec_scan_to,
};
use vstd::prelude::*;

verus! {

/// The distribution families the pipeline knows.
#[derive(Clone, Copy, PartialEq, Eq, Structural, Debug)]
pub enum Distro {
    Arch,
    Ubuntu,
    Debian,
    Cachyos,
    Neon,
    Unknown,
}

/// The distribution named by one `ID=` value, if any.
pub open spec fn spec_distro_of_id(id: Seq<char>) -> Distro {
    if contains_seq(id, "arch"@) {
        Distro::Arch
    } else if contains_seq(id, "ubuntu"@) {
        Distro::Ubuntu
    } else if contains_seq(id, "debian"@) {
        Distro::Debian
    } else if contains_seq(id, "cachyos"@) {
        Distro::Cachyos
    } else if contains_seq(id, "neon"@) {
        Distro::Neon
    } else {
        Distro::Unknown
    }
}

/// Scan the identification file line by line; the first `ID=` line that
/// names a known family decides, all other lines are passed over.
pub open spec fn spec_detect(s: Seq<char>) -> Distro
    decreases s.len(),
    via spec_detect_decreases
{
    if s.len() == 0 {
        Distro::Unknown
    } else {
        let e = spec_scan_to(s, '\n');
        let line = s.take(e);
        let rest = if e < s.len() {
            s.skip(e + 1)
        } else {
            Seq::empty()
        };
        if is_prefix("ID="@, line) && spec_distro_of_id(line.skip("ID="@.len() as int))
            != Distro::Unknown {
            spec_distro_of_id(line.skip("ID="@.len() as int))
        } else {
            spec_detect(rest)
        }
    }
}

#[via_fn]
proof fn spec_detect_decreases(s: Seq<char>) {
    if s.len() != 0 {
        crate::strutil::lemma_scan_to_bounds(s, '\n');
    }
}

fn distro_of_id(id: &str) -> (r: Distro)
    ensures
        r == spec_distro_of_id(id@),
{
    if contains_str(id, "arch") {
        Distro::Arch
    } else if contains_str(id, "ubuntu") {
        Distro::Ubuntu
    } else if contains_str(id, "debian") {
        Distro::Debian
    } else if contains_str(id, "cachyos") {
        Distro::Cachyos
    } else if contains_str(id, "neon") {
        Distro::Neon
    } else {
        Distro::Unknown
    }
}

/// Decide the distribution family from the text of the host
/// identification file.
pub fn detect_distro(os_release: &str) -> (r: Distro)
    ensures
        r == spec_detect(os_release@),
{
    let slen = os_release.unicode_len();
    let mut i: usize = 0;
    proof {
        assert(os_release@.skip(0) =~= os_release@);
    }
    while i < slen
        invariant
            i <= slen,
            slen == os_release@.len(),
            spec_detect(os_release@.skip(i as int)) == spec_detect(os_release@),
        decreases slen - i,
    {
        let ghost tail = os_release@.skip(i as int);
        let j = match find_char_from(os_release, i, '\n') {
            Some(j) => j,
            None => slen,
        };
        let line = os_release.substring_char(i, j);
        proof {
            assert forall|k: int| 0 <= k < j - i implies tail[k] != '\n' by {
                assert(tail[k] == os_release@[i + k]);
            }
            assert(j - i < tail.len() ==> tail[j - i] == '\n') by {
                if j - i < tail.len() {
                    assert(tail[j - i] == os_release@[j as int]);
                }
            }
            lemma_scan_to_determined(tail, '\n', j - i);
            assert(tail.take(j - i) =~= line@);
            if j < slen {
                assert(tail.skip(j - i + 1) =~= os_release@.skip(j + 1));
            } else {
                assert(os_release@.skip(j as int) =~= Seq::<char>::empty());
            }
        }
        if has_prefix(line, "ID=") {
            proof {
                reveal_strlit("ID=");
            }
            let llen = line.unicode_len();
            let id = line.substring_char(3, llen);
            proof {
                assert(id@ =~= line@.skip("ID="@.len() as int));
            }
            let d = distro_of_id(id);
            if !matches!(d, Distro::Unknown) {
                return d;
            }
        }
        i = if j < slen {
            j + 1
        } else {
            slen
        };
    }
    proof {
        assert(os_release@.skip(slen as int) =~= Seq::<char>::empty());
    }
    Distro::Unknown
}

impl Distro {
    /// The human-readable name of the family.
    pub fn name(&self) -> (r: &'static str)
        ensures
            r@ == self.spec_name(),
    {
        match self {
            Distro::Arch => "Arch Linux",
            Distro::Ubuntu => "Ubuntu",
            Distro::Debian => "Debian",
            Distro::Cachyos => "CachyOS",
            Distro::Neon => "KDE Neon",
            Distro::Unknown => "Unknown",
        }
    }

    pub open spec fn spec_name(&self) -> Seq<char> {
        match self {
            Distro::Arch => "Arch Linux"@,
            Distro::Ubuntu => "Ubuntu"@,
            Distro::Debian => "Debian"@,
            Distro::Cachyos => "CachyOS"@,
            Distro::Neon => "KDE Neon"@,
            Distro::Unknown => "Unknown"@,
        }
    }

    /// Name of the build tree under the tool's configuration directory.
    /// Every family that is not Ubuntu-like or Debian uses the Arch tree.
    pub fn build_tree(&self) -> (r: &'static str)
        ensures
            r@ == self.spec_build_tree(),
    {
        match self {
            Distro::Ubuntu | Distro::Neon => "build-image-noble",
            Distro::Debian => "build-image-debian",
            _ => "build-image-arch",
        }
    }

    pub open spec fn spec_build_tree(&self) -> Seq<char> {
        match self {
            Distro::Ubuntu | Distro::Neon => "build-image-noble"@,
            Distro::Debian => "build-image-debian"@,
            _ => "build-image-arch"@,
        }
    }
}

} // verus!
