//! Flat-text codec for the persisted configuration record.
//!
//! The on-disk form is one `key=value` pair per line; boolean fields are
//! written as `1` / `0`.  Reading ignores unknown keys and lines without
//! `=`, takes the part before the first `=` as the key, and yields the
//! all-default record for a missing or empty file.

use crate::config::{ConfigModel, ConfigState};
use crate::strutil::{
    find_char_from, lemma_scan_to_bounds, lemma_scan_to_determined, spec_scan_to, str_eq,
};
use vstd::prelude::*;

verus! {

/// The serialized text of `b`.
pub open spec fn spec_bool_str(b: bool) -> Seq<char> {
    if b {
        "1"@
    } else {
        "0"@
    }
}

/// One `key=value` line, newline-terminated.
pub open spec fn spec_kv_line(k: Seq<char>, v: Seq<char>) -> Seq<char> {
    k + "="@ + v + "\n"@
}

/// The full serialized record: the seven fields, in a fixed order.
pub open spec fn spec_serialize(m: ConfigModel) -> Seq<char> {
    spec_kv_line("isoTag"@, m.iso_tag) + spec_kv_line("isoName"@, m.iso_name) + spec_kv_line(
        "outputDir"@,
        m.output_dir,
    ) + spec_kv_line("vmlinuzPath"@, m.vmlinuz_path) + spec_kv_line(
        "mkinitcpioGenerated"@,
        spec_bool_str(m.mkinitcpio_generated),
    ) + spec_kv_line("grubEdited"@, spec_bool_str(m.grub_edited)) + spec_kv_line(
        "dependenciesInstalled"@,
        spec_bool_str(m.dependencies_installed),
    )
}

/// Effect of reading one line: the part before the first `=` selects the
/// field, the part after it is the value; lines without `=` and unknown
/// keys change nothing.
pub open spec fn spec_apply_line(line: Seq<char>, m: ConfigModel) -> ConfigModel {
    let p = spec_scan_to(line, '=');
    if p == line.len() {
        m
    } else {
        let k = line.take(p);
        let v = line.skip(p + 1);
        if k == "isoTag"@ {
            ConfigModel { iso_tag: v, ..m }
        } else if k == "isoName"@ {
            ConfigModel { iso_name: v, ..m }
        } else if k == "outputDir"@ {
            ConfigModel { output_dir: v, ..m }
        } else if k == "vmlinuzPath"@ {
            ConfigModel { vmlinuz_path: v, ..m }
        } else if k == "mkinitcpioGenerated"@ {
            ConfigModel { mkinitcpio_generated: v == "1"@, ..m }
        } else if k == "grubEdited"@ {
            ConfigModel { grub_edited: v == "1"@, ..m }
        } else if k == "dependenciesInstalled"@ {
            ConfigModel { dependencies_installed: v == "1"@, ..m }
        } else {
            m
        }
    }
}

/// Read the record line by line, starting from `m`.
pub open spec fn spec_parse_from(s: Seq<char>, m: ConfigModel) -> ConfigModel
    decreases s.len(),
    via spec_parse_from_decreases
{
    if s.len() == 0 {
        m
    } else {
        let e = spec_scan_to(s, '\n');
        let line = s.take(e);
        let rest = if e < s.len() {
            s.skip(e + 1)
        } else {
            Seq::empty()
        };
        spec_parse_from(rest, spec_apply_line(line, m))
    }
}

#[via_fn]
proof fn spec_parse_from_decreases(s: Seq<char>, m: ConfigModel) {
    if s.len() != 0 {
        lemma_scan_to_bounds(s, '\n');
    }
}

/// The record read from a whole file.
pub open spec fn spec_parse(s: Seq<char>) -> ConfigModel {
    spec_parse_from(s, ConfigModel::empty())
}

/// Append one newline-terminated `key=value` line.
fn append_kv(out: &mut String, key: &str, value: &str)
    ensures
        final(out)@ == old(out)@ + spec_kv_line(key@, value@),
{
    out.append(key);
    out.append("=");
    out.append(value);
    out.append("\n");
    proof {
        assert(out@ =~= old(out)@ + spec_kv_line(key@, value@));
    }
}

/// Append one newline-terminated `key=value` line for a flag.
fn append_kv_bool(out: &mut String, key: &str, value: bool)
    ensures
        final(out)@ == old(out)@ + spec_kv_line(key@, spec_bool_str(value)),
{
    append_kv(out, key, if value {
        "1"
    } else {
        "0"
    });
}

/// Write the record in its flat `key=value` form.
pub fn serialize_config(config: &ConfigState) -> (r: String)
    ensures
        r@ == spec_serialize(config@),
{
    let mut out = String::new();
    append_kv(&mut out, "isoTag", config.iso_tag.as_str());
    append_kv(&mut out, "isoName", config.iso_name.as_str());
    append_kv(&mut out, "outputDir", config.output_dir.as_str());
    append_kv(&mut out, "vmlinuzPath", config.vmlinuz_path.as_str());
    append_kv_bool(&mut out, "mkinitcpioGenerated", config.mkinitcpio_generated);
    append_kv_bool(&mut out, "grubEdited", config.grub_edited);
    append_kv_bool(&mut out, "dependenciesInstalled", config.dependencies_installed);
    proof {
        assert(out@ =~= spec_serialize(config@));
    }
    out
}

/// Apply one `key=value` line to the record.
fn apply_config_line(cfg: &mut ConfigState, line: &str)
    ensures
        final(cfg)@ == spec_apply_line(line@, old(cfg)@),
{
    let llen = line.unicode_len();
    match find_char_from(line, 0, '=') {
        None => {
            proof {
                lemma_scan_to_determined(line@, '=', llen as int);
            }
        },
        Some(p) => {
            proof {
                lemma_scan_to_determined(line@, '=', p as int);
            }
            let key = line.substring_char(0, p);
            let value = line.substring_char(p + 1, llen);
            proof {
                assert(key@ =~= line@.take(p as int));
                assert(value@ =~= line@.skip(p as int + 1));
            }
            if str_eq(key, "isoTag") {
                cfg.iso_tag = value.to_owned();
            } else if str_eq(key, "isoName") {
                cfg.iso_name = value.to_owned();
            } else if str_eq(key, "outputDir") {
                cfg.output_dir = value.to_owned();
            } else if str_eq(key, "vmlinuzPath") {
                cfg.vmlinuz_path = value.to_owned();
            } else if str_eq(key, "mkinitcpioGenerated") {
                cfg.mkinitcpio_generated = str_eq(value, "1");
            } else if str_eq(key, "grubEdited") {
                cfg.grub_edited = str_eq(value, "1");
            } else if str_eq(key, "dependenciesInstalled") {
                cfg.dependencies_installed = str_eq(value, "1");
            }
            proof {
                assert(cfg@ =~= spec_apply_line(line@, old(cfg)@));
            }
        },
    }
}

/// Read a whole record from its flat text form.
pub fn parse_config(content: &str) -> (r: ConfigState)
    ensures
        r@ == spec_parse(content@),
{
    let slen = content.unicode_len();
    let mut cfg = ConfigState::default();
    let mut i: usize = 0;
    proof {
        assert(content@.skip(0) =~= content@);
    }
    while i < slen
        invariant
            i <= slen,
            slen == content@.len(),
            spec_parse_from(content@.skip(i as int), cfg@) == spec_parse(content@),
        decreases slen - i,
    {
        let ghost tail = content@.skip(i as int);
        let j = match find_char_from(content, i, '\n') {
            Some(j) => j,
            None => slen,
        };
        let line = content.substring_char(i, j);
        proof {
            assert forall|k: int| 0 <= k < j - i implies tail[k] != '\n' by {
                assert(tail[k] == content@[i + k]);
            }
            assert(j - i < tail.len() ==> tail[j - i] == '\n') by {
                if j - i < tail.len() {
                    assert(tail[j - i] == content@[j as int]);
                }
            }
            lemma_scan_to_determined(tail, '\n', j - i);
            assert(tail.take(j - i) =~= line@);
            if j < slen {
                assert(tail.skip(j - i + 1) =~= content@.skip(j + 1));
            } else {
                assert(content@.skip(j as int) =~= Seq::<char>::empty());
            }
        }
        apply_config_line(&mut cfg, line);
        i = if j < slen {
            j + 1
        } else {
            slen
        };
    }
    proof {
        assert(content@.skip(slen as int) =~= Seq::<char>::empty());
    }
    cfg
}

/// Build the record from the file contents, or the all-default record if
/// the file was missing; an empty file also yields the default record.
pub fn load_config(content: Option<&str>) -> (r: ConfigState)
    ensures
        match content {
            None => r@ == ConfigModel::empty(),
            Some(s) => r@ == spec_parse(s@),
        },
        match content {
            None => true,
            Some(s) => s@.len() == 0 ==> r@ == ConfigModel::empty(),
        },
{
    match content {
        None => ConfigState::default(),
        Some(s) => parse_config(s),
    }
}

/// A record is storable exactly when none of its string fields contains a
/// line break; such a field would split into two lines on disk.
pub open spec fn storable(m: ConfigModel) -> bool {
    &&& !m.iso_tag.contains('\n')
    &&& !m.iso_name.contains('\n')
    &&& !m.output_dir.contains('\n')
    &&& !m.vmlinuz_path.contains('\n')
}

proof fn lemma_parse_one_line(k: Seq<char>, v: Seq<char>, rest: Seq<char>, m: ConfigModel)
    requires
        !k.contains('\n'),
        !k.contains('='),
        !v.contains('\n'),
    ensures
        spec_parse_from(spec_kv_line(k, v) + rest, m) == spec_parse_from(
            rest,
            spec_apply_line(k + "="@ + v, m),
        ),
{
    reveal_strlit("=");
    reveal_strlit("\n");
    let line = k + "="@ + v;
    let s = spec_kv_line(k, v) + rest;
    assert(s =~= line + "\n"@ + rest);
    assert forall|q: int| 0 <= q < line.len() implies s[q] != '\n' by {
        assert(s[q] == line[q]);
        if q < k.len() {
            assert(line[q] == k[q]);
            assert(k.contains('\n') <== k[q] == '\n');
        } else if q == k.len() {
            assert(line[q] == '=');
        } else {
            assert(line[q] == v[q - k.len() - 1]);
            assert(v.contains('\n') <== v[q - k.len() - 1] == '\n');
        }
    }
    assert(s[line.len() as int] == '\n');
    lemma_scan_to_determined(s, '\n', line.len() as int);
    assert(s.take(line.len() as int) =~= line);
    assert(s.skip(line.len() as int + 1) =~= rest);
    assert(s.len() > 0);
}

proof fn lemma_apply_known_line(k: Seq<char>, v: Seq<char>)
    requires
        !k.contains('='),
    ensures
        spec_scan_to(k + "="@ + v, '=') == k.len(),
        (k + "="@ + v).take(k.len() as int) == k,
        (k + "="@ + v).skip(k.len() as int + 1) == v,
{
    reveal_strlit("=");
    let line = k + "="@ + v;
    assert forall|q: int| 0 <= q < k.len() implies line[q] != '=' by {
        assert(line[q] == k[q]);
        assert(k.contains('=') <== k[q] == '=');
    }
    assert(line[k.len() as int] == '=');
    lemma_scan_to_determined(line, '=', k.len() as int);
    assert(line.take(k.len() as int) =~= k);
    assert(line.skip(k.len() as int + 1) =~= v);
}

proof fn lemma_key_facts()
    ensures
        !"isoTag"@.contains('\n'),
        !"isoTag"@.contains('='),
        !"isoName"@.contains('\n'),
        !"isoName"@.contains('='),
        !"outputDir"@.contains('\n'),
        !"outputDir"@.contains('='),
        !"vmlinuzPath"@.contains('\n'),
        !"vmlinuzPath"@.contains('='),
        !"mkinitcpioGenerated"@.contains('\n'),
        !"mkinitcpioGenerated"@.contains('='),
        !"grubEdited"@.contains('\n'),
        !"grubEdited"@.contains('='),
        !"dependenciesInstalled"@.contains('\n'),
        !"dependenciesInstalled"@.contains('='),
        !"1"@.contains('\n'),
        !"0"@.contains('\n'),
        "0"@ != "1"@,
        "="@.len() == 1,
        "\n"@.len() == 1,
        "isoTag"@.len() == 6,
        "isoName"@.len() == 7,
        "outputDir"@.len() == 9,
        "vmlinuzPath"@.len() == 11,
        "mkinitcpioGenerated"@.len() == 19,
        "grubEdited"@.len() == 10,
        "dependenciesInstalled"@.len() == 21,
{
    reveal_strlit("isoTag");
    reveal_strlit("isoName");
    reveal_strlit("outputDir");
    reveal_strlit("vmlinuzPath");
    reveal_strlit("mkinitcpioGenerated");
    reveal_strlit("grubEdited");
    reveal_strlit("dependenciesInstalled");
    reveal_strlit("1");
    reveal_strlit("0");
    reveal_strlit("\n");
    reveal_strlit("=");
    assert("0"@[0] == '0');
    assert("1"@[0] == '1');
    assert("0"@ != "1"@) by {
        if "0"@ == "1"@ {
            assert("0"@[0] == "1"@[0]);
        }
    }
}

/// Saving a record and reading it back restores it exactly: every string
/// field character for character, every flag through its `1`/`0` text.
/// Holds for every storable record, that is, whenever no string field
/// contains a line break.
pub proof fn lemma_config_round_trip(m: ConfigModel)
    requires
        storable(m),
    ensures
        spec_parse(spec_serialize(m)) == m,
{
    lemma_key_facts();
    let l1 = spec_kv_line("isoTag"@, m.iso_tag);
    let l2 = spec_kv_line("isoName"@, m.iso_name);
    let l3 = spec_kv_line("outputDir"@, m.output_dir);
    let l4 = spec_kv_line("vmlinuzPath"@, m.vmlinuz_path);
    let l5 = spec_kv_line("mkinitcpioGenerated"@, spec_bool_str(m.mkinitcpio_generated));
    let l6 = spec_kv_line("grubEdited"@, spec_bool_str(m.grub_edited));
    let l7 = spec_kv_line("dependenciesInstalled"@, spec_bool_str(m.dependencies_installed));
    let s = spec_serialize(m);
    assert(!spec_bool_str(m.mkinitcpio_generated).contains('\n')
        && !spec_bool_str(m.grub_edited).contains('\n') && !spec_bool_str(
        m.dependencies_installed,
    ).contains('\n'));

    let m0 = ConfigModel::empty();
    assert(s =~= l1 + (l2 + (l3 + (l4 + (l5 + (l6 + (l7 + Seq::<char>::empty())))))));

    lemma_parse_one_line("isoTag"@, m.iso_tag, l2 + (l3 + (l4 + (l5 + (l6 + (l7
        + Seq::<char>::empty()))))), m0);
    lemma_apply_known_line("isoTag"@, m.iso_tag);
    let m1 = spec_apply_line("isoTag"@ + "="@ + m.iso_tag, m0);
    assert(m1 == (ConfigModel { iso_tag: m.iso_tag, ..m0 }));

    lemma_parse_one_line("isoName"@, m.iso_name, l3 + (l4 + (l5 + (l6 + (l7
        + Seq::<char>::empty())))), m1);
    lemma_apply_known_line("isoName"@, m.iso_name);
    let m2 = spec_apply_line("isoName"@ + "="@ + m.iso_name, m1);
    assert(m2 == (ConfigModel { iso_name: m.iso_name, ..m1 }));

    lemma_parse_one_line("outputDir"@, m.output_dir, l4 + (l5 + (l6 + (l7
        + Seq::<char>::empty()))), m2);
    lemma_apply_known_line("outputDir"@, m.output_dir);
    let m3 = spec_apply_line("outputDir"@ + "="@ + m.output_dir, m2);
    assert(m3 == (ConfigModel { output_dir: m.output_dir, ..m2 }));

    lemma_parse_one_line("vmlinuzPath"@, m.vmlinuz_path, l5 + (l6 + (l7 + Seq::<char>::empty())),
        m3);
    lemma_apply_known_line("vmlinuzPath"@, m.vmlinuz_path);
    let m4 = spec_apply_line("vmlinuzPath"@ + "="@ + m.vmlinuz_path, m3);
    assert(m4 == (ConfigModel { vmlinuz_path: m.vmlinuz_path, ..m3 }));

    lemma_parse_one_line("mkinitcpioGenerated"@, spec_bool_str(m.mkinitcpio_generated), l6 + (l7
        + Seq::<char>::empty()), m4);
    lemma_apply_known_line("mkinitcpioGenerated"@, spec_bool_str(m.mkinitcpio_generated));
    let m5 = spec_apply_line(
        "mkinitcpioGenerated"@ + "="@ + spec_bool_str(m.mkinitcpio_generated),
        m4,
    );
    assert(m5 == (ConfigModel { mkinitcpio_generated: m.mkinitcpio_generated, ..m4 }));

    lemma_parse_one_line("grubEdited"@, spec_bool_str(m.grub_edited), l7 + Seq::<char>::empty(),
        m5);
    lemma_apply_known_line("grubEdited"@, spec_bool_str(m.grub_edited));
    let m6 = spec_apply_line("grubEdited"@ + "="@ + spec_bool_str(m.grub_edited), m5);
    assert(m6 == (ConfigModel { grub_edited: m.grub_edited, ..m5 }));

    lemma_parse_one_line("dependenciesInstalled"@, spec_bool_str(m.dependencies_installed),
        Seq::<char>::empty(), m6);
    lemma_apply_known_line("dependenciesInstalled"@, spec_bool_str(m.dependencies_installed));
    let m7 = spec_apply_line(
        "dependenciesInstalled"@ + "="@ + spec_bool_str(m.dependencies_installed),
        m6,
    );
    assert(m7 == (ConfigModel { dependencies_installed: m.dependencies_installed, ..m6 }));

    assert(spec_parse_from(Seq::<char>::empty(), m7) == m7);
    assert(m7 =~= m);
}

} // verus!
