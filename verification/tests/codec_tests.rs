use cmi::codec::{load_config, parse_config, serialize_config};
use cmi::config::{set_iso_name, set_iso_tag, ConfigState};

fn sample_config() -> ConfigState {
    let mut c = ConfigState::default();
    set_iso_tag(&mut c, "2025".to_string());
    set_iso_name(&mut c, "claudemods.iso".to_string());
    c.set_output_dir("/home/user/Downloads".to_string());
    c.set_vmlinuz_path("/boot/vmlinuz-linux".to_string());
    c.mark_mkinitcpio_generated();
    c.mark_dependencies_installed();
    c
}

#[test]
fn serialized_form_is_key_value_lines() {
    let c = sample_config();
    let text = serialize_config(&c);
    assert_eq!(
        text,
        "isoTag=2025\n\
         isoName=claudemods.iso\n\
         outputDir=/home/user/Downloads\n\
         vmlinuzPath=/boot/vmlinuz-linux\n\
         mkinitcpioGenerated=1\n\
         grubEdited=0\n\
         dependenciesInstalled=1\n"
    );
}

#[test]
fn round_trip_restores_every_field() {
    let c = sample_config();
    let text = serialize_config(&c);
    let d = parse_config(&text);
    assert_eq!(c.iso_tag, d.iso_tag);
    assert_eq!(c.iso_name, d.iso_name);
    assert_eq!(c.output_dir, d.output_dir);
    assert_eq!(c.vmlinuz_path, d.vmlinuz_path);
    assert_eq!(c.mkinitcpio_generated, d.mkinitcpio_generated);
    assert_eq!(c.grub_edited, d.grub_edited);
    assert_eq!(c.dependencies_installed, d.dependencies_installed);
}

#[test]
fn round_trip_keeps_booleans_through_their_encoding() {
    for bits in 0u32..8 {
        let mut c = ConfigState::default();
        if bits & 1 != 0 {
            c.mark_mkinitcpio_generated();
        }
        if bits & 2 != 0 {
            c.mark_grub_edited();
        }
        if bits & 4 != 0 {
            c.mark_dependencies_installed();
        }
        let d = parse_config(&serialize_config(&c));
        assert_eq!(c.mkinitcpio_generated, d.mkinitcpio_generated);
        assert_eq!(c.grub_edited, d.grub_edited);
        assert_eq!(c.dependencies_installed, d.dependencies_installed);
    }
}

#[test]
fn missing_file_loads_the_default_record() {
    let c = load_config(None);
    assert_eq!(c.iso_tag, "");
    assert_eq!(c.iso_name, "");
    assert_eq!(c.output_dir, "");
    assert_eq!(c.vmlinuz_path, "");
    assert!(!c.mkinitcpio_generated);
    assert!(!c.grub_edited);
    assert!(!c.dependencies_installed);
}

#[test]
fn empty_file_loads_the_default_record() {
    let c = load_config(Some(""));
    assert_eq!(c.iso_tag, "");
    assert!(!c.dependencies_installed);
    assert!(!c.is_ready_for_iso());
}

#[test]
fn unknown_keys_are_ignored() {
    let c = parse_config("futureKey=something\nisoTag=abc\nanother=1\n");
    assert_eq!(c.iso_tag, "abc");
    assert_eq!(c.iso_name, "");
}

#[test]
fn lines_without_equals_are_ignored() {
    let c = parse_config("garbage line\nisoName=x.iso\n");
    assert_eq!(c.iso_name, "x.iso");
}

#[test]
fn value_keeps_everything_after_the_first_equals() {
    let c = parse_config("outputDir=/o=u=t\n");
    assert_eq!(c.output_dir, "/o=u=t");
}

#[test]
fn boolean_fields_read_one_as_true_and_anything_else_as_false() {
    let c = parse_config("grubEdited=1\nmkinitcpioGenerated=0\ndependenciesInstalled=yes\n");
    assert!(c.grub_edited);
    assert!(!c.mkinitcpio_generated);
    assert!(!c.dependencies_installed);
}

#[test]
fn later_lines_overwrite_earlier_ones() {
    let c = parse_config("isoTag=first\nisoTag=second\n");
    assert_eq!(c.iso_tag, "second");
}

#[test]
fn final_line_without_newline_still_counts() {
    let c = parse_config("isoTag=abc");
    assert_eq!(c.iso_tag, "abc");
}
