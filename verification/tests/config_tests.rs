use cmi::config::{set_iso_name, set_iso_tag, ConfigState};
use cmi::gates::{
    can_create_iso, can_edit_bootloader_config, can_generate_initramfs, can_install_dependencies,
    can_select_kernel, can_set_metadata, can_write_to_usb,
};

fn config_from_bits(bits: u32) -> ConfigState {
    let mut c = ConfigState::default();
    if bits & 1 != 0 {
        set_iso_tag(&mut c, "2025".to_string());
    }
    if bits & 2 != 0 {
        set_iso_name(&mut c, "live.iso".to_string());
    }
    if bits & 4 != 0 {
        c.set_output_dir("/home/user/out".to_string());
    }
    if bits & 8 != 0 {
        c.set_vmlinuz_path("/boot/vmlinuz-linux".to_string());
    }
    if bits & 16 != 0 {
        c.mark_mkinitcpio_generated();
    }
    if bits & 32 != 0 {
        c.mark_grub_edited();
    }
    if bits & 64 != 0 {
        c.mark_dependencies_installed();
    }
    c
}

#[test]
fn ready_for_iso_iff_all_seven_conditions() {
    for bits in 0u32..128 {
        let c = config_from_bits(bits);
        let expected = bits == 127;
        assert_eq!(c.is_ready_for_iso(), expected, "bits {:#09b}", bits);
    }
}

#[test]
fn default_config_is_all_empty_and_false() {
    let c = ConfigState::default();
    assert_eq!(c.iso_tag, "");
    assert_eq!(c.iso_name, "");
    assert_eq!(c.output_dir, "");
    assert_eq!(c.vmlinuz_path, "");
    assert!(!c.mkinitcpio_generated);
    assert!(!c.grub_edited);
    assert!(!c.dependencies_installed);
    assert!(!c.is_ready_for_iso());
}

#[test]
fn setters_touch_only_their_field() {
    let mut c = ConfigState::default();
    set_iso_tag(&mut c, "tag".to_string());
    assert_eq!(c.iso_tag, "tag");
    assert_eq!(c.iso_name, "");
    set_iso_name(&mut c, "name.iso".to_string());
    assert_eq!(c.iso_name, "name.iso");
    assert_eq!(c.iso_tag, "tag");
    assert!(!c.dependencies_installed);
    c.mark_dependencies_installed();
    assert!(c.dependencies_installed);
    assert_eq!(c.iso_tag, "tag");
}

#[test]
fn flags_only_move_from_false_to_true() {
    let mut c = ConfigState::default();
    c.mark_mkinitcpio_generated();
    c.mark_grub_edited();
    c.mark_dependencies_installed();
    assert!(c.mkinitcpio_generated && c.grub_edited && c.dependencies_installed);
    // marking again keeps them set
    c.mark_mkinitcpio_generated();
    assert!(c.mkinitcpio_generated && c.grub_edited && c.dependencies_installed);
}

#[test]
fn gates_match_their_fields() {
    assert!(can_install_dependencies());
    assert!(can_set_metadata());
    assert!(!can_select_kernel(&Vec::new()));
    assert!(can_select_kernel(&vec!["/boot/vmlinuz-linux".to_string()]));
    let mut c = ConfigState::default();
    assert!(!can_generate_initramfs(&c));
    c.set_vmlinuz_path("/boot/vmlinuz-linux".to_string());
    assert!(can_generate_initramfs(&c));
    assert!(!can_edit_bootloader_config(false));
    assert!(can_edit_bootloader_config(true));
    assert!(!can_write_to_usb(&c, &vec!["a.iso".to_string()]));
    c.set_output_dir("/out".to_string());
    assert!(can_write_to_usb(&c, &vec!["a.iso".to_string()]));
    assert!(!can_write_to_usb(&c, &Vec::new()));
}

#[test]
fn gates_are_pure_across_repeated_calls() {
    let c = config_from_bits(127);
    let first = can_create_iso(&c);
    let second = can_create_iso(&c);
    assert_eq!(first, second);
    assert!(first);
    let d = config_from_bits(5);
    assert_eq!(can_create_iso(&d), can_create_iso(&d));
    assert_eq!(can_generate_initramfs(&d), can_generate_initramfs(&d));
    // the calls changed nothing
    assert_eq!(d.iso_tag, config_from_bits(5).iso_tag);
    assert_eq!(d.dependencies_installed, config_from_bits(5).dependencies_installed);
}

#[test]
fn clone_copies_every_field() {
    let c = config_from_bits(127);
    let d = c.clone();
    assert_eq!(c.iso_tag, d.iso_tag);
    assert_eq!(c.iso_name, d.iso_name);
    assert_eq!(c.output_dir, d.output_dir);
    assert_eq!(c.vmlinuz_path, d.vmlinuz_path);
    assert_eq!(c.mkinitcpio_generated, d.mkinitcpio_generated);
    assert_eq!(c.grub_edited, d.grub_edited);
    assert_eq!(c.dependencies_installed, d.dependencies_installed);
}
