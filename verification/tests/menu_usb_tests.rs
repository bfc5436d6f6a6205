use cmi::menus::{
    command_installer_menu, filesystem_menu, image_main_menu, image_setup_menu, iso_creator_menu,
    main_menu, menu_move, setup_script_menu, squashfs_menu, CommandInstallerChoice,
    FilesystemChoice, ImageMainChoice, ImageSetupChoice, IsoCreatorChoice, MainMenuChoice,
    SetupScriptChoice, SquashfsChoice,
};
use cmi::usb::{filter_iso_files, usb_write_plan, UsbDecision};

#[test]
fn selection_moves_within_bounds() {
    assert_eq!(menu_move(0, 3, 'A'), 0);
    assert_eq!(menu_move(1, 3, 'A'), 0);
    assert_eq!(menu_move(2, 3, 'B'), 2);
    assert_eq!(menu_move(1, 3, 'B'), 2);
    assert_eq!(menu_move(1, 3, 'x'), 1);
    assert_eq!(menu_move(1, 3, '\n'), 1);
}

#[test]
fn iso_creator_menu_dispatches_by_selection() {
    assert_eq!(iso_creator_menu(0, '\n').1, IsoCreatorChoice::CreateIso);
    assert_eq!(iso_creator_menu(1, '\n').1, IsoCreatorChoice::RunQemu);
    assert_eq!(iso_creator_menu(2, '\n').1, IsoCreatorChoice::Back);
    assert_eq!(iso_creator_menu(0, 'B'), (1, IsoCreatorChoice::Stay));
    assert_eq!(iso_creator_menu(0, 'A'), (0, IsoCreatorChoice::Stay));
}

#[test]
fn squashfs_menu_dispatches_by_selection() {
    assert_eq!(squashfs_menu(0, '\n').1, SquashfsChoice::MaxCompression);
    assert_eq!(squashfs_menu(1, '\n').1, SquashfsChoice::CreateFromClone);
    assert_eq!(squashfs_menu(2, '\n').1, SquashfsChoice::DeleteClone);
    assert_eq!(squashfs_menu(3, '\n').1, SquashfsChoice::Back);
    assert_eq!(squashfs_menu(3, 'B'), (3, SquashfsChoice::Stay));
}

#[test]
fn setup_script_menu_dispatches_by_selection() {
    assert_eq!(setup_script_menu(0, '\n').1, SetupScriptChoice::GenerateInit);
    assert_eq!(setup_script_menu(1, '\n').1, SetupScriptChoice::EditIsolinux);
    assert_eq!(setup_script_menu(2, '\n').1, SetupScriptChoice::EditGrub);
    assert_eq!(setup_script_menu(3, '\n').1, SetupScriptChoice::SetCloneDir);
    assert_eq!(setup_script_menu(4, '\n').1, SetupScriptChoice::InstallUpdater);
    assert_eq!(setup_script_menu(5, '\n').1, SetupScriptChoice::Back);
    assert_eq!(setup_script_menu(2, 'A'), (1, SetupScriptChoice::Stay));
}

#[test]
fn command_installer_menu_dispatches_by_selection() {
    assert_eq!(command_installer_menu(0, '\n').1, CommandInstallerChoice::Activate);
    assert_eq!(command_installer_menu(1, '\n').1, CommandInstallerChoice::Deactivate);
    assert_eq!(command_installer_menu(2, '\n').1, CommandInstallerChoice::Back);
}

#[test]
fn main_menus_dispatch_by_selection() {
    assert_eq!(main_menu(0, '\n').1, MainMenuChoice::SquashfsCreator);
    assert_eq!(main_menu(4, '\n').1, MainMenuChoice::Exit);
    assert_eq!(image_main_menu(2, '\n').1, ImageMainChoice::CreateImage);
    assert_eq!(image_main_menu(8, '\n').1, ImageMainChoice::Exit);
    assert_eq!(image_main_menu(5, '\n').1, ImageMainChoice::InstallIsoToUsb);
    assert_eq!(image_setup_menu(4, '\n').1, ImageSetupChoice::SelectVmlinuz);
    assert_eq!(image_setup_menu(7, '\n').1, ImageSetupChoice::Back);
    assert_eq!(filesystem_menu(0, '\n').1, FilesystemChoice::Btrfs);
    assert_eq!(filesystem_menu(1, '\n').1, FilesystemChoice::Ext4);
    assert_eq!(filesystem_menu(0, 'B').0, 1);
}

#[test]
fn iso_listing_keeps_only_iso_files() {
    let names = vec![
        "a.iso".to_string(),
        "notes.txt".to_string(),
        "b.iso".to_string(),
        "iso".to_string(),
    ];
    assert_eq!(filter_iso_files(&names), vec!["a.iso".to_string(), "b.iso".to_string()]);
    assert!(filter_iso_files(&Vec::new()).is_empty());
}

#[test]
fn usb_write_needs_files_selection_drive_and_consent() {
    let files = vec!["a.iso".to_string(), "b.iso".to_string()];
    assert!(matches!(
        usb_write_plan(&Vec::new(), "1", "/out", "/dev/sda", "y"),
        UsbDecision::NoIsoFiles
    ));
    assert!(matches!(
        usb_write_plan(&files, "3", "/out", "/dev/sda", "y"),
        UsbDecision::InvalidSelection
    ));
    assert!(matches!(
        usb_write_plan(&files, "x", "/out", "/dev/sda", "y"),
        UsbDecision::InvalidSelection
    ));
    assert!(matches!(
        usb_write_plan(&files, "1", "/out", "", "y"),
        UsbDecision::MissingDrive
    ));
}

#[test]
fn non_affirmative_answer_is_a_no_op() {
    let files = vec!["a.iso".to_string()];
    assert!(matches!(
        usb_write_plan(&files, "1", "/out", "/dev/sda", "n"),
        UsbDecision::Cancelled
    ));
    assert!(matches!(
        usb_write_plan(&files, "1", "/out", "/dev/sda", ""),
        UsbDecision::Cancelled
    ));
    assert!(matches!(
        usb_write_plan(&files, "1", "/out", "/dev/sda", "yes"),
        UsbDecision::Cancelled
    ));
}

#[test]
fn affirmed_write_copies_the_selected_iso() {
    let files = vec!["a.iso".to_string(), "b.iso".to_string()];
    match usb_write_plan(&files, "2", "/home/bob/out", "/dev/sdb", "Y") {
        UsbDecision::Write(cmd) => assert_eq!(
            cmd,
            "sudo dd if=/home/bob/out/b.iso of=/dev/sdb bs=4M status=progress oflag=sync"
        ),
        other => panic!("expected a write, got {:?}", other),
    }
}
