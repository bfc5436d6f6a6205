//! Menu navigation, decided one key at a time.
//!
//! The terminal layer shows the items and reads a raw key; each function
//! here takes the current selection and the key and answers with the new
//! selection and the action to take.  The arrow keys arrive as the final
//! bytes of their escape sequences, `A` for up and `B` for down; the
//! return key dispatches the selected item.

use vstd::prelude::*;

verus! {

/// Where the selection moves on one key: up and down stop at the ends,
/// any other key leaves it in place.
pub open spec fn spec_menu_move(selected: int, len: int, key: char) -> int {
    if key == 'A' && selected > 0 {
        selected - 1
    } else if key == 'B' && selected < len - 1 {
        selected + 1
    } else {
        selected
    }
}

/// Move the selection within a menu of `len` items.
pub fn menu_move(selected: usize, len: usize, key: char) -> (r: usize)
    requires
        0 < len,
        selected < len,
    ensures
        r as int == spec_menu_move(selected as int, len as int, key),
        r < len,
{
    if key == 'A' && selected > 0 {
        selected - 1
    } else if key == 'B' && selected < len - 1 {
        selected + 1
    } else {
        selected
    }
}

/// What the ISO-creator menu does on the return key.
#[derive(Clone, Copy, PartialEq, Eq, Structural, Debug)]
pub enum IsoCreatorChoice {
    CreateIso,
    RunQemu,
    Back,
    Stay,
}

pub open spec fn spec_iso_creator_choice(selected: int, key: char) -> IsoCreatorChoice {
    if key != '\n' {
        IsoCreatorChoice::Stay
    } else if selected == 0 {
        IsoCreatorChoice::CreateIso
    } else if selected == 1 {
        IsoCreatorChoice::RunQemu
    } else {
        IsoCreatorChoice::Back
    }
}

/// One key of the ISO-creator menu: create, run in the emulator, or go
/// back.
pub fn iso_creator_menu(selected: usize, key: char) -> (r: (usize, IsoCreatorChoice))
    requires
        selected < 3,
    ensures
        r.0 as int == spec_menu_move(selected as int, 3, key),
        r.0 < 3,
        r.1 == spec_iso_creator_choice(selected as int, key),
{
    let moved = menu_move(selected, 3, key);
    let choice = if key != '\n' {
        IsoCreatorChoice::Stay
    } else if selected == 0 {
        IsoCreatorChoice::CreateIso
    } else if selected == 1 {
        IsoCreatorChoice::RunQemu
    } else {
        IsoCreatorChoice::Back
    };
    (moved, choice)
}

/// What the SquashFS menu does on the return key.
#[derive(Clone, Copy, PartialEq, Eq, Structural, Debug)]
pub enum SquashfsChoice {
    /// Clone first when no staged copy is there, then compress.
    MaxCompression,
    /// Compress the staged copy as it is.
    CreateFromClone,
    /// Remove the staged copy and the artifact.
    DeleteClone,
    Back,
    Stay,
}

pub open spec fn spec_squashfs_choice(selected: int, key: char) -> SquashfsChoice {
    if key != '\n' {
        SquashfsChoice::Stay
    } else if selected == 0 {
        SquashfsChoice::MaxCompression
    } else if selected == 1 {
        SquashfsChoice::CreateFromClone
    } else if selected == 2 {
        SquashfsChoice::DeleteClone
    } else {
        SquashfsChoice::Back
    }
}

/// One key of the SquashFS-creator menu.
pub fn squashfs_menu(selected: usize, key: char) -> (r: (usize, SquashfsChoice))
    requires
        selected < 4,
    ensures
        r.0 as int == spec_menu_move(selected as int, 4, key),
        r.0 < 4,
        r.1 == spec_squashfs_choice(selected as int, key),
{
    let moved = menu_move(selected, 4, key);
    let choice = if key != '\n' {
        SquashfsChoice::Stay
    } else if selected == 0 {
        SquashfsChoice::MaxCompression
    } else if selected == 1 {
        SquashfsChoice::CreateFromClone
    } else if selected == 2 {
        SquashfsChoice::DeleteClone
    } else {
        SquashfsChoice::Back
    };
    (moved, choice)
}

/// What the setup-script menu does on the return key.
#[derive(Clone, Copy, PartialEq, Eq, Structural, Debug)]
pub enum SetupScriptChoice {
    GenerateInit,
    EditIsolinux,
    EditGrub,
    SetCloneDir,
    InstallUpdater,
    Back,
    Stay,
}

pub open spec fn spec_setup_script_choice(selected: int, key: char) -> SetupScriptChoice {
    if key != '\n' {
        SetupScriptChoice::Stay
    } else if selected == 0 {
        SetupScriptChoice::GenerateInit
    } else if selected == 1 {
        SetupScriptChoice::EditIsolinux
    } else if selected == 2 {
        SetupScriptChoice::EditGrub
    } else if selected == 3 {
        SetupScriptChoice::SetCloneDir
    } else if selected == 4 {
        SetupScriptChoice::InstallUpdater
    } else {
        SetupScriptChoice::Back
    }
}

/// One key of the setup-script menu.
pub fn setup_script_menu(selected: usize, key: char) -> (r: (usize, SetupScriptChoice))
    requires
        selected < 6,
    ensures
        r.0 as int == spec_menu_move(selected as int, 6, key),
        r.0 < 6,
        r.1 == spec_setup_script_choice(selected as int, key),
{
    let moved = menu_move(selected, 6, key);
    let choice = if key != '\n' {
        SetupScriptChoice::Stay
    } else if selected == 0 {
        SetupScriptChoice::GenerateInit
    } else if selected == 1 {
        SetupScriptChoice::EditIsolinux
    } else if selected == 2 {
        SetupScriptChoice::EditGrub
    } else if selected == 3 {
        SetupScriptChoice::SetCloneDir
    } else if selected == 4 {
        SetupScriptChoice::InstallUpdater
    } else {
        SetupScriptChoice::Back
    };
    (moved, choice)
}

/// What the command-installer menu does on the return key.
#[derive(Clone, Copy, PartialEq, Eq, Structural, Debug)]
pub enum CommandInstallerChoice {
    Activate,
    Deactivate,
    Back,
    Stay,
}

pub open spec fn spec_command_installer_choice(selected: int, key: char) -> CommandInstallerChoice {
    if key != '\n' {
        CommandInstallerChoice::Stay
    } else if selected == 0 {
        CommandInstallerChoice::Activate
    } else if selected == 1 {
        CommandInstallerChoice::Deactivate
    } else {
        CommandInstallerChoice::Back
    }
}

/// One key of the command-installer menu.
pub fn command_installer_menu(selected: usize, key: char) -> (r: (usize, CommandInstallerChoice))
    requires
        selected < 3,
    ensures
        r.0 as int == spec_menu_move(selected as int, 3, key),
        r.0 < 3,
        r.1 == spec_command_installer_choice(selected as int, key),
{
    let moved = menu_move(selected, 3, key);
    let choice = if key != '\n' {
        CommandInstallerChoice::Stay
    } else if selected == 0 {
        CommandInstallerChoice::Activate
    } else if selected == 1 {
        CommandInstallerChoice::Deactivate
    } else {
        CommandInstallerChoice::Back
    };
    (moved, choice)
}

/// What the multi-distribution tool's main menu does on the return key.
#[derive(Clone, Copy, PartialEq, Eq, Structural, Debug)]
pub enum MainMenuChoice {
    SquashfsCreator,
    IsoCreator,
    SetupScript,
    CommandInstaller,
    Exit,
    Stay,
}

pub open spec fn spec_main_menu_choice(selected: int, key: char) -> MainMenuChoice {
    if key != '\n' {
        MainMenuChoice::Stay
    } else if selected == 0 {
        MainMenuChoice::SquashfsCreator
    } else if selected == 1 {
        MainMenuChoice::IsoCreator
    } else if selected == 2 {
        MainMenuChoice::SetupScript
    } else if selected == 3 {
        MainMenuChoice::CommandInstaller
    } else {
        MainMenuChoice::Exit
    }
}

/// One key of the multi-distribution tool's main menu.
pub fn main_menu(selected: usize, key: char) -> (r: (usize, MainMenuChoice))
    requires
        selected < 5,
    ensures
        r.0 as int == spec_menu_move(selected as int, 5, key),
        r.0 < 5,
        r.1 == spec_main_menu_choice(selected as int, key),
{
    let moved = menu_move(selected, 5, key);
    let choice = if key != '\n' {
        MainMenuChoice::Stay
    } else if selected == 0 {
        MainMenuChoice::SquashfsCreator
    } else if selected == 1 {
        MainMenuChoice::IsoCreator
    } else if selected == 2 {
        MainMenuChoice::SetupScript
    } else if selected == 3 {
        MainMenuChoice::CommandInstaller
    } else {
        MainMenuChoice::Exit
    };
    (moved, choice)
}

/// What the image tool's main menu does on the return key.
#[derive(Clone, Copy, PartialEq, Eq, Structural, Debug)]
pub enum ImageMainChoice {
    Guide,
    SetupScripts,
    CreateImage,
    CreateIso,
    ShowDiskUsage,
    InstallIsoToUsb,
    CmiInstaller,
    UpdateScript,
    Exit,
    Stay,
}

pub open spec fn spec_image_main_choice(selected: int, key: char) -> ImageMainChoice {
    if key != '\n' {
        ImageMainChoice::Stay
    } else if selected == 0 {
        ImageMainChoice::Guide
    } else if selected == 1 {
        ImageMainChoice::SetupScripts
    } else if selected == 2 {
        ImageMainChoice::CreateImage
    } else if selected == 3 {
        ImageMainChoice::CreateIso
    } else if selected == 4 {
        ImageMainChoice::ShowDiskUsage
    } else if selected == 5 {
        ImageMainChoice::InstallIsoToUsb
    } else if selected == 6 {
        ImageMainChoice::CmiInstaller
    } else if selected == 7 {
        ImageMainChoice::UpdateScript
    } else {
        ImageMainChoice::Exit
    }
}

/// One key of the image tool's main menu.
pub fn image_main_menu(selected: usize, key: char) -> (r: (usize, ImageMainChoice))
    requires
        selected < 9,
    ensures
        r.0 as int == spec_menu_move(selected as int, 9, key),
        r.0 < 9,
        r.1 == spec_image_main_choice(selected as int, key),
{
    let moved = menu_move(selected, 9, key);
    let choice = if key != '\n' {
        ImageMainChoice::Stay
    } else if selected == 0 {
        ImageMainChoice::Guide
    } else if selected == 1 {
        ImageMainChoice::SetupScripts
    } else if selected == 2 {
        ImageMainChoice::CreateImage
    } else if selected == 3 {
        ImageMainChoice::CreateIso
    } else if selected == 4 {
        ImageMainChoice::ShowDiskUsage
    } else if selected == 5 {
        ImageMainChoice::InstallIsoToUsb
    } else if selected == 6 {
        ImageMainChoice::CmiInstaller
    } else if selected == 7 {
        ImageMainChoice::UpdateScript
    } else {
        ImageMainChoice::Exit
    };
    (moved, choice)
}

/// What the image tool's setup menu does on the return key.
#[derive(Clone, Copy, PartialEq, Eq, Structural, Debug)]
pub enum ImageSetupChoice {
    InstallDependencies,
    SetIsoTag,
    SetIsoName,
    SetOutputDir,
    SelectVmlinuz,
    GenerateMkinitcpio,
    EditGrubCfg,
    Back,
    Stay,
}

pub open spec fn spec_image_setup_choice(selected: int, key: char) -> ImageSetupChoice {
    if key != '\n' {
        ImageSetupChoice::Stay
    } else if selected == 0 {
        ImageSetupChoice::InstallDependencies
    } else if selected == 1 {
        ImageSetupChoice::SetIsoTag
    } else if selected == 2 {
        ImageSetupChoice::SetIsoName
    } else if selected == 3 {
        ImageSetupChoice::SetOutputDir
    } else if selected == 4 {
        ImageSetupChoice::SelectVmlinuz
    } else if selected == 5 {
        ImageSetupChoice::GenerateMkinitcpio
    } else if selected == 6 {
        ImageSetupChoice::EditGrubCfg
    } else {
        ImageSetupChoice::Back
    }
}

/// One key of the image tool's setup menu.
pub fn image_setup_menu(selected: usize, key: char) -> (r: (usize, ImageSetupChoice))
    requires
        selected < 8,
    ensures
        r.0 as int == spec_menu_move(selected as int, 8, key),
        r.0 < 8,
        r.1 == spec_image_setup_choice(selected as int, key),
{
    let moved = menu_move(selected, 8, key);
    let choice = if key != '\n' {
        ImageSetupChoice::Stay
    } else if selected == 0 {
        ImageSetupChoice::InstallDependencies
    } else if selected == 1 {
        ImageSetupChoice::SetIsoTag
    } else if selected == 2 {
        ImageSetupChoice::SetIsoName
    } else if selected == 3 {
        ImageSetupChoice::SetOutputDir
    } else if selected == 4 {
        ImageSetupChoice::SelectVmlinuz
    } else if selected == 5 {
        ImageSetupChoice::GenerateMkinitcpio
    } else if selected == 6 {
        ImageSetupChoice::EditGrubCfg
    } else {
        ImageSetupChoice::Back
    };
    (moved, choice)
}

/// What the filesystem-type menu does on the return key.
#[derive(Clone, Copy, PartialEq, Eq, Structural, Debug)]
pub enum FilesystemChoice {
    Btrfs,
    Ext4,
    Stay,
}

pub open spec fn spec_filesystem_choice(selected: int, key: char) -> FilesystemChoice {
    if key != '\n' {
        FilesystemChoice::Stay
    } else if selected == 0 {
        FilesystemChoice::Btrfs
    } else {
        FilesystemChoice::Ext4
    }
}

/// One key of the filesystem-type menu: Btrfs or ext4.
pub fn filesystem_menu(selected: usize, key: char) -> (r: (usize, FilesystemChoice))
    requires
        selected < 2,
    ensures
        r.0 as int == spec_menu_move(selected as int, 2, key),
        r.0 < 2,
        r.1 == spec_filesystem_choice(selected as int, key),
{
    let moved = menu_move(selected, 2, key);
    let choice = if key != '\n' {
        FilesystemChoice::Stay
    } else if selected == 0 {
        FilesystemChoice::Btrfs
    } else {
        FilesystemChoice::Ext4
    };
    (moved, choice)
}

} // verus!
