//! The persisted build configuration: user-supplied metadata and the
//! completion flags of the pipeline stages.
//!
//! The record is loaded once at start-up and written back after every
//! successful stage; `codec` gives the flat `key=value` text form.

use vstd::prelude::*;

verus! {

/// Mathematical model of a configuration record.
#[verifier::ext_equal]
pub ghost struct ConfigModel {
    pub iso_tag: Seq<char>,
    pub iso_name: Seq<char>,
    pub output_dir: Seq<char>,
    pub vmlinuz_path: Seq<char>,
    pub mkinitcpio_generated: bool,
    pub grub_edited: bool,
    pub dependencies_installed: bool,
}

impl ConfigModel {
    /// The record a first run starts from: every string empty, every flag off.
    pub open spec fn empty() -> ConfigModel {
        ConfigModel {
            iso_tag: Seq::empty(),
            iso_name: Seq::empty(),
            output_dir: Seq::empty(),
            vmlinuz_path: Seq::empty(),
            mkinitcpio_generated: false,
            grub_edited: false,
            dependencies_installed: false,
        }
    }

    /// The ISO stage may run only when all seven constituents hold:
    /// the four strings are set and the three stage flags are on.
    pub open spec fn ready_for_iso(self) -> bool {
        &&& self.iso_tag.len() > 0
        &&& self.iso_name.len() > 0
        &&& self.output_dir.len() > 0
        &&& self.vmlinuz_path.len() > 0
        &&& self.mkinitcpio_generated
        &&& self.grub_edited
        &&& self.dependencies_installed
    }
}

/// Build configuration as held in memory and persisted between runs.
pub struct ConfigState {
    pub iso_tag: String,
    pub iso_name: String,
    pub output_dir: String,
    pub vmlinuz_path: String,
    pub mkinitcpio_generated: bool,
    pub grub_edited: bool,
    pub dependencies_installed: bool,
}

impl View for ConfigState {
    type V = ConfigModel;

    open spec fn view(&self) -> ConfigModel {
        ConfigModel {
            iso_tag: self.iso_tag@,
            iso_name: self.iso_name@,
            output_dir: self.output_dir@,
            vmlinuz_path: self.vmlinuz_path@,
            mkinitcpio_generated: self.mkinitcpio_generated,
            grub_edited: self.grub_edited,
            dependencies_installed: self.dependencies_installed,
        }
    }
}

impl Clone for ConfigState {
    fn clone(&self) -> (r: Self)
        ensures
            r@ == self@,
    {
        ConfigState {
            iso_tag: self.iso_tag.clone(),
            iso_name: self.iso_name.clone(),
            output_dir: self.output_dir.clone(),
            vmlinuz_path: self.vmlinuz_path.clone(),
            mkinitcpio_generated: self.mkinitcpio_generated,
            grub_edited: self.grub_edited,
            dependencies_installed: self.dependencies_installed,
        }
    }
}

impl Default for ConfigState {
    /// The all-empty, all-false record of a first run.
    fn default() -> (r: Self)
        ensures
            r@ == ConfigModel::empty(),
    {
        let r = ConfigState {
            iso_tag: String::new(),
            iso_name: String::new(),
            output_dir: String::new(),
            vmlinuz_path: String::new(),
            mkinitcpio_generated: false,
            grub_edited: false,
            dependencies_installed: false,
        };
        proof {
            assert(r@ =~= ConfigModel::empty());
        }
        r
    }
}

impl ConfigState {
    /// True exactly when every one of the seven readiness conditions holds.
    pub fn is_ready_for_iso(&self) -> (r: bool)
        ensures
            r == self@.ready_for_iso(),
    {
        !self.iso_tag.as_str().is_empty() && !self.iso_name.as_str().is_empty()
            && !self.output_dir.as_str().is_empty() && !self.vmlinuz_path.as_str().is_empty()
            && self.mkinitcpio_generated && self.grub_edited && self.dependencies_installed
    }

    /// Record that the dependency-install stage finished; nothing else moves.
    pub fn mark_dependencies_installed(&mut self)
        ensures
            final(self)@ == (ConfigModel { dependencies_installed: true, ..old(self)@ }),
    {
        self.dependencies_installed = true;
    }

    /// Record that the initramfs was generated; nothing else moves.
    pub fn mark_mkinitcpio_generated(&mut self)
        ensures
            final(self)@ == (ConfigModel { mkinitcpio_generated: true, ..old(self)@ }),
    {
        self.mkinitcpio_generated = true;
    }

    /// Record that the bootloader configuration was edited; nothing else moves.
    pub fn mark_grub_edited(&mut self)
        ensures
            final(self)@ == (ConfigModel { grub_edited: true, ..old(self)@ }),
    {
        self.grub_edited = true;
    }

    /// Record the selected kernel image path; nothing else moves.
    pub fn set_vmlinuz_path(&mut self, path: String)
        ensures
            final(self)@ == (ConfigModel { vmlinuz_path: path@, ..old(self)@ }),
    {
        self.vmlinuz_path = path;
    }

    /// Record the output directory; nothing else moves.
    pub fn set_output_dir(&mut self, dir: String)
        ensures
            final(self)@ == (ConfigModel { output_dir: dir@, ..old(self)@ }),
    {
        self.output_dir = dir;
    }
}

/// Readiness is a monotonic AND-gate: a step that keeps the strings and
/// only turns flags on can never un-make a ready record.
pub proof fn lemma_readiness_monotonic(before: ConfigModel, after: ConfigModel)
    requires
        after.iso_tag == before.iso_tag,
        after.iso_name == before.iso_name,
        after.output_dir == before.output_dir,
        after.vmlinuz_path == before.vmlinuz_path,
        before.mkinitcpio_generated ==> after.mkinitcpio_generated,
        before.grub_edited ==> after.grub_edited,
        before.dependencies_installed ==> after.dependencies_installed,
    ensures
        before.ready_for_iso() ==> after.ready_for_iso(),
{
}

/// Store the volume-label token for the ISO; nothing else moves.
pub fn set_iso_tag(config: &mut ConfigState, tag: String)
    ensures
        final(config)@ == (ConfigModel { iso_tag: tag@, ..old(config)@ }),
{
    config.iso_tag = tag;
}

/// Store the output file base name for the ISO; nothing else moves.
pub fn set_iso_name(config: &mut ConfigState, name: String)
    ensures
        final(config)@ == (ConfigModel { iso_name: name@, ..old(config)@ }),
{
    config.iso_name = name;
}

} // verus!
