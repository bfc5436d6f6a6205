//! The optional USB write stage: pick a produced ISO, name a target
//! block device, and confirm before anything irreversible happens.
//!
//! The raw block-level copy runs with a fixed 4 MiB block size and
//! synchronous output.  A non-affirmative answer to the confirmation is
//! a no-op, never an error.

use crate::sizes::{digits_val, parse_index, spec_index_valid};
use crate::strutil::is_suffix;
use vstd::prelude::*;

verus! {

/// The produced ISO files among a directory listing: every name ending
/// in `.iso`, in order.
pub open spec fn spec_filter_iso(names: Seq<Seq<char>>) -> Seq<Seq<char>>
    decreases names.len(),
{
    if names.len() == 0 {
        Seq::empty()
    } else {
        spec_filter_iso(names.drop_last()) + (if is_suffix(".iso"@, names.last()) {
            seq![names.last()]
        } else {
            Seq::empty()
        })
    }
}

/// Pick the ISO files out of a directory listing.
pub fn filter_iso_files(names: &Vec<String>) -> (r: Vec<String>)
    ensures
        r.deep_view() == spec_filter_iso(names.deep_view()),
{
    let mut r: Vec<String> = Vec::new();
    let mut i: usize = 0;
    proof {
        assert(names.deep_view().take(0) =~= Seq::<Seq<char>>::empty());
        assert(r.deep_view() =~~= spec_filter_iso(names.deep_view().take(0)));
    }
    while i < names.len()
        invariant
            i <= names.len(),
            r.deep_view() == spec_filter_iso(names.deep_view().take(i as int)),
        decreases names.len() - i,
    {
        proof {
            assert(names.deep_view().take(i + 1).drop_last() =~= names.deep_view().take(i as int));
            assert(names.deep_view().take(i + 1).last() == names.deep_view()[i as int]);
        }
        let name = &names[i];
        if crate::strutil::has_suffix(name.as_str(), ".iso") {
            r.push(name.clone());
            proof {
                assert(r.deep_view() =~~= spec_filter_iso(names.deep_view().take(i + 1)));
            }
        } else {
            proof {
                assert(r.deep_view() =~~= spec_filter_iso(names.deep_view().take(i + 1)));
            }
        }
        i += 1;
    }
    proof {
        assert(names.deep_view().take(names.deep_view().len() as int) =~= names.deep_view());
    }
    r
}

/// The decided outcome of the USB write stage.
#[derive(Debug)]
pub enum UsbDecision {
    /// Nothing to write: the output directory holds no ISO file.
    NoIsoFiles,
    /// The selection entry is not a number naming a listed file.
    InvalidSelection,
    /// No target block device was given.
    MissingDrive,
    /// The operator did not affirm: nothing happens, and that is fine.
    Cancelled,
    /// Affirmed: the raw copy command to run.
    Write(String),
}

/// The raw block-level copy of one ISO onto one device.
pub open spec fn spec_dd_cmd(iso_path: Seq<char>, target_drive: Seq<char>) -> Seq<char> {
    "sudo dd if="@ + iso_path + " of="@ + target_drive + " bs=4M status=progress oflag=sync"@
}

/// Is the confirmation affirmative?  Only a plain `y` or `Y` is.
pub open spec fn spec_confirmed(confirm: Seq<char>) -> bool {
    confirm == "y"@ || confirm == "Y"@
}

/// Decide the USB write: which ISO, onto which device, and only if the
/// operator affirmed.  Everything short of an affirmed, well-formed
/// request yields no command.
pub fn usb_write_plan(
    iso_files: &Vec<String>,
    selection: &str,
    expanded_output_dir: &str,
    target_drive: &str,
    confirm: &str,
) -> (r: UsbDecision)
    ensures
        iso_files@.len() == 0 <==> r is NoIsoFiles,
        iso_files@.len() > 0 && !(spec_index_valid(selection@) && 1 <= digits_val(selection@)
            <= iso_files@.len()) <==> r is InvalidSelection,
        iso_files@.len() > 0 && spec_index_valid(selection@) && 1 <= digits_val(selection@)
            <= iso_files@.len() && target_drive@.len() == 0 <==> r is MissingDrive,
        iso_files@.len() > 0 && spec_index_valid(selection@) && 1 <= digits_val(selection@)
            <= iso_files@.len() && target_drive@.len() > 0 && !spec_confirmed(confirm@) <==> r
            is Cancelled,
        r matches UsbDecision::Write(cmd) ==> {
            &&& iso_files@.len() > 0
            &&& spec_index_valid(selection@)
            &&& 1 <= digits_val(selection@) <= iso_files@.len()
            &&& target_drive@.len() > 0
            &&& spec_confirmed(confirm@)
            &&& cmd@ == spec_dd_cmd(
                expanded_output_dir@ + "/"@ + iso_files@[digits_val(selection@) - 1]@,
                target_drive@,
            )
        },
{
    if iso_files.len() == 0 {
        return UsbDecision::NoIsoFiles;
    }
    let choice = match parse_index(selection) {
        None => {
            return UsbDecision::InvalidSelection;
        },
        Some(v) => v,
    };
    if choice == 0 || choice > iso_files.len() as u64 {
        return UsbDecision::InvalidSelection;
    }
    if target_drive.is_empty() {
        return UsbDecision::MissingDrive;
    }
    let affirmed = crate::strutil::str_eq(confirm, "y") || crate::strutil::str_eq(confirm, "Y");
    if !affirmed {
        return UsbDecision::Cancelled;
    }
    let idx = (choice - 1) as usize;
    let mut cmd = String::new();
    cmd.append("sudo dd if=");
    cmd.append(expanded_output_dir);
    cmd.append("/");
    cmd.append(iso_files[idx].as_str());
    cmd.append(" of=");
    cmd.append(target_drive);
    cmd.append(" bs=4M status=progress oflag=sync");
    proof {
        assert(cmd@ =~= spec_dd_cmd(
            expanded_output_dir@ + "/"@ + iso_files@[digits_val(selection@) - 1]@,
            target_drive@,
        ));
    }
    UsbDecision::Write(cmd)
}

} // verus!
