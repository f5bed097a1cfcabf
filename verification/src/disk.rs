//! The lines about disks: how much of each is used, and its file system.

use vstd::prelude::*;
use crate::color::{is_painted, label_tint, paint, Hue, Tint};
use crate::text::{chars_of, extend_chars, join_chars, joined, string_of, views};
use crate::usage::{
    colorize_percentage,
    emphasis_of,
    emphasis_tint,
    gib_text,
    percent_text,
    push_gib,
};

verus! {

/// A mounted disk.
#[derive(Clone, Debug, PartialEq, Eq)]
pub struct Disk {
    /// Where the disk is mounted.
    pub mount_point: String,
    /// Its size in bytes.
    pub total_space: u64,
    /// How many of them are free.
    pub available_space: u64,
    /// The name of its file system.
    pub file_system: String,
}

/// No more disks than this are shown.
pub const DISK_LIMIT: usize = 5;

/// The bytes in use on a disk: its size less what is free, 0 where more is
/// reported free than the disk holds.
pub open spec fn used_space(disk: Disk) -> nat {
    if disk.total_space >= disk.available_space {
        (disk.total_space - disk.available_space) as nat
    } else {
        0
    }
}

/// The label of a disk, as in `disk (/home)`.
pub open spec fn disk_label(mount_point: Seq<char>) -> Seq<char> {
    "disk ("@ + mount_point + ")"@
}

/// The line for `disk` around a label and a percentage that have been
/// painted, as in `disk (/): 8.00 GiB >> 16.00 GiB (50.0%) - ext4`.
pub open spec fn disk_text(disk: Disk, label: Seq<char>, percent: Seq<char>) -> Seq<char> {
    label + ": "@ + gib_text(used_space(disk)) + " GiB >> "@ + gib_text(disk.total_space as nat)
        + " GiB ("@ + percent + ") - "@ + disk.file_system@
}

/// `out` is the line for `disk`: its label painted bright blue, the used
/// share painted by its emphasis.
pub open spec fn is_disk_line(out: Seq<char>, disk: Disk) -> bool {
    exists|label: Seq<char>, percent: Seq<char>|
        is_painted(label, disk_label(disk.mount_point@), label_tint()) && is_painted(
            percent,
            percent_text(used_space(disk), disk.total_space as nat),
            emphasis_tint(emphasis_of(used_space(disk), disk.total_space as nat)),
        ) && out == #[trigger] disk_text(disk, label, percent)
}

/// How many of `n` disks are shown.
pub open spec fn shown_count(n: nat) -> nat {
    if n <= DISK_LIMIT {
        n
    } else {
        DISK_LIMIT as nat
    }
}

/// `pieces` are the lines for the first disks of `disks`, up to the limit.
pub open spec fn are_disk_lines(pieces: Seq<Seq<char>>, disks: Seq<Disk>) -> bool {
    &&& pieces.len() == shown_count(disks.len())
    &&& forall|k: int| 0 <= k < pieces.len() ==> is_disk_line(#[trigger] pieces[k], disks[k])
}

/// `out` is the disk block for `disks`: their lines, up to the limit, with a
/// newline between each two.
pub open spec fn is_disk_info(out: Seq<char>, disks: Seq<Disk>) -> bool {
    exists|pieces: Seq<Seq<char>>|
        are_disk_lines(pieces, disks) && out == #[trigger] joined(pieces, "\n"@)
}

/// Computes `used_space`.
pub fn used_bytes(disk: &Disk) -> (used: u64)
    ensures
        used == used_space(*disk),
{
    if disk.total_space >= disk.available_space {
        disk.total_space - disk.available_space
    } else {
        0
    }
}

/// Writes the line for `disk` around a label and a percentage that have
/// been painted already.
pub fn format_disk(disk: &Disk, label: &str, percent: &str) -> (out: Vec<char>)
    ensures
        out@ == disk_text(*disk, label@, percent@),
{
    let mut buf: Vec<char> = Vec::new();
    extend_chars(&mut buf, &chars_of(label));
    extend_chars(&mut buf, &chars_of(": "));
    push_gib(&mut buf, used_bytes(disk));
    extend_chars(&mut buf, &chars_of(" GiB >> "));
    push_gib(&mut buf, disk.total_space);
    extend_chars(&mut buf, &chars_of(" GiB ("));
    extend_chars(&mut buf, &chars_of(percent));
    extend_chars(&mut buf, &chars_of(") - "));
    extend_chars(&mut buf, &chars_of(disk.file_system.as_str()));
    proof {
        assert(buf@ =~= disk_text(*disk, label@, percent@));
    }
    buf
}

/// The line for one disk: label, used and total size in GiB, the used share
/// in percent, and the file system.
pub fn disk_line(disk: &Disk) -> (out: Vec<char>)
    ensures
        is_disk_line(out@, *disk),
{
    let mut plain: Vec<char> = Vec::new();
    extend_chars(&mut plain, &chars_of("disk ("));
    extend_chars(&mut plain, &chars_of(disk.mount_point.as_str()));
    extend_chars(&mut plain, &chars_of(")"));
    proof {
        assert(plain@ =~= disk_label(disk.mount_point@));
    }
    let label = paint(string_of(&plain).as_str(), Tint { hue: Hue::Blue, bright: true });
    let percent = colorize_percentage(used_bytes(disk), disk.total_space);
    let out = format_disk(disk, label.as_str(), percent.as_str());
    proof {
        assert(out@ == disk_text(*disk, label@, percent@));
    }
    out
}

/// The disk block: a line for each of the first disks, up to five, with a
/// newline between each two. Empty where there is no disk.
pub fn get_disk_info(disks: &Vec<Disk>) -> (out: String)
    ensures
        is_disk_info(out@, disks@),
{
    let mut pieces: Vec<Vec<char>> = Vec::new();
    let mut i: usize = 0;
    while i < disks.len() && i < DISK_LIMIT
        invariant
            i <= disks.len(),
            i <= DISK_LIMIT,
            pieces@.len() == i,
            forall|k: int| 0 <= k < i ==> is_disk_line(#[trigger] views(pieces@)[k], disks@[k]),
        decreases disks.len() - i,
    {
        let ghost before = views(pieces@);
        let piece = disk_line(&disks[i]);
        pieces.push(piece);
        proof {
            assert(views(pieces@) =~= before.push(piece@));
            assert forall|k: int| 0 <= k < i + 1 implies is_disk_line(
                #[trigger] views(pieces@)[k],
                disks@[k],
            ) by {
                if k < i {
                    assert(views(pieces@)[k] == before[k]);
                }
            }
        }
        i += 1;
    }
    let text = join_chars(&pieces, &chars_of("\n"));
    proof {
        assert(are_disk_lines(views(pieces@), disks@));
    }
    string_of(&text)
}

} // verus!
