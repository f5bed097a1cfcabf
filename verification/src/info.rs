//! The info block: the facts about the machine, one labelled line each.

use vstd::prelude::*;
use vstd::utf8::encode_utf8;
use crate::color::{is_painted, label_tint, paint, Hue, Tint};
use crate::disk::{get_disk_info, is_disk_info, Disk};
use crate::network::{get_local_ip, is_address_list, listed, Interface};
use crate::text::{chars_of, extend_chars, join_chars, joined, string_of, views};
use crate::usage::{is_usage_status, usage_status};

verus! {

/// What is known about the machine. A fact that could not be found out is
/// `None`.
#[derive(Clone, Debug, PartialEq, Eq)]
pub struct SystemFacts {
    /// The name of the user.
    pub user: String,
    /// The name of the host.
    pub host: Option<String>,
    /// The name of the operating system.
    pub os_name: Option<String>,
    /// The version of the operating system.
    pub os_version: Option<String>,
    /// The brand of the first processor.
    pub cpu: Option<String>,
    /// Memory in use, in bytes.
    pub memory_used: u64,
    /// Memory in all, in bytes.
    pub memory_total: u64,
    /// Swap space in use, in bytes.
    pub swap_used: u64,
    /// Swap space in all, in bytes.
    pub swap_total: u64,
    /// The network interfaces.
    pub interfaces: Vec<Interface>,
    /// The disks.
    pub disks: Vec<Disk>,
}

/// How many blocks a palette row has.
pub const PALETTE_LEN: usize = 8;

/// How many pieces the info block is joined from. The disk piece can hold
/// several lines, or none.
pub const PIECE_COUNT: usize = 10;

/// The text of a fact, or `fallback` where it is not known.
pub open spec fn known_or(fact: Option<String>, fallback: Seq<char>) -> Seq<char> {
    match fact {
        Some(text) => text@,
        None => fallback,
    }
}

/// Who is logged in where, as in `ann@box`; `Unknown` for a host without a
/// name.
pub open spec fn identity_text(user: Seq<char>, host: Option<String>) -> Seq<char> {
    user + "@"@ + known_or(host, "Unknown"@)
}

/// The tint of the identity: bright green.
pub open spec fn identity_tint() -> Tint {
    Tint { hue: Hue::Green, bright: true }
}

/// The rule under the identity: one heavy horizontal stroke for each byte
/// that the identity takes in UTF-8.
pub open spec fn rule_text(identity: Seq<char>) -> Seq<char> {
    Seq::new(encode_utf8(identity).len(), |i: int| '\u{2501}')
}

/// The operating system's name and version with a space between them, each
/// `Unknown` where it is not known.
pub open spec fn os_text(name: Option<String>, version: Option<String>) -> Seq<char> {
    known_or(name, "Unknown"@) + " "@ + known_or(version, "Unknown"@)
}

/// The processor's brand, or `Unknown`.
pub open spec fn cpu_text(cpu: Option<String>) -> Seq<char> {
    known_or(cpu, "Unknown"@)
}

/// A label that has been painted, a colon and a space, and the value.
pub open spec fn labelled_text(label: Seq<char>, value: Seq<char>) -> Seq<char> {
    label + ": "@ + value
}

/// `out` is `value` behind `label`, the label painted bright blue.
pub open spec fn is_labelled(out: Seq<char>, label: Seq<char>, value: Seq<char>) -> bool {
    exists|painted_label: Seq<char>|
        is_painted(painted_label, label, label_tint()) && out == #[trigger] labelled_text(
            painted_label,
            value,
        )
}

/// `out` is the line for a used and a total amount behind `label`.
pub open spec fn is_usage_line(out: Seq<char>, label: Seq<char>, used: nat, total: nat) -> bool {
    exists|status: Seq<char>|
        is_usage_status(status, used, total) && #[trigger] is_labelled(out, label, status)
}

/// `out` is the line of local addresses: the list of what is listed of
/// `interfaces` behind the label `ipv4`, or `unknown` where nothing is.
pub open spec fn is_address_line(out: Seq<char>, interfaces: Seq<Interface>) -> bool {
    if listed(interfaces).len() == 0 {
        is_labelled(out, "ipv4"@, "unknown"@)
    } else {
        exists|list: Seq<char>|
            is_address_list(list, interfaces) && #[trigger] is_labelled(out, "ipv4"@, list)
    }
}

/// The hue of block `k` of a palette row: red, yellow, green, cyan, blue,
/// magenta, black, white.
pub open spec fn palette_hue(k: int) -> Hue {
    if k == 0 {
        Hue::Red
    } else if k == 1 {
        Hue::Yellow
    } else if k == 2 {
        Hue::Green
    } else if k == 3 {
        Hue::Cyan
    } else if k == 4 {
        Hue::Blue
    } else if k == 5 {
        Hue::Magenta
    } else if k == 6 {
        Hue::Black
    } else {
        Hue::White
    }
}

/// A block of a palette row before it is painted: three full blocks.
pub open spec fn palette_block() -> Seq<char> {
    seq!['\u{2588}', '\u{2588}', '\u{2588}']
}

/// `out` is a palette row: eight blocks side by side, block `k` painted in
/// `palette_hue(k)`, all in the bright shade or all in the normal one.
pub open spec fn is_palette_row(out: Seq<char>, bright: bool) -> bool {
    exists|blocks: Seq<Seq<char>>|
        {
            &&& blocks.len() == PALETTE_LEN
            &&& forall|k: int|
                0 <= k < PALETTE_LEN ==> is_painted(
                    #[trigger] blocks[k],
                    palette_block(),
                    (Tint { hue: palette_hue(k), bright }),
                )
            &&& out == #[trigger] joined(blocks, Seq::empty())
        }
}

/// `pieces` are the pieces of the info block for `facts`: identity, rule,
/// operating system, processor, memory, swap, addresses, disks, and the two
/// palette rows.
pub open spec fn are_info_pieces(pieces: Seq<Seq<char>>, facts: SystemFacts) -> bool {
    &&& pieces.len() == PIECE_COUNT
    &&& is_painted(pieces[0], identity_text(facts.user@, facts.host), identity_tint())
    &&& pieces[1] == rule_text(identity_text(facts.user@, facts.host))
    &&& is_labelled(pieces[2], "sys "@, os_text(facts.os_name, facts.os_version))
    &&& is_labelled(pieces[3], "cpu "@, cpu_text(facts.cpu))
    &&& is_usage_line(pieces[4], "mem "@, facts.memory_used as nat, facts.memory_total as nat)
    &&& is_usage_line(pieces[5], "swap"@, facts.swap_used as nat, facts.swap_total as nat)
    &&& is_address_line(pieces[6], facts.interfaces@)
    &&& is_disk_info(pieces[7], facts.disks@)
    &&& is_palette_row(pieces[8], true)
    &&& is_palette_row(pieces[9], false)
}

/// `out` is the info block for `facts`: its pieces with a newline between
/// each two.
pub open spec fn is_info(out: Seq<char>, facts: SystemFacts) -> bool {
    exists|pieces: Seq<Seq<char>>|
        are_info_pieces(pieces, facts) && out == #[trigger] joined(pieces, "\n"@)
}

/// Appends a fact to `out`, or `fallback` where it is not known.
fn push_known(out: &mut Vec<char>, fact: &Option<String>, fallback: &str)
    ensures
        final(out)@ == old(out)@ + known_or(*fact, fallback@),
{
    match fact {
        Some(text) => extend_chars(out, &chars_of(text.as_str())),
        None => extend_chars(out, &chars_of(fallback)),
    }
}

/// Who is logged in where, before it is painted.
pub fn identity(user: &str, host: &Option<String>) -> (out: String)
    ensures
        out@ == identity_text(user@, *host),
{
    let mut buf: Vec<char> = chars_of(user);
    extend_chars(&mut buf, &chars_of("@"));
    push_known(&mut buf, host, "Unknown");
    string_of(&buf)
}

/// The rule that goes under `identity`.
pub fn rule_line(identity: &str) -> (out: Vec<char>)
    ensures
        out@ == rule_text(identity@),
{
    let n = identity.as_bytes().len();
    let mut out: Vec<char> = Vec::new();
    let mut k: usize = 0;
    proof {
        assert(out@ =~= Seq::new(0, |i: int| '\u{2501}'));
    }
    while k < n
        invariant
            k <= n,
            out@ == Seq::new(k as nat, |i: int| '\u{2501}'),
        decreases n - k,
    {
        out.push('\u{2501}');
        proof {
            assert(out@ =~= Seq::new((k + 1) as nat, |i: int| '\u{2501}'));
        }
        k += 1;
    }
    proof {
        assert(out@ =~= rule_text(identity@));
    }
    out
}

/// Puts a label that has been painted already in front of `value`.
pub fn format_labelled(label: &str, value: &Vec<char>) -> (out: Vec<char>)
    ensures
        out@ == labelled_text(label@, value@),
{
    let mut buf: Vec<char> = chars_of(label);
    extend_chars(&mut buf, &chars_of(": "));
    extend_chars(&mut buf, value);
    buf
}

/// Puts `label`, painted bright blue, in front of `value`.
pub fn labelled(label: &str, value: &Vec<char>) -> (out: Vec<char>)
    ensures
        is_labelled(out@, label@, value@),
{
    let painted_label = paint(label, Tint { hue: Hue::Blue, bright: true });
    let out = format_labelled(painted_label.as_str(), value);
    proof {
        assert(out@ == labelled_text(painted_label@, value@));
    }
    out
}

/// The line for a used and a total amount of memory or swap space.
pub fn usage_line(label: &str, used: u64, total: u64) -> (out: Vec<char>)
    ensures
        is_usage_line(out@, label@, used as nat, total as nat),
{
    let status = usage_status(used, total);
    let out = labelled(label, &chars_of(status.as_str()));
    proof {
        assert(is_labelled(out@, label@, status@));
    }
    out
}

/// The line of local addresses.
pub fn address_line(interfaces: &Vec<Interface>) -> (out: Vec<char>)
    ensures
        is_address_line(out@, interfaces@),
{
    match get_local_ip(interfaces) {
        Some(list) => {
            let out = labelled("ipv4", &chars_of(list.as_str()));
            proof {
                assert(is_labelled(out@, "ipv4"@, list@));
            }
            out
        },
        None => labelled("ipv4", &chars_of("unknown")),
    }
}

/// Computes `palette_hue`.
pub fn hue_at(k: usize) -> (hue: Hue)
    ensures
        hue == palette_hue(k as int),
{
    if k == 0 {
        Hue::Red
    } else if k == 1 {
        Hue::Yellow
    } else if k == 2 {
        Hue::Green
    } else if k == 3 {
        Hue::Cyan
    } else if k == 4 {
        Hue::Blue
    } else if k == 5 {
        Hue::Magenta
    } else if k == 6 {
        Hue::Black
    } else {
        Hue::White
    }
}

/// A palette row in the bright or the normal shade.
pub fn palette_row(bright: bool) -> (out: Vec<char>)
    ensures
        is_palette_row(out@, bright),
{
    let mut block: Vec<char> = Vec::new();
    block.push('\u{2588}');
    block.push('\u{2588}');
    block.push('\u{2588}');
    proof {
        assert(block@ =~= palette_block());
    }
    let plain = string_of(&block);
    let mut blocks: Vec<Vec<char>> = Vec::new();
    let mut k: usize = 0;
    while k < PALETTE_LEN
        invariant
            k <= PALETTE_LEN,
            plain@ == palette_block(),
            blocks@.len() == k,
            forall|j: int|
                0 <= j < k ==> is_painted(
                    #[trigger] views(blocks@)[j],
                    palette_block(),
                    (Tint { hue: palette_hue(j), bright }),
                ),
        decreases PALETTE_LEN - k,
    {
        let ghost before = views(blocks@);
        let piece = paint(plain.as_str(), Tint { hue: hue_at(k), bright });
        blocks.push(chars_of(piece.as_str()));
        proof {
            assert(views(blocks@) =~= before.push(piece@));
            assert forall|j: int| 0 <= j < k + 1 implies is_painted(
                #[trigger] views(blocks@)[j],
                palette_block(),
                (Tint { hue: palette_hue(j), bright }),
            ) by {
                if j < k {
                    assert(views(blocks@)[j] == before[j]);
                }
            }
        }
        k += 1;
    }
    let none: Vec<char> = Vec::new();
    let out = join_chars(&blocks, &none);
    proof {
        assert(none@ =~= Seq::<char>::empty());
        assert(out@ == joined(views(blocks@), Seq::empty()));
    }
    out
}

/// The info block for `facts`: who is logged in where, a rule under it, the
/// operating system, the processor, memory and swap space in use, the local
/// addresses, the disks, and two palette rows, with a newline between each
/// two. What is not known shows as a placeholder.
pub fn collect_info(facts: &SystemFacts) -> (out: String)
    ensures
        is_info(out@, *facts),
{
    let who = identity(facts.user.as_str(), &facts.host);
    let mut os: Vec<char> = Vec::new();
    push_known(&mut os, &facts.os_name, "Unknown");
    extend_chars(&mut os, &chars_of(" "));
    push_known(&mut os, &facts.os_version, "Unknown");
    let mut cpu: Vec<char> = Vec::new();
    push_known(&mut cpu, &facts.cpu, "Unknown");
    proof {
        assert(os@ =~= os_text(facts.os_name, facts.os_version));
        assert(cpu@ =~= cpu_text(facts.cpu));
    }
    let mut pieces: Vec<Vec<char>> = Vec::new();
    pieces.push(chars_of(paint(who.as_str(), Tint { hue: Hue::Green, bright: true }).as_str()));
    pieces.push(rule_line(who.as_str()));
    pieces.push(labelled("sys ", &os));
    pieces.push(labelled("cpu ", &cpu));
    pieces.push(usage_line("mem ", facts.memory_used, facts.memory_total));
    pieces.push(usage_line("swap", facts.swap_used, facts.swap_total));
    pieces.push(address_line(&facts.interfaces));
    pieces.push(chars_of(get_disk_info(&facts.disks).as_str()));
    pieces.push(palette_row(true));
    pieces.push(palette_row(false));
    let out = join_chars(&pieces, &chars_of("\n"));
    proof {
        let v = views(pieces@);
        assert(v.len() == PIECE_COUNT);
        assert(v[0] == pieces@[0]@);
        assert(v[1] == pieces@[1]@);
        assert(v[2] == pieces@[2]@);
        assert(v[3] == pieces@[3]@);
        assert(v[4] == pieces@[4]@);
        assert(v[5] == pieces@[5]@);
        assert(v[6] == pieces@[6]@);
        assert(v[7] == pieces@[7]@);
        assert(v[8] == pieces@[8]@);
        assert(v[9] == pieces@[9]@);
        assert(are_info_pieces(v, *facts));
    }
    string_of(&out)
}

} // verus!
