//! The line of local addresses: one entry for each IPv4 address of each
//! network interface that is not a virtual machine's.

use vstd::prelude::*;
use crate::color::{is_painted, paint, Hue, Tint};
use crate::decimal::{digits_of, push_number};
use crate::text::{
    chars_of,
    contains_text,
    extend_chars,
    has_text,
    join_chars,
    joined,
    string_of,
    views,
};

verus! {

/// An address of a network interface.
#[derive(Clone, Copy, Debug, PartialEq, Eq)]
pub enum IpAddress {
    /// An IPv4 address, by its four octets.
    V4(u8, u8, u8, u8),
    /// An IPv6 address, by its 128 bits.
    V6(u128),
}

/// An address together with the length of its network prefix.
#[derive(Clone, Copy, Debug, PartialEq, Eq)]
pub struct IpNetwork {
    pub addr: IpAddress,
    pub prefix: u8,
}

/// A network interface: its name and the addresses it has.
#[derive(Clone, Debug, PartialEq, Eq)]
pub struct Interface {
    pub name: String,
    pub networks: Vec<IpNetwork>,
}

/// An IPv4 address that is listed: its octets, the length of its prefix,
/// and the name of its interface.
pub struct Listed {
    pub octets: (u8, u8, u8, u8),
    pub prefix: u8,
    pub name: Seq<char>,
}

/// The tint of an interface name.
pub open spec fn name_tint() -> Tint {
    Tint { hue: Hue::Cyan, bright: false }
}

/// Interfaces with this in their name belong to a virtual machine and are
/// left out.
pub open spec fn virtual_marker() -> Seq<char> {
    "VMware"@
}

/// The IPv4 addresses among `nets`, in order, each with `name`.
pub open spec fn listed_of_nets(nets: Seq<IpNetwork>, name: Seq<char>) -> Seq<Listed>
    decreases nets.len(),
{
    if nets.len() == 0 {
        Seq::empty()
    } else {
        let rest = listed_of_nets(nets.drop_last(), name);
        match nets.last().addr {
            IpAddress::V4(a, b, c, d) => rest.push(
                Listed { octets: (a, b, c, d), prefix: nets.last().prefix, name },
            ),
            IpAddress::V6(_) => rest,
        }
    }
}

/// What is listed of one interface: nothing of a virtual machine's, else its
/// IPv4 addresses.
pub open spec fn listed_of_interface(iface: Interface) -> Seq<Listed> {
    if contains_text(iface.name@, virtual_marker()) {
        Seq::empty()
    } else {
        listed_of_nets(iface.networks@, iface.name@)
    }
}

/// What is listed of `interfaces`, in their order.
pub open spec fn listed(interfaces: Seq<Interface>) -> Seq<Listed>
    decreases interfaces.len(),
{
    if interfaces.len() == 0 {
        Seq::empty()
    } else {
        listed(interfaces.drop_last()) + listed_of_interface(interfaces.last())
    }
}

/// An IPv4 address in dotted decimal.
pub open spec fn address_text(octets: (u8, u8, u8, u8)) -> Seq<char> {
    digits_of(octets.0 as nat) + "."@ + digits_of(octets.1 as nat) + "."@ + digits_of(
        octets.2 as nat,
    ) + "."@ + digits_of(octets.3 as nat)
}

/// An entry of the list: address, prefix length, and the interface's name
/// as it was painted, as in `192.168.1.5/24 (eth0)`.
pub open spec fn entry_text(octets: (u8, u8, u8, u8), prefix: u8, name: Seq<char>) -> Seq<char> {
    address_text(octets) + "/"@ + digits_of(prefix as nat) + " ("@ + name + ")"@
}

/// `out` is the entry for `item`, its interface name painted cyan.
pub open spec fn is_entry(out: Seq<char>, item: Listed) -> bool {
    exists|name: Seq<char>|
        is_painted(name, item.name, name_tint()) && out == #[trigger] entry_text(
            item.octets,
            item.prefix,
            name,
        )
}

/// `pieces` are the entries for `items`, one for one.
pub open spec fn are_entries(pieces: Seq<Seq<char>>, items: Seq<Listed>) -> bool {
    &&& pieces.len() == items.len()
    &&& forall|k: int| 0 <= k < pieces.len() ==> is_entry(#[trigger] pieces[k], items[k])
}

/// `out` is the list for `interfaces`: the entries of what is listed of
/// them, with a comma and a space between each two.
pub open spec fn is_address_list(out: Seq<char>, interfaces: Seq<Interface>) -> bool {
    exists|pieces: Seq<Seq<char>>|
        are_entries(pieces, listed(interfaces)) && out == #[trigger] joined(pieces, ", "@)
}

/// Writes the entry for an IPv4 address around an interface name that has
/// been painted already.
pub fn format_entry(octets: (u8, u8, u8, u8), prefix: u8, name: &str) -> (out: Vec<char>)
    ensures
        out@ == entry_text(octets, prefix, name@),
{
    let mut buf: Vec<char> = Vec::new();
    push_number(&mut buf, octets.0 as u128);
    extend_chars(&mut buf, &chars_of("."));
    push_number(&mut buf, octets.1 as u128);
    extend_chars(&mut buf, &chars_of("."));
    push_number(&mut buf, octets.2 as u128);
    extend_chars(&mut buf, &chars_of("."));
    push_number(&mut buf, octets.3 as u128);
    extend_chars(&mut buf, &chars_of("/"));
    push_number(&mut buf, prefix as u128);
    extend_chars(&mut buf, &chars_of(" ("));
    extend_chars(&mut buf, &chars_of(name));
    extend_chars(&mut buf, &chars_of(")"));
    proof {
        assert(buf@ =~= entry_text(octets, prefix, name@));
    }
    buf
}

/// The local IPv4 addresses of `interfaces`, each as
/// `address/prefix (interface)` with the interface's name painted cyan, and
/// `, ` between them. Interfaces of a virtual machine and addresses that are
/// not IPv4 are passed over. `None` where nothing is left.
pub fn get_local_ip(interfaces: &Vec<Interface>) -> (out: Option<String>)
    ensures
        out is None <==> listed(interfaces@).len() == 0,
        out is Some ==> is_address_list(out->0@, interfaces@),
{
    let marker = chars_of("VMware");
    let mut pieces: Vec<Vec<char>> = Vec::new();
    let mut i: usize = 0;
    proof {
        assert(interfaces@.take(0) =~= Seq::<Interface>::empty());
    }
    while i < interfaces.len()
        invariant
            i <= interfaces.len(),
            marker@ == virtual_marker(),
            are_entries(views(pieces@), listed(interfaces@.take(i as int))),
        decreases interfaces.len() - i,
    {
        let iface = &interfaces[i];
        let ghost done = listed(interfaces@.take(i as int));
        proof {
            assert(interfaces@.take(i + 1).drop_last() =~= interfaces@.take(i as int));
            assert(interfaces@.take(i + 1).last() == interfaces@[i as int]);
        }
        if !has_text(&chars_of(iface.name.as_str()), &marker) {
            let mut j: usize = 0;
            proof {
                assert(iface.networks@.take(0) =~= Seq::<IpNetwork>::empty());
                assert(done + Seq::<Listed>::empty() =~= done);
            }
            while j < iface.networks.len()
                invariant
                    j <= iface.networks.len(),
                    are_entries(
                        views(pieces@),
                        done + listed_of_nets(iface.networks@.take(j as int), iface.name@),
                    ),
                decreases iface.networks.len() - j,
            {
                let net = &iface.networks[j];
                let ghost so_far = done + listed_of_nets(
                    iface.networks@.take(j as int),
                    iface.name@,
                );
                let ghost before = views(pieces@);
                proof {
                    assert(iface.networks@.take(j + 1).drop_last() =~= iface.networks@.take(
                        j as int,
                    ));
                    assert(iface.networks@.take(j + 1).last() == iface.networks@[j as int]);
                }
                match net.addr {
                    IpAddress::V4(a, b, c, d) => {
                        let name = paint(
                            iface.name.as_str(),
                            Tint { hue: Hue::Cyan, bright: false },
                        );
                        let piece = format_entry((a, b, c, d), net.prefix, name.as_str());
                        let ghost item = Listed {
                            octets: (a, b, c, d),
                            prefix: net.prefix,
                            name: iface.name@,
                        };
                        proof {
                            assert(is_entry(piece@, item)) by {
                                assert(piece@ == entry_text(item.octets, item.prefix, name@));
                            }
                        }
                        pieces.push(piece);
                        proof {
                            assert(views(pieces@) =~= before.push(piece@));
                            assert(done + listed_of_nets(
                                iface.networks@.take(j + 1),
                                iface.name@,
                            ) =~= so_far.push(item));
                            assert forall|k: int| 0 <= k < views(pieces@).len() implies is_entry(
                                #[trigger] views(pieces@)[k],
                                so_far.push(item)[k],
                            ) by {
                                if k < before.len() {
                                    assert(views(pieces@)[k] == before[k]);
                                }
                            }
                        }
                    },
                    IpAddress::V6(_) => {},
                }
                j += 1;
            }
            proof {
                assert(iface.networks@.take(iface.networks.len() as int) =~= iface.networks@);
            }
        } else {
            proof {
                assert(done + Seq::<Listed>::empty() =~= done);
            }
        }
        i += 1;
    }
    proof {
        assert(interfaces@.take(interfaces.len() as int) =~= interfaces@);
    }
    if pieces.len() == 0 {
        None
    } else {
        let text = join_chars(&pieces, &chars_of(", "));
        Some(string_of(&text))
    }
}

/// What is listed of two runs of interfaces, one after the other, is what
/// is listed of the first and then what is listed of the second.
pub proof fn lemma_listed_concat(a: Seq<Interface>, b: Seq<Interface>)
    ensures
        listed(a + b) == listed(a) + listed(b),
    decreases b.len(),
{
    if b.len() == 0 {
        assert(a + b =~= a);
        assert(listed(a) + listed(b) =~= listed(a));
    } else {
        lemma_listed_concat(a, b.drop_last());
        assert((a + b).drop_last() =~= a + b.drop_last());
        assert((a + b).last() == b.last());
        assert(listed(a) + (listed(b.drop_last()) + listed_of_interface(b.last())) =~= (listed(a)
            + listed(b.drop_last())) + listed_of_interface(b.last()));
    }
}

/// An interface of a virtual machine adds nothing to what is listed,
/// whatever addresses it has and wherever it stands among the others.
pub proof fn law_virtual_interface_unlisted(
    before: Seq<Interface>,
    machine: Interface,
    after: Seq<Interface>,
)
    requires
        contains_text(machine.name@, virtual_marker()),
    ensures
        listed(before.push(machine) + after) == listed(before + after),
        listed(seq![machine]).len() == 0,
{
    lemma_listed_concat(before.push(machine), after);
    lemma_listed_concat(before, after);
    assert(before.push(machine).drop_last() =~= before);
    assert(listed(before) + listed_of_interface(machine) =~= listed(before));
    assert(seq![machine].drop_last() =~= Seq::<Interface>::empty());
    assert(listed(Seq::<Interface>::empty()) + listed_of_interface(machine) =~= Seq::<
        Listed,
    >::empty());
}

} // verus!
