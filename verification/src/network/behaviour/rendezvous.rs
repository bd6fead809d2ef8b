use crate::network::action::{emit, no_actions, Action, ActionView};
use crate::network::event::{Registration, RendezvousEvent};
use libp2p::multiaddr::Protocol;
use libp2p::{Multiaddr, PeerId};
use vstd::prelude::*;

verus! {

/// Whether `Multiaddr::ends_with` finds the identity `peer` at the end of
/// the address `address`: nothing where one of the two texts is no address
/// or no identity.
pub uninterp spec fn address_names_peer(address: Seq<char>, peer: Seq<char>) -> Option<bool>;

/// The text of the address that `Multiaddr::with` makes of `address` and
/// the identity `peer`: nothing where one of the two texts is no address or
/// no identity.
pub uninterp spec fn address_with_peer(address: Seq<char>, peer: Seq<char>) -> Option<Seq<char>>;

/// Parses the address and the identity and calls `Multiaddr::ends_with` on
/// the address and the one-part address `/p2p/<peer>`. The contract only
/// names the outcome.
#[verifier::external_body]
fn names_peer(address: &str, peer: &str) -> (r: Option<bool>)
    ensures
        r == address_names_peer(address@, peer@),
{
    let address: Multiaddr = address.parse().ok()?;
    let peer: PeerId = peer.parse().ok()?;
    Some(address.ends_with(&Multiaddr::empty().with(Protocol::P2p(peer))))
}

/// Parses the address and the identity and calls `Multiaddr::with` to add
/// the part `/p2p/<peer>` to the address. The contract only names the
/// outcome.
#[verifier::external_body]
fn with_peer(address: &str, peer: &str) -> (r: Option<String>)
    ensures
        match r {
            Some(text) => address_with_peer(address@, peer@) == Some(text@),
            None => address_with_peer(address@, peer@) is None,
        },
{
    let address: Multiaddr = address.parse().ok()?;
    let peer: PeerId = peer.parse().ok()?;
    Some(address.with(Protocol::P2p(peer)).to_string())
}

/// The address to dial for a registered address: the address itself where
/// it ends in the peer's identity, else the address with that identity
/// added. Nothing where the texts could not be read.
pub open spec fn dial_target(
    address: Seq<char>,
    names: Option<bool>,
    extended: Option<Seq<char>>,
) -> Option<Seq<char>> {
    match names {
        Some(true) => Some(address),
        Some(false) => extended,
        None => None,
    }
}

/// The dial of one registered address.
pub open spec fn dial<C>(peer: Seq<char>, address: Seq<char>) -> Seq<ActionView<C>> {
    match dial_target(
        address,
        address_names_peer(address, peer),
        address_with_peer(address, peer),
    ) {
        Some(target) => seq![ActionView::Dial { address: target }],
        None => Seq::empty(),
    }
}

/// The dials of the addresses of one registration, in their order.
pub open spec fn dials_of<C>(peer: Seq<char>, addresses: Seq<Seq<char>>) -> Seq<ActionView<C>>
    decreases addresses.len(),
{
    if addresses.len() == 0 {
        Seq::empty()
    } else {
        dials_of(peer, addresses.drop_last()) + dial(peer, addresses.last())
    }
}

/// The dials of all registrations, in their order.
pub open spec fn dials<C>(registrations: Seq<Registration>) -> Seq<ActionView<C>>
    decreases registrations.len(),
{
    if registrations.len() == 0 {
        Seq::empty()
    } else {
        dials(registrations.drop_last()) + dials_of(
            registrations.last().peer@,
            registrations.last().addresses.deep_view(),
        )
    }
}

/// What an event of the rendezvous point asks for: each address of each
/// peer that it names is dialled. A registration, or the failure of one,
/// asks for nothing.
pub open spec fn step<C>(event: RendezvousEvent) -> Seq<ActionView<C>> {
    match event {
        RendezvousEvent::Discovered { registrations } => dials(registrations@),
        _ => Seq::empty(),
    }
}

/// The characters of a string that may be missing.
pub open spec fn text_view(text: Option<String>) -> Option<Seq<char>> {
    match text {
        Some(t) => Some(t@),
        None => None,
    }
}

/// Chooses the address to dial for a registered address, given whether it
/// ends in the peer's identity, and what it is with that identity added.
pub fn choose_address(address: String, names: Option<bool>, extended: Option<String>) -> (target:
    Option<String>)
    ensures
        text_view(target) == dial_target(address@, names, text_view(extended)),
{
    match names {
        Some(true) => Some(address),
        Some(false) => extended,
        None => None,
    }
}

/// Handles the events of the rendezvous point.
pub fn handle_event<C>(event: RendezvousEvent) -> (actions: Vec<Action<C>>)
    ensures
        actions.deep_view() == step::<C>(event),
{
    let mut actions = no_actions();
    match event {
        RendezvousEvent::Discovered { registrations } => {
            let mut i: usize = 0;
            while i < registrations.len()
                invariant
                    i <= registrations@.len(),
                    actions.deep_view() == dials::<C>(registrations@.take(i as int)),
                decreases registrations@.len() - i,
            {
                let ghost done = actions.deep_view();
                let registration = &registrations[i];
                let peer = registration.peer.as_str();
                let mut j: usize = 0;
                assert(actions.deep_view() =~= done + dials_of::<C>(
                    peer@,
                    registration.addresses.deep_view().take(0),
                ));
                while j < registration.addresses.len()
                    invariant
                        j <= registration.addresses@.len(),
                        peer@ == registration.peer@,
                        actions.deep_view() == done + dials_of::<C>(
                            peer@,
                            registration.addresses.deep_view().take(j as int),
                        ),
                    decreases registration.addresses@.len() - j,
                {
                    proof {
                        let next = registration.addresses.deep_view().take(j + 1);
                        assert(next.drop_last() =~= registration.addresses.deep_view().take(
                            j as int,
                        ));
                    }
                    let ghost before = actions.deep_view();
                    let address = registration.addresses[j].as_str();
                    let names = names_peer(address, peer);
                    let extended = with_peer(address, peer);
                    match choose_address(registration.addresses[j].clone(), names, extended) {
                        Some(target) => {
                            emit(&mut actions, Action::Dial { address: target });
                        },
                        None => {},
                    }
                    assert(actions.deep_view() =~= before + dial::<C>(peer@, address@));
                    assert(actions.deep_view() =~= done + dials_of::<C>(
                        peer@,
                        registration.addresses.deep_view().take(j + 1),
                    ));
                    j += 1;
                }
                proof {
                    assert(registration.addresses.deep_view().take(j as int)
                        =~= registration.addresses.deep_view());
                    let next = registrations@.take(i + 1);
                    assert(next.drop_last() =~= registrations@.take(i as int));
                }
                i += 1;
            }
            assert(registrations@.take(i as int) =~= registrations@);
        },
        _ => {},
    }
    actions
}

} // verus!
