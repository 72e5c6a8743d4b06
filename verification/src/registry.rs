//! The device registry: the slot table that maps handles to transports.

use std::mem::swap;

use slab::Slab;
use vstd::prelude::*;

use crate::address::{parse_url, parsed_url};
use crate::error::SkippyError;
use crate::slots::{
    slab_entries, slab_get, slab_insert, slab_len, slab_new, slab_try_remove, slab_vacant_key,
};
use crate::transport::{viewed, Adapter, Dial, DialView, Exchange, ExchangeView, Handshake};

verus! {

/// A handle: the caller's reference to one slot of a registry. It stays
/// what it is when the slot is vacated, and then refers to whatever
/// transport takes the slot next.
#[derive(Clone, Copy, Debug, PartialEq, Eq, Hash, Structural)]
pub struct Device(usize);

impl Device {
    /// The index of the slot that this handle refers to.
    pub closed spec fn spec_index(self) -> usize {
        self.0
    }

    /// A handle is its index and nothing more: two handles are equal
    /// exactly when they refer to the same slot.
    pub proof fn lemma_equal_by_index(self, other: Device)
        ensures
            self == other <==> self.spec_index() == other.spec_index(),
    {
    }

    /// Returns the index of the slot that this handle refers to.
    #[verifier::when_used_as_spec(spec_index)]
    pub fn index(self) -> (index: usize)
        ensures
            index == self.spec_index(),
    {
        self.0
    }
}

/// A registry, as contracts see it.
#[verifier::ext_equal]
pub struct Registry {
    /// The live transports, each under the index of its slot.
    pub slots: Map<usize, Adapter>,
    /// The index of the slot that the next transport gets.
    pub vacant: usize,
    /// The link number that the next transport gets.
    pub serial: u64,
}

impl Registry {
    /// What holds of every registry: it holds finitely many transports,
    /// their link numbers are below `serial`, and no two of them have the
    /// same.
    pub open spec fn wf(self) -> bool {
        &&& self.slots.dom().finite()
        &&& forall|index: usize| #[trigger]
            self.slots.contains_key(index) ==> self.slots[index].spec_link() < self.serial
        &&& forall|first: usize, second: usize|
            #![trigger self.slots[first], self.slots[second]]
            self.slots.contains_key(first) && self.slots.contains_key(second) && first != second
                ==> self.slots[first].spec_link() != self.slots[second].spec_link()
    }

    /// Whether the registry has run out of link numbers: it has given out
    /// every number below `u64::MAX`, one to each transport that it ever
    /// held.
    pub open spec fn full(self) -> bool {
        self.serial == u64::MAX
    }

    /// The transport in the slot `index`, if the slot holds one.
    pub open spec fn lookup(self, index: usize) -> Option<Adapter> {
        if self.slots.contains_key(index) {
            Some(self.slots[index])
        } else {
            None
        }
    }

    /// Whether `connect`, called on this registry with `dial` and
    /// `handshake`, may leave the registry `after` and return `index`, the
    /// index of the new handle or the failure.
    ///
    /// A connection that was not established gives `ConnectFailed`, and an
    /// established one on a registry without a link number left
    /// `RegistryFull`; neither changes the registry. Otherwise the new
    /// transport gets the vacant slot and the next link number, and the
    /// other slots stay as they are.
    pub open spec fn connects(
        self,
        dial: DialView,
        handshake: Handshake,
        after: Registry,
        index: Result<usize, SkippyError>,
    ) -> bool {
        match Adapter::spec_connect(dial, handshake, self.serial) {
            Err(error) => after == self && index == Err::<usize, SkippyError>(error),
            Ok(adapter) => if self.full() {
                after == self && index == Err::<usize, SkippyError>(SkippyError::RegistryFull)
            } else {
                &&& index == Ok::<usize, SkippyError>(self.vacant)
                &&& !self.slots.contains_key(self.vacant)
                &&& after.slots == self.slots.insert(self.vacant, adapter)
                &&& after.serial == self.serial + 1
            },
        }
    }

    /// The registry after `disconnect` of a handle to the slot `index`: the
    /// slot is vacant, and if it was not before, it is the one that the
    /// next transport gets.
    pub open spec fn disconnect(self, index: usize) -> Registry {
        Registry {
            slots: self.slots.remove(index),
            vacant: if self.slots.contains_key(index) {
                index
            } else {
                self.vacant
            },
            serial: self.serial,
        }
    }

    /// Where a command goes: the exchange that carries `raw` over the
    /// transport in the slot `index`, or `DeviceDisconnected` where the
    /// slot is vacant.
    pub open spec fn command(self, index: usize, raw: Seq<char>) -> Result<
        ExchangeView,
        SkippyError,
    > {
        match self.lookup(index) {
            Some(adapter) => Ok(adapter.spec_scpi(raw)),
            None => Err(SkippyError::DeviceDisconnected),
        }
    }
}

/// The index of the handle that a result holds, if it holds one.
pub open spec fn indexed(result: Result<Device, SkippyError>) -> Result<usize, SkippyError> {
    match result {
        Ok(dev) => Ok(dev.spec_index()),
        Err(error) => Err(error),
    }
}

/// The device registry. It owns the transports, hands out their handles
/// and routes each command to the transport of its handle.
pub struct Env {
    phy: Slab<Adapter>,
    serial: u64,
}

impl View for Env {
    type V = Registry;

    closed spec fn view(&self) -> Registry {
        Registry {
            slots: slab_entries(self.phy),
            vacant: slab_vacant_key(self.phy),
            serial: self.serial,
        }
    }
}

impl Env {
    #[verifier::type_invariant]
    spec fn inv(self) -> bool {
        self@.wf()
    }

    /// Makes a registry that holds no transport.
    pub fn new() -> (env: Env)
        ensures
            env@.slots.dom() == Set::<usize>::empty(),
            env@.vacant == 0,
            env@.serial == 0,
            env@.wf(),
    {
        let phy = slab_new();
        Env { phy, serial: 0 }
    }

    /// Returns the number of live transports.
    pub fn len(&self) -> (len: usize)
        ensures
            len == self@.slots.len(),
            self@.wf(),
    {
        proof {
            use_type_invariant(self);
        }
        slab_len(&self.phy)
    }

    /// Returns the transport that `dev` refers to, if its slot holds one.
    pub fn get(&self, dev: Device) -> (adapter: Option<Adapter>)
        ensures
            adapter == self@.lookup(dev.index()),
            self@.wf(),
    {
        proof {
            use_type_invariant(self);
        }
        slab_get(&self.phy, dev.0)
    }

    /// The first half of connecting: reads `addr` as a URL, selects the
    /// kind of transport by its scheme and says how to open the
    /// connection. It touches no registry and opens nothing.
    pub fn dial(addr: &str) -> (dial: Result<Dial, SkippyError>)
        ensures
            viewed(dial) == Adapter::spec_dial(parsed_url(addr@)),
    {
        Adapter::dial(parse_url(addr))
    }

    /// The second half of connecting: given how the attempt to open the
    /// connection of `dial` ended, makes its transport, puts it in the
    /// vacant slot and returns the handle to that slot.
    pub fn connect(&mut self, dial: &Dial, handshake: Handshake) -> (dev: Result<
        Device,
        SkippyError,
    >)
        ensures
            old(self)@.connects(dial@, handshake, final(self)@, indexed(dev)),
            final(self)@.wf(),
    {
        proof {
            use_type_invariant(&*self);
        }
        match Adapter::connect(dial, handshake, self.serial) {
            Err(error) => Err(error),
            Ok(adapter) => {
                if self.serial == u64::MAX {
                    Err(SkippyError::RegistryFull)
                } else {
                    // The table is taken out while it grows, so that the
                    // registry is whole at every moment of the insertion.
                    let mut table = slab_new();
                    swap(&mut self.phy, &mut table);
                    let key = slab_insert(&mut table, adapter);
                    self.serial = self.serial + 1;
                    swap(&mut self.phy, &mut table);
                    Ok(Device(key))
                }
            },
        }
    }

    /// Vacates the slot that `dev` refers to and returns the transport that
    /// was in it, whose connection the caller must close. Where the slot is
    /// vacant already, nothing changes. It never fails.
    pub fn disconnect(&mut self, dev: Device) -> (released: Result<Option<Adapter>, SkippyError>)
        ensures
            released == Ok::<Option<Adapter>, SkippyError>(old(self)@.lookup(dev.index())),
            final(self)@ == old(self)@.disconnect(dev.index()),
            final(self)@.wf(),
    {
        proof {
            use_type_invariant(&*self);
        }
        let released = slab_try_remove(&mut self.phy, dev.0);
        Ok(released)
    }

    /// The first half of a command: looks up the transport that `dev`
    /// refers to and says what to write on which connection. Fails with
    /// `DeviceDisconnected` where the slot of `dev` is vacant.
    pub fn scpi(&self, dev: Device, raw: &str) -> (exchange: Result<Exchange, SkippyError>)
        ensures
            viewed(exchange) == self@.command(dev.index(), raw@),
            self@.wf(),
    {
        proof {
            use_type_invariant(self);
        }
        match slab_get(&self.phy, dev.0) {
            Some(adapter) => Ok(adapter.scpi(raw)),
            None => Err(SkippyError::DeviceDisconnected),
        }
    }
}

} // verus!
