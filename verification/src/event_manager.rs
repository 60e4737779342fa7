//! The list of devices that are told when their file descriptors become ready.

use vstd::prelude::*;

verus! {

/// A device that is told of events, known by its type tag and identifier.
#[derive(Debug)]
pub struct Subscriber {
    /// Device type tag.
    pub device_type: u32,
    /// Identifier of the device.
    pub device_id: String,
}

/// The devices that are told of events, in the order in which they subscribed.
#[derive(Debug)]
pub struct EventManager {
    /// The subscribers.
    pub subscribers: Vec<Subscriber>,
}

impl DeepView for Subscriber {
    type V = (u32, Seq<char>);

    open spec fn deep_view(&self) -> (u32, Seq<char>) {
        (self.device_type, self.device_id@)
    }
}

impl DeepView for EventManager {
    type V = Seq<(u32, Seq<char>)>;

    open spec fn deep_view(&self) -> Seq<(u32, Seq<char>)> {
        self.subscribers.deep_view()
    }
}

impl EventManager {
    /// A list without subscribers.
    pub fn new() -> (r: Self)
        ensures
            r.deep_view() == Seq::<(u32, Seq<char>)>::empty(),
    {
        let r = EventManager { subscribers: Vec::new() };
        proof {
            assert(r.subscribers.deep_view() =~= Seq::empty());
        }
        r
    }

    /// Subscribes the device with the given type and identifier.
    pub fn add_subscriber(&mut self, device_type: u32, device_id: String)
        ensures
            final(self).deep_view() == old(self).deep_view().push((device_type, device_id@)),
    {
        self.subscribers.push(Subscriber { device_type, device_id });
        proof {
            assert(self.subscribers.deep_view() =~= old(self).subscribers.deep_view().push(
                (device_type, device_id@),
            ));
        }
    }
}

} // verus!
