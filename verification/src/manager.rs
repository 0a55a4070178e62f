use vstd::prelude::*;

verus! {

/// One registration: a hardware address, owned by the registration so a
/// worker can hold it for its whole unbounded lifetime, and the callback
/// to invoke once per click of that device.
pub struct Registration<C> {
    pub address: String,
    pub callback: C,
}

/// An ordered collection of registrations, built before any listening
/// starts. Created empty; grows only through `add`. Starting the
/// pipelines consumes the manager: one independent pipeline per
/// registration, duplicates included.
pub struct Manager<C> {
    pub registrations: Vec<Registration<C>>,
}

impl<C> Manager<C> {
    /// Creates a manager with no registrations.
    pub fn new() -> (r: Manager<C>)
        ensures
            r.registrations@.len() == 0,
    {
        Manager { registrations: Vec::new() }
    }

    /// Appends one registration for the given hardware address. No
    /// duplicate check is made: two registrations with one address each
    /// get their own independent pipeline against the same device.
    pub fn add(self, button_mac_address: String, callback: C) -> (r: Manager<C>)
        ensures
            r.registrations@ == self.registrations@.push(
                (Registration { address: button_mac_address, callback }),
            ),
    {
        let mut m = self;
        m.registrations.push(Registration { address: button_mac_address, callback });
        m
    }
}

impl<C> Default for Manager<C> {
    /// An empty manager, the same as `new`.
    fn default() -> (r: Manager<C>)
        ensures
            r.registrations@.len() == 0,
    {
        Manager::new()
    }
}

} // verus!
