//! Shared handle to the cryptographic key material that every connection
//! handler reads.

use vstd::prelude::*;

verus! {

/// A read-only handle to the key material the login handshake uses.
/// The listener never inspects the material; it only hands clones of the
/// handle to connection tasks, and every clone observes the same bytes.
pub struct KeyManager {
    key_material: Vec<u8>,
}

impl KeyManager {
    /// The key material, as a sequence of bytes.
    pub closed spec fn key_spec(&self) -> Seq<u8> {
        self.key_material@
    }

    /// Do two handles observe the same key material? Clones handed to
    /// connection tasks are value-equal to their source in this sense.
    pub open spec fn value_eq(self, other: KeyManager) -> bool {
        self.key_spec() == other.key_spec()
    }

    pub fn new(key_material: Vec<u8>) -> (mgr: KeyManager)
        ensures
            mgr.key_spec() == key_material@,
    {
        KeyManager { key_material }
    }

    pub fn get_key_material(&self) -> (key: &Vec<u8>)
        ensures
            key@ == self.key_spec(),
    {
        &self.key_material
    }
}

impl Clone for KeyManager {
    /// A clone observes exactly the key material of the original: shared
    /// read-only state, never a divergent copy.
    fn clone(&self) -> (cloned: Self)
        ensures
            cloned.key_spec() == self.key_spec(),
    {
        let key_material = self.key_material.clone();
        proof {
            assert(key_material@ =~= self.key_material@);
        }
        KeyManager { key_material }
    }
}

} // verus!
