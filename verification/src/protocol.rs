//! The bookkeeping half of a protocol registration context: the one-shot
//! guard lives with the instance (see
//! [`crate::instance::InstanceState::acquire_protocol_guard`]); this module
//! keeps the books of the backends registered through one context. The
//! native callback plumbing — the five function-pointer slots dispatched by
//! URI scheme prefix — stays with the embedding.

use vstd::prelude::*;
use vstd::string::StringExecFns;

use crate::commands::{check_string_arg, contains_nul};
use crate::errors::{Error, ErrorV};

verus! {

/// The books of one protocol registration context: the capacity it was
/// created with (pre-sized storage, not a hard limit on call volume) and
/// the scheme names registered so far, in order.
pub struct ProtocolContextState {
    capacity: usize,
    schemes: Vec<String>,
}

/// Mathematical model of a [`ProtocolContextState`].
#[verifier::ext_equal]
pub ghost struct ProtocolContextStateV {
    pub capacity: usize,
    pub schemes: Seq<Seq<char>>,
}

impl View for ProtocolContextState {
    type V = ProtocolContextStateV;

    closed spec fn view(&self) -> ProtocolContextStateV {
        ProtocolContextStateV {
            capacity: self.capacity,
            schemes: self.schemes@.map_values(|s: String| s@),
        }
    }
}

impl ProtocolContextState {
    /// A fresh context sized for `capacity` distinct backends, none
    /// registered yet.
    pub fn new(capacity: usize) -> (r: ProtocolContextState)
        ensures
            r@.capacity == capacity,
            r@.schemes == Seq::<Seq<char>>::empty(),
    {
        let r = ProtocolContextState { capacity, schemes: Vec::with_capacity(capacity) };
        proof {
            assert(r@.schemes =~= Seq::<Seq<char>>::empty());
        }
        r
    }

    /// Record one backend registration under its scheme name; the caller
    /// installs the callback set with the engine only when this accepts. A
    /// name holding an embedded null byte cannot cross the native boundary
    /// and is rejected, recording nothing.
    pub fn register_scheme(&mut self, name: &str) -> (r: Result<(), Error>)
        ensures
            contains_nul(name@) ==> (r matches Err(e) && e@ == ErrorV::InvalidStringArgument
                && final(self)@ == old(self)@),
            !contains_nul(name@) ==> (r is Ok && final(self)@ == (ProtocolContextStateV {
                schemes: old(self)@.schemes.push(name@),
                ..old(self)@
            })),
    {
        check_string_arg(name)?;
        let ghost before = self@.schemes;
        self.schemes.push(String::from_str(name));
        proof {
            assert(self@.schemes =~= before.push(name@));
            assert(self@ =~= (ProtocolContextStateV { schemes: before.push(name@), ..old(self)@ }));
        }
        Ok(())
    }

    /// How many backends this context has registered.
    pub fn registered(&self) -> (n: usize)
        ensures
            n == self@.schemes.len(),
    {
        self.schemes.len()
    }

    /// The capacity the context was created with.
    pub fn capacity(&self) -> (n: usize)
        ensures
            n == self@.capacity,
    {
        self.capacity
    }
}

} // verus!
