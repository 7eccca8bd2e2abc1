//! Component-mode pieces of the guest runtime: every component export is
//! registered as its own guest function at build time, so the fallback
//! dispatcher knows no names; and the resource table gives the host a
//! stable integer handle for each guest-managed resource kind referenced
//! across the boundary.

use vstd::prelude::*;

use crate::errors::GuestError;
use crate::func_types::FunctionCall;

verus! {

broadcast use vstd::seq_lib::group_seq_properties;

/// The component-mode fallback dispatcher: component exports are bound as
/// dedicated guest functions, so any name that reaches the fallback is
/// unknown.
pub fn guest_dispatch_function(function_call: &FunctionCall) -> (r: Result<Vec<u8>, GuestError>)
    ensures
        r == Err::<Vec<u8>, GuestError>(GuestError::FunctionNotFound),
{
    let _name = &function_call.function_name;
    Err(GuestError::FunctionNotFound)
}

/// The per-sandbox resource table: a map from resource kind to the integer
/// handle the host refers to it by. Handles are handed out sequentially
/// and never reused, so a kind keeps its handle for the sandbox's life.
#[derive(Debug, Clone, PartialEq)]
pub struct ResourceTable {
    /// The registered kinds, in handle order: the handle of a kind is its
    /// index.
    pub kinds: Vec<u32>,
}

impl ResourceTable {
    /// Registered kinds are unique, and every handle fits 32 bits.
    pub open spec fn wf(self) -> bool {
        &&& self.kinds@.len() <= u32::MAX
        &&& forall|i: int, j: int|
            0 <= i < self.kinds@.len() && 0 <= j < self.kinds@.len() && i != j
                ==> self.kinds@[i] != self.kinds@[j]
    }

    /// The handle of `kind`, if it is registered: its index in the table.
    pub open spec fn spec_handle_of(self, kind: u32) -> Option<int> {
        if exists|i: int| 0 <= i < self.kinds@.len() && self.kinds@[i] == kind {
            Some(choose|i: int| 0 <= i < self.kinds@.len() && self.kinds@[i] == kind)
        } else {
            None
        }
    }

    /// An empty table.
    pub fn new() -> (r: ResourceTable)
        ensures
            r.kinds@.len() == 0,
            r.wf(),
    {
        ResourceTable { kinds: Vec::new() }
    }

    /// The stable handle of `kind`: its existing entry, or a fresh one at
    /// the end of the table. Fails when the table is full.
    pub fn get_or_register(&mut self, kind: u32) -> (r: Result<u32, GuestError>)
        requires
            (*old(self)).wf(),
        ensures
            (*final(self)).wf(),
            match r {
                Ok(h) => {
                    &&& h < (*final(self)).kinds@.len()
                    &&& (*final(self)).kinds@[h as int] == kind
                    &&& (match (*old(self)).spec_handle_of(kind) {
                        Some(i) => h == i && *final(self) == *old(self),
                        None => h == (*old(self)).kinds@.len() && (*final(self)).kinds@ == (*old(
                            self,
                        )).kinds@.push(kind),
                    })
                },
                Err(e) => {
                    &&& e == GuestError::OutOfMemory
                    &&& *final(self) == *old(self)
                    &&& (*old(self)).spec_handle_of(kind) is None
                    &&& (*old(self)).kinds@.len() >= u32::MAX
                },
            },
    {
        let n = self.kinds.len();
        let mut i: usize = 0;
        while i < n
            invariant
                *self == *old(self),
                (*old(self)).wf(),
                n == self.kinds@.len(),
                i <= n,
                forall|k: int| 0 <= k < i ==> self.kinds@[k] != kind,
            decreases n - i,
        {
            if self.kinds[i] == kind {
                proof {
                    let w = (*old(self)).spec_handle_of(kind).unwrap();
                    if w != i {
                        assert(self.kinds@[w] == kind);
                    }
                }
                return Ok(i as u32);
            }
            i += 1;
        }
        if n >= u32::MAX as usize {
            return Err(GuestError::OutOfMemory);
        }
        self.kinds.push(kind);
        proof {
            let nv = self.kinds@;
            let ov = (*old(self)).kinds@;
            assert(nv =~= ov.push(kind));
            assert forall|p: int, q: int|
                0 <= p < nv.len() && 0 <= q < nv.len() && p != q implies nv[p] != nv[q] by {
                if p == nv.len() - 1 {
                    assert(nv[q] == ov[q]);
                } else if q == nv.len() - 1 {
                    assert(nv[p] == ov[p]);
                }
            }
        }
        Ok(n as u32)
    }
}

} // verus!
