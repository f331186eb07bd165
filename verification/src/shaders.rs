//! The shader cache: every precompiled shader binary referenced by any
//! material archetype is registered once at renderer construction, keyed by
//! its logical identity.  Lookups return the registration slot; the host
//! keeps the compiled modules in the same order.

use vstd::prelude::*;

verus! {

/// The closed set of logical shader identities.
#[derive(Debug, Clone, Copy, PartialEq, Eq, Hash, Structural)]
pub enum ShaderType {
    BasicVert,
    BasicFrag,
}

/// The registry of loaded shaders, in registration order.  Slot `i` of the
/// host's compiled-module table holds the binary for `store[i]`.
pub struct ShaderStore {
    pub store: Vec<ShaderType>,
}

impl ShaderStore {
    /// No shader identity is registered twice.
    pub open spec fn wf(self) -> bool {
        forall|i: int, j: int|
            0 <= i < j < self.store@.len() ==> self.store@[i] != self.store@[j]
    }

    /// `shader_type` has a slot in the registry.
    pub open spec fn loaded(self, shader_type: ShaderType) -> bool {
        exists|i: int| 0 <= i < self.store@.len() && self.store@[i] == shader_type
    }

    /// Every shader of the closed enumeration is registered.
    pub open spec fn complete(self) -> bool {
        forall|t: ShaderType| self.loaded(t)
    }

    /// Registers every shader referenced by any material archetype, once.
    pub fn new() -> (s: Self)
        ensures
            s.wf(),
            s.complete(),
            s.store@ == seq![ShaderType::BasicVert, ShaderType::BasicFrag],
    {
        let mut store: Vec<ShaderType> = Vec::new();
        store.push(ShaderType::BasicVert);
        store.push(ShaderType::BasicFrag);
        let s = ShaderStore { store };
        proof {
            assert(s.store@ =~= seq![ShaderType::BasicVert, ShaderType::BasicFrag]);
            assert forall|t: ShaderType| s.loaded(t) by {
                match t {
                    ShaderType::BasicVert => assert(s.store@[0] == t),
                    ShaderType::BasicFrag => assert(s.store@[1] == t),
                }
            }
        }
        s
    }

    /// Looks up the registration slot of a shader.  A miss is a programming
    /// error: the set of shaders is closed and registered at construction,
    /// so the caller must know the shader is loaded.
    pub fn get(&self, shader_type: ShaderType) -> (slot: usize)
        requires
            self.loaded(shader_type),
        ensures
            slot < self.store@.len(),
            self.store@[slot as int] == shader_type,
    {
        let mut i: usize = 0;
        while i < self.store.len()
            invariant
                i <= self.store@.len(),
                self.loaded(shader_type),
                forall|j: int| 0 <= j < i ==> self.store@[j] != shader_type,
            decreases self.store@.len() - i,
        {
            if self.store[i] == shader_type {
                return i;
            }
            i = i + 1;
        }
        proof {
            assert(false);
        }
        0
    }
}

} // verus!
