//! Checksums that identify the Wasm binaries a trace was recorded against.

use vstd::prelude::*;
use crate::text::{hex_bytes, push_hex_bytes};

verus! {

/// The checksum of a Wasm binary: the 32 bytes of its SHA-256 digest.
///
/// Allows for features requiring the exact same Wasm module (deterministic
/// replay) to check that the binary in use matches the one recorded.
#[derive(Debug, Clone, Copy, Eq, PartialOrd, Ord, Hash)]
pub struct WasmChecksum(pub [u8; 32]);

impl View for WasmChecksum {
    type V = Seq<u8>;

    open spec fn view(&self) -> Seq<u8> {
        self.0@
    }
}

/// The digest that `wasmtime_environ::WasmChecksum::from_binary` computes for
/// the binary `bin` (SHA-256 when recording is enabled).
pub uninterp spec fn spec_wasm_checksum(bin: Seq<u8>) -> Seq<u8>;

/// Computes the checksum of `bin` with `wasmtime_environ::WasmChecksum::from_binary`
/// (recording enabled), and hands back its 32 bytes.
///
/// The contract names the result: a function of the bytes of `bin` alone.
#[verifier::external_body]
fn environ_checksum(bin: &[u8]) -> (r: [u8; 32])
    ensures
        r@ == spec_wasm_checksum(bin@),
{
    *wasmtime_environ::WasmChecksum::from_binary(bin, true)
}

impl WasmChecksum {
    /// The checksum of the Wasm binary `bin`.
    pub fn from_binary(bin: &[u8]) -> (r: Self)
        ensures
            r@ == spec_wasm_checksum(bin@),
    {
        WasmChecksum(environ_checksum(bin))
    }

    /// Whether the two checksums hold the same bytes.
    pub fn same_as(&self, other: &Self) -> (r: bool)
        ensures
            r == (self@ == other@),
    {
        let mut i: usize = 0;
        while i < 32
            invariant
                i <= 32,
                self@.len() == 32,
                other@.len() == 32,
                forall|j: int| 0 <= j < i ==> self@[j] == other@[j],
            decreases 32 - i,
        {
            if self.0[i] != other.0[i] {
                assert(self@[i as int] != other@[i as int]);
                return false;
            }
            i = i + 1;
        }
        assert(self@ =~= other@);
        true
    }

    /// The lower-case hexadecimal rendering of the checksum bytes.
    pub fn to_hex(&self) -> (r: String)
        ensures
            r@ == hex_bytes(self@),
    {
        let mut out = String::new();
        push_hex_bytes(&mut out, &self.0);
        assert(out@ =~= hex_bytes(self@));
        out
    }
}

impl PartialEq for WasmChecksum {
    fn eq(&self, other: &Self) -> (r: bool) {
        self.same_as(other)
    }
}

impl vstd::std_specs::cmp::PartialEqSpecImpl for WasmChecksum {
    open spec fn obeys_eq_spec() -> bool {
        true
    }

    open spec fn eq_spec(&self, other: &Self) -> bool {
        self@ == other@
    }
}

} // verus!
