//! Raw values crossing a call boundary, and their flat byte encoding in
//! trace events.

use vstd::prelude::*;
use crate::events::{segment, sizes_total, RRFuncArgVals};

verus! {

/// Types that can be serialized/deserialized into/from flat types for record
/// and replay.
pub trait FlatBytes: Sized {
    /// The raw bytes of the value, least significant first.
    spec fn flat_view(&self) -> Seq<u8>;

    /// How many raw bytes a value holds.
    spec fn capacity() -> nat;

    /// Every value holds exactly `capacity()` raw bytes.
    proof fn lemma_flat_view_len(&self)
        ensures
            self.flat_view().len() == Self::capacity(),
    ;

    /// The first `size` raw bytes of the value.
    fn bytes(&self, size: u8) -> (r: &[u8])
        requires
            size as nat <= Self::capacity(),
        ensures
            r@ == self.flat_view().take(size as int),
    ;

    /// The value whose first raw bytes are `value`.
    fn from_bytes(value: &[u8]) -> (r: Self)
        requires
            value@.len() <= Self::capacity(),
        ensures
            r.flat_view().take(value@.len() as int) == value@,
    ;
}

/// The bytes of the value `v` in little-endian order, `n` of them.
pub open spec fn le_bytes(v: nat, n: nat) -> Seq<u8>
    decreases n,
{
    if n == 0 {
        Seq::empty()
    } else {
        seq![(v % 256) as u8] + le_bytes(v / 256, (n - 1) as nat)
    }
}

/// `n` zero bytes.
pub open spec fn zeros(n: nat) -> Seq<u8> {
    Seq::new(n, |i: int| 0u8)
}

/// A raw value as the engine passes it across a call boundary: 16 bytes,
/// little-endian, unused high bytes zero.
#[derive(Debug, Clone, Copy)]
pub struct ValRaw {
    pub bytes: [u8; 16],
}

/// The 16 raw bytes whose low `n` bytes are the little-endian bytes of `v`.
fn le_array(v: u128, n: usize) -> (r: [u8; 16])
    requires
        n <= 16,
    ensures
        r@ == le_bytes(v as nat, n as nat) + zeros((16 - n) as nat),
{
    let mut out = [0u8; 16];
    let mut x = v;
    let mut i: usize = 0;
    while i < n
        invariant
            n <= 16,
            i <= n,
            out@.len() == 16,
            out@.take(i as int) + le_bytes(x as nat, (n - i) as nat) == le_bytes(v as nat, n as nat),
            forall|j: int| i <= j < 16 ==> out@[j] == 0u8,
        decreases n - i,
    {
        let ghost before = out@;
        out[i] = (x % 256) as u8;
        proof {
            assert(le_bytes(x as nat, (n - i) as nat) == seq![(x % 256) as u8] + le_bytes(
                (x / 256) as nat,
                (n - i - 1) as nat,
            ));
            assert(out@.take(i + 1) =~= before.take(i as int) + seq![(x % 256) as u8]);
        }
        x = x / 256;
        i = i + 1;
        assert(out@.take(i as int) + le_bytes(x as nat, (n - i) as nat) =~= le_bytes(v as nat, n as nat));
    }
    assert(le_bytes(x as nat, 0) =~= Seq::<u8>::empty());
    assert(out@ =~= le_bytes(v as nat, n as nat) + zeros((16 - n) as nat));
    out
}

impl ValRaw {
    /// The raw value of a 64-bit integer.
    pub fn u64(i: u64) -> (r: Self)
        ensures
            r.bytes@ == le_bytes(i as nat, 8) + zeros(8),
    {
        ValRaw { bytes: le_array(i as u128, 8) }
    }

    /// The raw value of a 32-bit integer (zero-extended).
    pub fn i32(i: i32) -> (r: Self)
        ensures
            r.bytes@ == le_bytes((i as u32) as nat, 8) + zeros(8),
    {
        ValRaw::u64((i as u32) as u64)
    }

    /// The raw value of a 64-bit integer.
    pub fn i64(i: i64) -> (r: Self)
        ensures
            r.bytes@ == le_bytes((i as u64) as nat, 8) + zeros(8),
    {
        ValRaw::u64(i as u64)
    }

    /// The raw value of a 32-bit float, given by its bits.
    pub fn float32(bits: u32) -> (r: Self)
        ensures
            r.bytes@ == le_bytes(bits as nat, 8) + zeros(8),
    {
        ValRaw::u64(bits as u64)
    }

    /// The raw value of a 64-bit float, given by its bits.
    pub fn float64(bits: u64) -> (r: Self)
        ensures
            r.bytes@ == le_bytes(bits as nat, 8) + zeros(8),
    {
        ValRaw::u64(bits)
    }

    /// The raw value of a 128-bit vector.
    pub fn v128(v: u128) -> (r: Self)
        ensures
            r.bytes@ == le_bytes(v as nat, 16),
    {
        let bytes = le_array(v, 16);
        assert(bytes@ =~= le_bytes(v as nat, 16));
        ValRaw { bytes }
    }

    /// The 16 raw bytes of the value.
    pub fn get_bytes(&self) -> (r: [u8; 16])
        ensures
            r@ == self.bytes@,
    {
        self.bytes
    }
}

impl FlatBytes for ValRaw {
    open spec fn flat_view(&self) -> Seq<u8> {
        self.bytes@
    }

    open spec fn capacity() -> nat {
        16
    }

    proof fn lemma_flat_view_len(&self) {
    }

    fn bytes(&self, size: u8) -> (r: &[u8]) {
        let all = vstd::array::array_as_slice(&self.bytes);
        &all[0..size as usize]
    }

    fn from_bytes(value: &[u8]) -> (r: Self)
        ensures
            r.bytes@ == value@ + zeros((16 - value@.len()) as nat),
    {
        let mut out = [0u8; 16];
        let n = value.len();
        let mut i: usize = 0;
        while i < n
            invariant
                n == value@.len(),
                n <= 16,
                i <= n,
                out@.len() == 16,
                forall|j: int| 0 <= j < i ==> out@[j] == value@[j],
                forall|j: int| i <= j < 16 ==> out@[j] == 0u8,
            decreases n - i,
        {
            out[i] = value[i];
            i = i + 1;
        }
        assert(out@ =~= value@ + zeros((16 - n) as nat));
        ValRaw { bytes: out }
    }
}

/// The flat bytes of the first `n` values of `args`, the `i`-th value cut to
/// `flat[i]` bytes.
pub open spec fn flat_bytes<T: FlatBytes>(args: Seq<T>, flat: Seq<u8>, n: nat) -> Seq<u8>
    decreases n,
{
    if n == 0 {
        Seq::empty()
    } else {
        flat_bytes(args, flat, (n - 1) as nat) + args[n - 1].flat_view().take(flat[n - 1] as int)
    }
}

/// Whether every size in `flat[0..n]` fits in a value of `T`.
pub open spec fn sizes_fit<T: FlatBytes>(flat: Seq<u8>, n: nat) -> bool {
    forall|i: int| 0 <= i < n ==> #[trigger] flat[i] as nat <= T::capacity()
}

/// The flat bytes of the first `i` values are as long as their sizes add up
/// to, and they start the flat bytes of the first `n` values.
proof fn lemma_flat_bytes_prefix<T: FlatBytes>(args: Seq<T>, flat: Seq<u8>, i: nat, n: nat)
    requires
        i <= n,
        n <= args.len(),
        n <= flat.len(),
        sizes_fit::<T>(flat, n),
    ensures
        flat_bytes(args, flat, i).len() == sizes_total(flat.take(i as int)),
        flat_bytes(args, flat, i).len() <= flat_bytes(args, flat, n).len(),
        flat_bytes(args, flat, n).take(flat_bytes(args, flat, i).len() as int) == flat_bytes(
            args,
            flat,
            i,
        ),
    decreases n,
{
    if n > 0 {
        if i < n {
            lemma_flat_bytes_prefix(args, flat, i, (n - 1) as nat);
            lemma_flat_bytes_prefix(args, flat, (n - 1) as nat, (n - 1) as nat);
            let p = flat_bytes(args, flat, (n - 1) as nat);
            assert(flat_bytes(args, flat, n).take(p.len() as int) =~= p);
            assert(flat_bytes(args, flat, n).take(flat_bytes(args, flat, i).len() as int)
                =~= p.take(flat_bytes(args, flat, i).len() as int));
        } else {
            lemma_flat_bytes_prefix(args, flat, (n - 1) as nat, (n - 1) as nat);
            args[n - 1].lemma_flat_view_len();
            assert(flat.take(n as int).drop_last() =~= flat.take(n - 1));
            assert(flat.take(n as int).last() == flat[n - 1]);
            assert(flat_bytes(args, flat, n).take(flat_bytes(args, flat, n).len() as int)
                =~= flat_bytes(args, flat, n));
        }
    } else {
        assert(flat.take(0) =~= Seq::<u8>::empty());
    }
}

/// Encoding raw values into flat bytes and decoding them back restores the
/// bytes that were recorded: the `i`-th value of the flat bytes of `args`
/// with sizes `flat` is the first `flat[i]` raw bytes of `args[i]`.
pub proof fn lemma_flat_roundtrip<T: FlatBytes>(args: Seq<T>, flat: Seq<u8>, n: nat, i: int)
    requires
        n <= args.len(),
        n <= flat.len(),
        sizes_fit::<T>(flat, n),
        0 <= i < n,
    ensures
        segment(flat_bytes(args, flat, n), flat.take(n as int), i) == args[i].flat_view().take(
            flat[i] as int,
        ),
        sizes_total(flat.take(n as int)) == flat_bytes(args, flat, n).len(),
{
    lemma_flat_bytes_prefix(args, flat, i as nat, n);
    lemma_flat_bytes_prefix(args, flat, (i + 1) as nat, n);
    lemma_flat_bytes_prefix(args, flat, n, n);
    args[i].lemma_flat_view_len();
    let sizes = flat.take(n as int);
    assert(sizes.take(i) =~= flat.take(i));
    let whole = flat_bytes(args, flat, n);
    let before = flat_bytes(args, flat, i as nat);
    let upto = flat_bytes(args, flat, (i + 1) as nat);
    assert(upto == before + args[i].flat_view().take(flat[i] as int));
    assert(sizes[i] == flat[i]);
    assert(flat[i] as nat <= T::capacity());
    assert(upto.len() == before.len() + flat[i]);
    assert(whole.take(upto.len() as int) == upto);
    assert(whole.subrange(before.len() as int, before.len() + flat[i]) =~= upto.subrange(
        before.len() as int,
        upto.len() as int,
    )) by {
        let b = before.len() as int;
        let wsub = whole.subrange(b, b + flat[i]);
        let usub = upto.subrange(b, upto.len() as int);
        assert forall|j: int| 0 <= j < flat[i] implies #[trigger] wsub[j] == usub[j] by {
            assert(whole.take(upto.len() as int)[b + j] == whole[b + j]);
        }
    }
    assert(upto.subrange(before.len() as int, upto.len() as int) =~= args[i].flat_view().take(
        flat[i] as int,
    ));
}

/// Appends the bytes of `s` to `v`.
fn append_bytes(v: &mut Vec<u8>, s: &[u8])
    ensures
        final(v)@ == old(v)@ + s@,
{
    let n = s.len();
    let mut i: usize = 0;
    while i < n
        invariant
            n == s@.len(),
            i <= n,
            v@ == old(v)@ + s@.take(i as int),
        decreases n - i,
    {
        v.push(s[i]);
        i = i + 1;
        assert(v@ =~= old(v)@ + s@.take(i as int));
    }
    assert(s@.take(n as int) =~= s@);
}

impl RRFuncArgVals {
    /// Construct flat values from raw values and their flat sizes: the
    /// `i`-th value contributes its first `flat[i]` bytes, for as many values
    /// as there are both values and sizes.
    pub fn from_flat_iter<T: FlatBytes>(args: &[T], flat: &[u8]) -> (r: RRFuncArgVals)
        requires
            sizes_fit::<T>(
                flat@,
                if args@.len() < flat@.len() {
                    args@.len()
                } else {
                    flat@.len()
                },
            ),
        ensures
            ({
                let n = if args@.len() < flat@.len() {
                    args@.len()
                } else {
                    flat@.len()
                };
                &&& r.sizes@ == flat@.take(n as int)
                &&& r.bytes@ == flat_bytes(args@, flat@, n)
            }),
            r.well_formed(),
    {
        let n = if args.len() < flat.len() {
            args.len()
        } else {
            flat.len()
        };
        let mut bytes: Vec<u8> = Vec::new();
        let mut sizes: Vec<u8> = Vec::new();
        let mut i: usize = 0;
        while i < n
            invariant
                n <= args@.len(),
                n <= flat@.len(),
                n == if args@.len() < flat@.len() {
                    args@.len()
                } else {
                    flat@.len()
                },
                sizes_fit::<T>(flat@, n as nat),
                i <= n,
                sizes@ == flat@.take(i as int),
                bytes@ == flat_bytes(args@, flat@, i as nat),
            decreases n - i,
        {
            let size = flat[i];
            assert(size as nat <= T::capacity());
            let b = args[i].bytes(size);
            append_bytes(&mut bytes, b);
            sizes.push(size);
            i = i + 1;
            assert(sizes@ =~= flat@.take(i as int));
        }
        proof {
            lemma_flat_bytes_prefix(args@, flat@, n as nat, n as nat);
        }
        RRFuncArgVals { bytes, sizes }
    }

    /// Encode the flat values back into raw values: the `i`-th raw value
    /// becomes the value whose first bytes are the `i`-th flat value, for as
    /// many values as there are both sizes and raw values.
    pub fn into_raw_slice<T: FlatBytes>(self, raw_args: &mut [T])
        requires
            self.well_formed(),
            forall|i: int| 0 <= i < self.sizes@.len() ==> #[trigger] self.sizes@[i] as nat <= T::capacity(),
        ensures
            final(raw_args)@.len() == old(raw_args)@.len(),
            forall|i: int|
                0 <= i < old(raw_args)@.len() && i < self.sizes@.len() ==> (
                #[trigger] final(raw_args)@[i]).flat_view().take(self.sizes@[i] as int)
                    == self.value_bytes(i),
            forall|i: int|
                0 <= i < old(raw_args)@.len() && i >= self.sizes@.len()
                    ==> #[trigger] final(raw_args)@[i] == old(raw_args)@[i],
    {
        let n_sizes = self.sizes.len();
        let n_raw = raw_args.len();
        let blen = self.bytes.len();
        let mut pos: usize = 0;
        let mut i: usize = 0;
        while i < n_sizes && i < n_raw
            invariant
                n_sizes == self.sizes@.len(),
                n_raw == raw_args@.len(),
                n_raw == old(raw_args)@.len(),
                blen == self.bytes@.len(),
                self.well_formed(),
                forall|j: int| 0 <= j < self.sizes@.len() ==> #[trigger] self.sizes@[j] as nat <= T::capacity(),
                i <= n_sizes,
                i <= n_raw,
                pos == self.offset(i as int),
                forall|j: int|
                    0 <= j < i ==> (#[trigger] raw_args@[j]).flat_view().take(self.sizes@[j] as int)
                        == self.value_bytes(j),
                forall|j: int| i <= j < n_raw ==> #[trigger] raw_args@[j] == old(raw_args)@[j],
            decreases n_sizes - i,
        {
            proof {
                crate::events::lemma_sizes_total_prefix(self.sizes@, i + 1, n_sizes as int);
                assert(self.sizes@.take(n_sizes as int) =~= self.sizes@);
                assert(self.sizes@.take(i + 1).drop_last() =~= self.sizes@.take(i as int));
                assert(self.sizes@.take(i + 1).last() == self.sizes@[i as int]);
            }
            let size = self.sizes[i];
            let end = pos + size as usize;
            let all = self.bytes.as_slice();
            let value = &all[pos..end];
            assert(value@ == self.value_bytes(i as int));
            raw_args[i] = T::from_bytes(value);
            pos = end;
            i = i + 1;
        }
    }

    /// Decode the flat values into raw values for the engine, which gives
    /// each one its type: one raw value per flat value, for the first
    /// `val_count` values, each holding the value's bytes, zero-extended.
    pub fn to_val_vec(self, val_count: usize) -> (r: Vec<ValRaw>)
        requires
            self.well_formed(),
            forall|i: int| 0 <= i < self.sizes@.len() ==> #[trigger] self.sizes@[i] <= 16,
        ensures
            r@.len() == if val_count < self.sizes@.len() {
                val_count as int
            } else {
                self.sizes@.len() as int
            },
            forall|i: int|
                0 <= i < r@.len() ==> (#[trigger] r@[i]).bytes@ == self.value_bytes(i) + zeros(
                    (16 - self.sizes@[i]) as nat,
                ),
    {
        let n_sizes = self.sizes.len();
        let blen = self.bytes.len();
        let mut vals: Vec<ValRaw> = Vec::new();
        let mut pos: usize = 0;
        let mut i: usize = 0;
        while i < n_sizes && i < val_count
            invariant
                n_sizes == self.sizes@.len(),
                blen == self.bytes@.len(),
                self.well_formed(),
                forall|j: int| 0 <= j < self.sizes@.len() ==> #[trigger] self.sizes@[j] <= 16,
                i <= n_sizes,
                i <= val_count,
                vals@.len() == i,
                pos == self.offset(i as int),
                forall|j: int|
                    0 <= j < i ==> (#[trigger] vals@[j]).bytes@ == self.value_bytes(j) + zeros(
                        (16 - self.sizes@[j]) as nat,
                    ),
            decreases n_sizes - i,
        {
            proof {
                crate::events::lemma_sizes_total_prefix(self.sizes@, i + 1, n_sizes as int);
                assert(self.sizes@.take(n_sizes as int) =~= self.sizes@);
                assert(self.sizes@.take(i + 1).drop_last() =~= self.sizes@.take(i as int));
                assert(self.sizes@.take(i + 1).last() == self.sizes@[i as int]);
            }
            let size = self.sizes[i];
            let end = pos + size as usize;
            let all = self.bytes.as_slice();
            let value = &all[pos..end];
            assert(value@ == self.value_bytes(i as int));
            vals.push(ValRaw::from_bytes(value));
            pos = end;
            i = i + 1;
        }
        vals
    }
}

} // verus!
