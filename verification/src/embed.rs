//! The logic of the embedded hosts that run a recorded guest on a
//! microcontroller: what they print on the console and the UART, what they
//! ask of the kernel allocator, and how host functions read the guest's
//! pin specifications.

use vstd::prelude::*;
use vstd::string::StringSliceAdditionalSpecFns;
use crate::text::{decimal, hex_bytes, push_decimal, push_hex_bytes};

verus! {

/// The most bytes one `printk` call of the console prints.
pub const CONSOLE_CHUNK: usize = 128;

/// A GPIO pin specification as a 32-bit guest lays it out in its memory:
/// the device address, the pin number and the devicetree flags, each a
/// little-endian 32-bit word.
#[derive(Debug, Clone, Copy, PartialEq, Eq, Structural)]
pub struct GpioDtSpec {
    /// Address of the GPIO device.
    pub port: u32,
    /// Pin number on the device.
    pub pin: u32,
    /// Devicetree flags of the pin.
    pub dt_flags: u32,
}

/// The little-endian 32-bit word at `offset` of `mem`.
pub open spec fn le_word(mem: Seq<u8>, offset: int) -> u32 {
    (mem[offset] + mem[offset + 1] * 256 + mem[offset + 2] * 65536 + mem[offset + 3]
        * 16777216) as u32
}

/// Reads the little-endian 32-bit word at `offset` of `mem`.
fn read_le_word(mem: &[u8], offset: usize) -> (r: u32)
    requires
        offset + 4 <= mem@.len(),
    ensures
        r == le_word(mem@, offset as int),
{
    let b0 = mem[offset] as u32;
    let b1 = mem[offset + 1] as u32;
    let b2 = mem[offset + 2] as u32;
    let b3 = mem[offset + 3] as u32;
    b0 + b1 * 256 + b2 * 65536 + b3 * 16777216
}

impl GpioDtSpec {
    /// The pin specification a guest passed by its address `offset` in its
    /// memory `mem`, or `None` when the twelve bytes do not lie in `mem`.
    pub fn from_guest_memory(mem: &[u8], offset: u32) -> (r: Option<GpioDtSpec>)
        ensures
            offset + 12 <= mem@.len() <==> r is Some,
            r matches Some(s) ==> s == (GpioDtSpec {
                port: le_word(mem@, offset as int),
                pin: le_word(mem@, offset + 4),
                dt_flags: le_word(mem@, offset + 8),
            }),
    {
        let len = mem.len();
        if len < 12 || (offset as usize) > len - 12 {
            return None;
        }
        let o = offset as usize;
        let port = read_le_word(mem, o);
        let pin = read_le_word(mem, o + 4);
        let dt_flags = read_le_word(mem, o + 8);
        Some(GpioDtSpec { port, pin, dt_flags })
    }
}

/// The trace writer of the firmware: it prints every byte of the trace on
/// the console as two lower-case hexadecimal digits.
#[derive(Debug)]
pub struct BufWriter;

impl BufWriter {
    /// A trace writer for the console.
    pub fn new() -> (r: Self) {
        BufWriter
    }

    /// Takes all of `data`: returns how many bytes were written, which is all
    /// of them, and the console text that stands for them.
    pub fn write(&mut self, data: &[u8]) -> (r: (usize, String))
        ensures
            r.0 == data@.len(),
            r.1@ == hex_bytes(data@),
    {
        let mut text = String::new();
        push_hex_bytes(&mut text, data);
        (data.len(), text)
    }
}

/// The `i`-th piece of `bytes` in pieces of [`CONSOLE_CHUNK`] bytes.
pub open spec fn chunk_of(bytes: Seq<u8>, i: int) -> Seq<u8> {
    let start = i * CONSOLE_CHUNK;
    let end = if bytes.len() - start > CONSOLE_CHUNK {
        start + CONSOLE_CHUNK
    } else {
        bytes.len() as int
    };
    bytes.subrange(start, end)
}

/// The number of pieces of [`CONSOLE_CHUNK`] bytes that `n` bytes make.
pub open spec fn chunk_count(n: nat) -> nat {
    ((n + CONSOLE_CHUNK - 1) / (CONSOLE_CHUNK as int)) as nat
}

/// The console of the firmware, which prints through the kernel's `printk`.
#[derive(Debug)]
pub struct ZephyrConsole;

impl ZephyrConsole {
    /// The pieces in which `s` goes to `printk`, in order: its bytes in
    /// pieces of [`CONSOLE_CHUNK`] bytes, the last one possibly shorter.
    pub fn write_str(&mut self, s: &str) -> (r: Vec<Vec<u8>>)
        ensures
            r@.len() == chunk_count(s.spec_bytes().len()),
            forall|i: int| 0 <= i < r@.len() ==> (#[trigger] r@[i])@ == chunk_of(s.spec_bytes(), i),
    {
        let bytes = s.as_bytes();
        let n = bytes.len();
        let mut out: Vec<Vec<u8>> = Vec::new();
        let mut start: usize = 0;
        while start < n
            invariant
                n == bytes@.len(),
                bytes@ == s.spec_bytes(),
                start <= n,
                start == out@.len() * CONSOLE_CHUNK || (start == n && out@.len() == chunk_count(
                    n as nat,
                )),
                start == out@.len() * CONSOLE_CHUNK ==> out@.len() == chunk_count(start as nat),
                forall|i: int| 0 <= i < out@.len() ==> (#[trigger] out@[i])@ == chunk_of(bytes@, i),
            decreases n - start,
        {
            let end = if n - start > CONSOLE_CHUNK {
                start + CONSOLE_CHUNK
            } else {
                n
            };
            let mut piece: Vec<u8> = Vec::new();
            let mut j: usize = start;
            while j < end
                invariant
                    start <= j <= end <= n,
                    n == bytes@.len(),
                    piece@ == bytes@.subrange(start as int, j as int),
                decreases end - j,
            {
                piece.push(bytes[j]);
                assert(piece@ =~= bytes@.subrange(start as int, j + 1));
                j = j + 1;
            }
            assert(piece@ == chunk_of(bytes@, out@.len() as int));
            out.push(piece);
            proof {
                let k = (out@.len() - 1) as int;
                assert(start == k * 128);
                if end == n {
                    assert(n - k * 128 <= 128);
                    assert(chunk_count(n as nat) == k + 1) by (nonlinear_arith)
                        requires
                            0 < n - k * 128 <= 128,
                            k >= 0,
                            chunk_count(n as nat) == (n + 127) / 128,
                    ;
                } else {
                    assert(end == (k + 1) * 128);
                    assert(chunk_count(end as nat) == k + 1) by (nonlinear_arith)
                        requires
                            end == (k + 1) * 128,
                            k >= 0,
                            chunk_count(end as nat) == (end + 127) / 128,
                    ;
                }
            }
            start = end;
        }
        out
    }
}

/// What the kernel is asked for one allocation.
#[derive(Debug, Clone, Copy, PartialEq, Eq, Structural)]
pub enum AllocPlan {
    /// Nothing: a zero-sized allocation gets a dangling, well-aligned address.
    Dangling,
    /// `k_malloc(size)`, which aligns to the size of a pointer.
    Malloc { size: usize },
    /// `k_aligned_alloc(align, size)`, for stricter alignments.
    AlignedAlloc { align: usize, size: usize },
}

/// The global allocator of the firmware, on the kernel heap.
#[derive(Debug)]
pub struct ZephyrAlloc;

impl ZephyrAlloc {
    /// What to ask the kernel for a block of `size` bytes aligned to `align`.
    pub fn plan_alloc(&self, size: usize, align: usize) -> (r: AllocPlan)
        ensures
            r == if size == 0 {
                AllocPlan::Dangling
            } else if align <= vstd::layout::align_of::<usize>() {
                AllocPlan::Malloc { size }
            } else {
                AllocPlan::AlignedAlloc { align, size }
            },
    {
        if size == 0 {
            return AllocPlan::Dangling;
        }
        if align <= core::mem::align_of::<usize>() {
            AllocPlan::Malloc { size }
        } else {
            AllocPlan::AlignedAlloc { align, size }
        }
    }

    /// Whether freeing a block of `size` bytes calls `k_free`: not for a
    /// zero-sized block, whose address is dangling.
    pub fn dealloc(&self, size: usize) -> (r: bool)
        ensures
            r == (size != 0),
    {
        size != 0
    }
}

/// The message of a failed allocation of `size` bytes aligned to `align`.
pub fn oom(size: usize, align: usize) -> (r: String)
    ensures
        r@ == "alloc failed: size="@ + decimal(size as nat) + " align="@ + decimal(align as nat),
{
    let mut out = String::from_str("alloc failed: size=");
    push_decimal(&mut out, size as u64);
    out.append(" align=");
    push_decimal(&mut out, align as u64);
    proof {
        reveal_strlit("alloc failed: size=");
        reveal_strlit(" align=");
    }
    out
}

/// What the panic handler prints: a `PANIC` line, then the file and line of
/// the panic, or `(no loc)` when it has no location.
pub fn panic_report(location: Option<(&str, u32)>) -> (r: String)
    ensures
        r@ == "PANIC\n"@ + match location {
            Some((file, line)) => "file: "@ + file@ + "\nline: "@ + decimal(line as nat) + "\n"@,
            None => "(no loc)\n"@,
        },
{
    let mut out = String::from_str("PANIC\n");
    proof {
        reveal_strlit("PANIC\n");
        reveal_strlit("file: ");
        reveal_strlit("\nline: ");
        reveal_strlit("\n");
        reveal_strlit("(no loc)\n");
    }
    match location {
        Some((file, line)) => {
            out.append("file: ");
            out.append(file);
            out.append("\nline: ");
            push_decimal(&mut out, line as u64);
            out.append("\n");
        },
        None => {
            out.append("(no loc)\n");
        },
    }
    out
}

/// The position of the first NUL byte of `s`, or its length when it has none.
pub open spec fn nul_index(s: Seq<u8>) -> nat
    decreases s.len(),
{
    if s.len() == 0 || s[0] == 0 {
        0
    } else {
        1 + nul_index(s.drop_first())
    }
}

/// The bytes `s` as a terminal wants them: a carriage return before every
/// line feed.
pub open spec fn crlf(s: Seq<u8>) -> Seq<u8>
    decreases s.len(),
{
    if s.len() == 0 {
        Seq::empty()
    } else if s.last() == 10 {
        crlf(s.drop_last()) + seq![13u8, 10u8]
    } else {
        crlf(s.drop_last()).push(s.last())
    }
}

/// The first NUL byte of `s` is where no earlier byte is NUL and the byte is
/// NUL or past the end.
proof fn lemma_nul_index(s: Seq<u8>, k: int)
    requires
        0 <= k <= s.len(),
        k < s.len() ==> s[k] == 0,
        forall|j: int| 0 <= j < k ==> s[j] != 0,
    ensures
        nul_index(s) == k,
    decreases k,
{
    if k > 0 {
        assert forall|j: int| 0 <= j < k - 1 implies s.drop_first()[j] != 0 by {
            assert(s.drop_first()[j] == s[j + 1]);
        }
        lemma_nul_index(s.drop_first(), k - 1);
    }
}

/// The bytes a NUL-terminated string `bytes` puts on the UART: those before
/// the first NUL byte (all of them when there is none), with a carriage
/// return before every line feed.
pub fn uart_puts_bytes(bytes: &[u8]) -> (r: Vec<u8>)
    ensures
        r@ == crlf(bytes@.take(nul_index(bytes@) as int)),
{
    let n = bytes.len();
    let mut out: Vec<u8> = Vec::new();
    let mut i: usize = 0;
    while i < n && bytes[i] != 0
        invariant
            n == bytes@.len(),
            i <= n,
            forall|j: int| 0 <= j < i ==> bytes@[j] != 0,
            out@ == crlf(bytes@.take(i as int)),
        decreases n - i,
    {
        let b = bytes[i];
        if b == 10 {
            out.push(13);
        }
        out.push(b);
        proof {
            let t = bytes@.take(i + 1);
            assert(t.drop_last() =~= bytes@.take(i as int));
            assert(t.last() == b);
        }
        i = i + 1;
        assert(out@ =~= crlf(bytes@.take(i as int)));
    }
    proof {
        lemma_nul_index(bytes@, i as int);
    }
    out
}

/// What the host function `host-should-continue` answers the guest: `1`
/// while the host keeps running, `0` once it was asked to stop.
pub fn host_should_continue(keep_running: bool) -> (r: i32)
    ensures
        r == if keep_running {
            1i32
        } else {
            0i32
        },
{
    if keep_running {
        1
    } else {
        0
    }
}

} // verus!
