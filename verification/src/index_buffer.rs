use vstd::prelude::*;

verus! {

/// The largest number of quads whose indices fit the 32-bit index format:
/// the last quad's highest index `4 * (n - 1) + 3` must not exceed `u32::MAX`.
pub const MAX_QUADS: usize = 0x4000_0000;

/// `x` is a power of two.
pub open spec fn is_power_of_two(x: nat) -> bool
    decreases x,
{
    if x == 1 {
        true
    } else if x < 2 {
        false
    } else {
        x % 2 == 0 && is_power_of_two((x / 2) as nat)
    }
}

/// `p` is the smallest power of two that is at least `n`.
pub open spec fn is_next_power_of_two(n: nat, p: nat) -> bool {
    &&& is_power_of_two(p)
    &&& n <= p
    &&& forall|q: nat| #[trigger] is_power_of_two(q) && n <= q ==> p <= q
}

/// The six corners, in drawing order, of the two triangles that make up a quad:
/// (0, 1, 2) and (0, 3, 2).
pub open spec fn quad_corner(k: int) -> int {
    seq![0int, 1, 2, 0, 3, 2][k]
}

/// The `j`-th entry of the quad index list: quad `j / 6` uses the vertices
/// `4 * (j / 6) .. 4 * (j / 6) + 3`.
pub open spec fn quad_index(j: int) -> int {
    quad_corner(j % 6) + 4 * (j / 6)
}

/// The whole index list for `len` quads.
pub open spec fn quad_index_words(len: nat) -> Seq<u32> {
    Seq::new(6 * len, |j: int| quad_index(j) as u32)
}

/// The 32-bit word made of four bytes starting at `4 * i`, little-endian.
pub open spec fn le_word(bytes: Seq<u8>, i: int) -> int {
    bytes[4 * i] + 256 * bytes[4 * i + 1] + 65536 * bytes[4 * i + 2] + 16777216 * bytes[4 * i + 3]
}

/// The 32-bit word made of four bytes starting at `4 * i`, big-endian.
pub open spec fn be_word(bytes: Seq<u8>, i: int) -> int {
    bytes[4 * i + 3] + 256 * bytes[4 * i + 2] + 65536 * bytes[4 * i + 1] + 16777216 * bytes[4 * i]
}

/// `bytes` is the in-memory image of `words` on a machine of either byte order.
pub open spec fn is_native_image(words: Seq<u32>, bytes: Seq<u8>) -> bool {
    &&& bytes.len() == 4 * words.len()
    &&& {
        ||| forall|i: int| 0 <= i < words.len() ==> le_word(bytes, i) == #[trigger] words[i]
        ||| forall|i: int| 0 <= i < words.len() ==> be_word(bytes, i) == #[trigger] words[i]
    }
}

/// `usize::next_power_of_two`: std documents it as returning the smallest power of
/// two greater than or equal to its argument (and as panicking in debug builds
/// when that power does not fit, which `requires` rules out).
#[verifier::external_body]
fn usize_next_power_of_two(n: usize) -> (p: usize)
    requires
        n <= usize::MAX / 2 + 1,
    ensures
        is_next_power_of_two(n as nat, p as nat),
{
    n.next_power_of_two()
}

/// `bytemuck::cast_slice::<u32, u8>`: it reinterprets the memory of the words as
/// bytes, four per word in the machine's byte order; the bytes are copied out.
#[verifier::external_body]
fn u32s_as_bytes(words: &[u32]) -> (bytes: Vec<u8>)
    ensures
        is_native_image(words@, bytes@),
{
    bytemuck::cast_slice::<u32, u8>(words).to_vec()
}

proof fn lemma_quad_position(i: int, k: int)
    requires
        0 <= i,
        0 <= k < 6,
    ensures
        (6 * i + k) / 6 == i,
        (6 * i + k) % 6 == k,
{
    vstd::arithmetic::div_mod::lemma_fundamental_div_mod_converse(6 * i + k, 6, i, k);
}

/// The index list for `len` quads: quad `i` is drawn as the triangles
/// `(4i, 4i+1, 4i+2)` and `(4i, 4i+3, 4i+2)`.
pub fn quad_indices(len: usize) -> (indices: Vec<u32>)
    requires
        len <= MAX_QUADS,
        6 * len <= usize::MAX,
    ensures
        indices@.len() == 6 * len,
        forall|j: int| 0 <= j < indices@.len() ==> #[trigger] indices@[j] == quad_index(j),
{
    let mut indices: Vec<u32> = Vec::new();
    let n: u32 = len as u32;
    let mut i: u32 = 0;
    while i < n
        invariant
            n == len,
            len <= MAX_QUADS,
            i <= n,
            indices@.len() == 6 * i,
            forall|j: int| 0 <= j < indices@.len() ==> #[trigger] indices@[j] == quad_index(j),
        decreases n - i,
    {
        let base: u32 = i * 4;
        let ghost start: int = 6 * i;
        indices.push(base);
        indices.push(base + 1);
        indices.push(base + 2);
        indices.push(base);
        indices.push(base + 3);
        indices.push(base + 2);
        proof {
            assert forall|j: int| 0 <= j < indices@.len() implies #[trigger] indices@[j]
                == quad_index(j) by {
                if j >= start {
                    lemma_quad_position(i as int, j - start);
                }
            }
        }
        i = i + 1;
    }
    indices
}

/// The quad index buffer: it holds the indices of `len` quads, where `len` is a
/// power of two that only grows.
pub struct IndexBuffer {
    len: usize,
}

impl IndexBuffer {
    /// The number of quads whose indices the buffer holds.
    pub closed spec fn quads(&self) -> nat {
        self.len as nat
    }

    /// The buffer holds a power of two of quads, at least 8 and at most `MAX_QUADS`.
    pub open spec fn wf(&self) -> bool {
        &&& is_power_of_two(self.quads())
        &&& 8 <= self.quads() <= MAX_QUADS
    }

    /// A buffer for 8 quads.
    pub fn new() -> (buffer: Self)
        ensures
            buffer.wf(),
            buffer.quads() == 8,
    {
        proof {
            reveal_with_fuel(is_power_of_two, 4);
        }
        IndexBuffer { len: 8 }
    }

    /// The number of quads whose indices the buffer holds.
    pub fn len(&self) -> (len: usize)
        ensures
            len == self.quads(),
    {
        self.len
    }

    /// Makes the buffer hold at least `len` quads. Returns `false` when it was
    /// too small and has been remade for the next power of two of `len`,
    /// `true` when it is left as it was.
    pub fn ensure_length(&mut self, len: usize) -> (kept: bool)
        requires
            old(self).wf(),
            len <= MAX_QUADS,
        ensures
            final(self).wf(),
            kept == (len <= old(self).quads()),
            kept ==> final(self).quads() == old(self).quads(),
            !kept ==> is_next_power_of_two(len as nat, final(self).quads()),
            len <= final(self).quads(),
    {
        if self.len < len {
            let p: usize = usize_next_power_of_two(len);
            proof {
                reveal_with_fuel(is_power_of_two, 32);
                assert(is_power_of_two(MAX_QUADS as nat));
            }
            self.len = p;
            false
        } else {
            true
        }
    }

    /// The contents of the GPU index buffer for `len` quads: the words of
    /// `quad_indices(len)` in the machine's byte order.
    pub fn buffer_for_len(len: usize) -> (bytes: Vec<u8>)
        requires
            len <= MAX_QUADS,
            24 * len <= usize::MAX,
        ensures
            bytes@.len() == 24 * len,
            is_native_image(quad_index_words(len as nat), bytes@),
    {
        let indices: Vec<u32> = quad_indices(len);
        let bytes: Vec<u8> = u32s_as_bytes(indices.as_slice());
        assert(indices@ =~= quad_index_words(len as nat));
        bytes
    }
}

} // verus!
