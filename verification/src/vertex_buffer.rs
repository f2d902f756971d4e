use vstd::prelude::*;

verus! {

/// The capacity the vertex cache is created with.
pub const INITIAL_CACHE_CAPACITY: usize = 1024;

/// `Vec::capacity`: std documents it as the number of elements the vector can hold
/// without reallocating, which is never less than its length. Which capacity an
/// allocation got is up to the allocator, so nothing more is stated.
#[verifier::external_body]
fn vec_capacity(v: &Vec<u8>) -> (cap: usize)
    ensures
        v@.len() <= cap,
{
    v.capacity()
}

/// Where a draw's vertex bytes landed in the GPU vertex buffer.
#[derive(Clone, Copy, Debug, PartialEq, Eq)]
pub struct VertexReservation {
    /// First byte of the draw's vertices in the buffer.
    pub offset: usize,
    /// One past the last byte of the draw's vertices.
    pub end: usize,
    /// The cache's capacity when the reservation began.
    pub capacity_before: usize,
    /// The cache's capacity once the bytes were appended.
    pub capacity_after: usize,
    /// The cache did not have room: the bytes cached before (`0 .. offset`) are
    /// to be written into the old buffer, and a new buffer of `capacity_after`
    /// bytes replaces it.
    pub recreated: bool,
}

/// Why a reservation could not be made; each is a fatal error for the caller.
#[derive(Clone, Copy, Debug, PartialEq, Eq)]
pub enum VertexFault {
    /// The cache grew although it had room for the bytes.
    CapacityChanged,
    /// The reserved range does not lie inside the current GPU buffer.
    OutOfBuffer,
}

/// Capacities that the cache can have reported around appending `len` bytes to
/// `offset` cached bytes: never less than the length at the time.
pub open spec fn capacities_possible(cap_before: usize, cap_after: usize, offset: usize, len: usize) -> bool {
    &&& offset <= cap_before
    &&& offset + len <= cap_after
}

/// Where `len` bytes appended to `offset` cached bytes go, given the cache's
/// capacity before (`cap_before`) and after (`cap_after`) the append and the GPU
/// buffer's size. With room in the cache (`cap_before - offset >= len`) the
/// capacity must not change, and the range `offset .. offset + len` must lie in
/// the buffer; without room the buffer is remade with the new capacity.
pub open spec fn placement(
    cap_before: usize,
    cap_after: usize,
    offset: usize,
    len: usize,
    buffer_size: usize,
) -> Result<VertexReservation, VertexFault> {
    if cap_before - offset >= len {
        if cap_after != cap_before {
            Err(VertexFault::CapacityChanged)
        } else if offset + len > buffer_size {
            Err(VertexFault::OutOfBuffer)
        } else {
            Ok(
                VertexReservation {
                    offset,
                    end: (offset + len) as usize,
                    capacity_before: cap_before,
                    capacity_after: cap_after,
                    recreated: false,
                },
            )
        }
    } else {
        Ok(
            VertexReservation {
                offset,
                end: (offset + len) as usize,
                capacity_before: cap_before,
                capacity_after: cap_after,
                recreated: true,
            },
        )
    }
}

/// `res` is where `len` bytes appended to `offset` cached bytes go, as
/// `placement` decides it for some capacities the cache can have reported.
pub open spec fn placement_possible(
    res: Result<VertexReservation, VertexFault>,
    offset: usize,
    len: usize,
    buffer_size: usize,
) -> bool {
    exists|cap_before: usize, cap_after: usize|
        {
            &&& capacities_possible(cap_before, cap_after, offset, len)
            &&& res == #[trigger] placement(cap_before, cap_after, offset, len, buffer_size)
        }
}

/// Decides where appended vertex bytes go from the capacities measured around
/// the append (see `placement`).
pub fn place_vertices(
    cap_before: usize,
    cap_after: usize,
    offset: usize,
    len: usize,
    buffer_size: usize,
) -> (res: Result<VertexReservation, VertexFault>)
    requires
        capacities_possible(cap_before, cap_after, offset, len),
    ensures
        res == placement(cap_before, cap_after, offset, len, buffer_size),
{
    let end: usize = offset + len;
    if cap_before - offset >= len {
        if cap_after != cap_before {
            Err(VertexFault::CapacityChanged)
        } else if end > buffer_size {
            Err(VertexFault::OutOfBuffer)
        } else {
            Ok(
                VertexReservation {
                    offset,
                    end,
                    capacity_before: cap_before,
                    capacity_after: cap_after,
                    recreated: false,
                },
            )
        }
    } else {
        Ok(
            VertexReservation {
                offset,
                end,
                capacity_before: cap_before,
                capacity_after: cap_after,
                recreated: true,
            },
        )
    }
}

/// A CPU-side staging cache of vertex bytes and the size of the GPU buffer
/// that mirrors it.
pub struct VertexBuffer {
    cache: Vec<u8>,
    buffer_size: usize,
}

impl VertexBuffer {
    /// The bytes staged since the last `finalize`.
    pub closed spec fn cached(&self) -> Seq<u8> {
        self.cache@
    }

    /// The size in bytes of the GPU vertex buffer.
    pub closed spec fn size(&self) -> nat {
        self.buffer_size as nat
    }

    /// An empty cache with room for `INITIAL_CACHE_CAPACITY` bytes; the GPU buffer
    /// gets the capacity that the cache was given.
    pub fn new() -> (buffer: Self)
        ensures
            buffer.cached() == Seq::<u8>::empty(),
    {
        let cache: Vec<u8> = Vec::with_capacity(INITIAL_CACHE_CAPACITY);
        let buffer_size: usize = vec_capacity(&cache);
        VertexBuffer { cache, buffer_size }
    }

    /// The bytes staged since the last `finalize`.
    pub fn cache(&self) -> (bytes: &[u8])
        ensures
            bytes@ == self.cached(),
    {
        self.cache.as_slice()
    }

    /// The size in bytes of the GPU vertex buffer.
    pub fn buffer_size(&self) -> (size: usize)
        ensures
            size == self.size(),
    {
        self.buffer_size
    }

    /// Appends `vertex_data` to the cache and says where it lies in the GPU
    /// buffer, as `placement` decides from the cache's capacity measured before
    /// and after the append. When the cache had no room, the buffer is remade
    /// with the cache's new capacity.
    pub fn reserve_vertices(&mut self, vertex_data: &[u8]) -> (res: Result<
        VertexReservation,
        VertexFault,
    >)
        requires
            vertex_data@.len() > 0,
        ensures
            final(self).cached() == old(self).cached() + vertex_data@,
            placement_possible(
                res,
                old(self).cached().len() as usize,
                vertex_data@.len() as usize,
                old(self).size() as usize,
            ),
            match res {
                Ok(r) => {
                    &&& r.recreated ==> final(self).size() == r.capacity_after
                    &&& !r.recreated ==> final(self).size() == old(self).size()
                    &&& r.end <= final(self).size()
                    &&& final(self).cached().subrange(r.offset as int, r.end as int)
                        == vertex_data@
                    &&& final(self).cached().subrange(0, r.offset as int) == old(self).cached()
                },
                Err(_) => final(self).size() == old(self).size(),
            },
    {
        let cap_before: usize = vec_capacity(&self.cache);
        let offset: usize = self.cache.len();
        let ghost old_cache = self.cache@;
        self.cache.extend_from_slice(vertex_data);
        let cap_after: usize = vec_capacity(&self.cache);
        proof {
            assert(self.cache@ =~= old_cache + vertex_data@);
            assert(self.cache@.subrange(offset as int, offset + vertex_data@.len()) =~= vertex_data@);
            assert(self.cache@.subrange(0, offset as int) =~= old_cache);
        }
        let ghost old_size = self.buffer_size;
        let res = place_vertices(cap_before, cap_after, offset, vertex_data.len(), self.buffer_size);
        assert(res == placement(
            cap_before,
            cap_after,
            old(self).cached().len() as usize,
            vertex_data@.len() as usize,
            old(self).size() as usize,
        ));
        if let Ok(r) = res {
            if r.recreated {
                self.buffer_size = cap_after;
            }
        }
        res
    }

    /// Empties the cache once its bytes have been written to the GPU buffer;
    /// the buffer stays as it is.
    pub fn finalize_buffers(&mut self)
        ensures
            final(self).cached() == Seq::<u8>::empty(),
            final(self).size() == old(self).size(),
    {
        self.cache.clear();
    }
}

} // verus!
