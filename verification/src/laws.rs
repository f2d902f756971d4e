use vstd::prelude::*;
use crate::backend::BackendView;
use crate::index_buffer::{is_power_of_two, is_next_power_of_two};
use crate::vertex_buffer::{capacities_possible, placement};
use crate::texture::{TextureFormat, TextureFault, format_for, format_components, size_fits};
use crate::greeting::{greeting_text, joined};
use crate::render::{ScissorRect, clip_fits, scissor_for};

verus! {

/// A resize is applied at the next swap: that swap reconfigures the surface with
/// the new size, and the swap after it does not reconfigure again.
pub proof fn law_resize_reconfigures_once(v: BackendView, w: u32, h: u32)
    ensures
        ({
            let resized = v.after_update_viewport(w, h, true);
            &&& resized.swap_plan().reconfigure_surface
            &&& resized.after_swap().surface_width == w
            &&& resized.after_swap().surface_height == h
            &&& !resized.after_swap().swap_plan().reconfigure_surface
        }),
{
}

/// A viewport update that is not caused by a resize changes nothing.
pub proof fn law_viewport_without_resize_is_ignored(v: BackendView, w: u32, h: u32)
    ensures
        v.after_update_viewport(w, h, false) == v,
{
}

/// After a swap a frame is open and its vertex cache is empty, so the next swap
/// finishes (submits and presents) that frame and the frame's first draw gets
/// its vertices at offset 0.
pub proof fn law_swap_opens_a_frame(v: BackendView)
    ensures
        v.after_swap().frame_open,
        v.after_swap().vertex_cache.len() == 0,
        v.after_swap().after_swap().swap_plan().finish_frame,
        v.after_swap().same_but_buffers(v.after_swap().after_swap()),
{
}

/// A texture that could be created can then be updated with an image of the
/// same size, as long as its row pitch fits in a `u32`; the update's texel size
/// is the one the texture was created with.
pub proof fn law_created_texture_is_updatable(
    v: BackendView,
    slot: i32,
    bytes_per_pixel: u32,
    width: u32,
    height: u32,
    data_len: nat,
)
    requires
        BackendView::create_texture_allowed(bytes_per_pixel, width, height, data_len),
        bytes_per_pixel * width <= u32::MAX,
    ensures
        ({
            let created = v.after_create_texture(slot, format_for(bytes_per_pixel));
            &&& created.update_texture_allowed(slot, width, height, data_len)
            &&& format_components(created.textures[slot]) == bytes_per_pixel
        }),
{
}

/// Destroying a texture forgets it (it can be neither updated nor destroyed
/// again) but keeps its bind group, so draws may still name its slot.
pub proof fn law_destroy_keeps_bind_group(
    v: BackendView,
    slot: i32,
    format: TextureFormat,
    width: u32,
    height: u32,
    data_len: nat,
)
    ensures
        ({
            let gone = v.after_create_texture(slot, format).after_destroy_texture(slot);
            &&& !gone.textures.contains_key(slot)
            &&& !gone.update_texture_allowed(slot, width, height, data_len)
            &&& gone.texture_bind_groups.contains(slot)
        }),
{
}

/// A created texture can be drawn with: its slot gets a bind group, and the
/// rest of the state stays as it was.
pub proof fn law_created_texture_is_drawable(v: BackendView, slot: i32, format: TextureFormat)
    ensures
        v.after_create_texture(slot, format).texture_bind_groups.contains(slot),
        v.after_create_texture(slot, format).textures[slot] == format,
        v.after_create_texture(slot, format).frame_open == v.frame_open,
        v.after_create_texture(slot, format).vertex_cache == v.vertex_cache,
{
}

/// Destroying a texture leaves every other slot as it was.
pub proof fn law_destroy_touches_one_slot(v: BackendView, slot: i32, other: i32)
    requires
        slot != other,
    ensures
        v.after_destroy_texture(slot).textures.contains_key(other) == v.textures.contains_key(
            other,
        ),
        v.after_destroy_texture(slot).textures.contains_key(other) ==> v.after_destroy_texture(
            slot,
        ).textures[other] == v.textures[other],
{
}

/// A repeated request keeps the index buffer: once `ensure_length(n)` has
/// returned, the buffer holds at least `n` quads and never fewer than before, so
/// asking for `n` again keeps it as it is.
pub proof fn law_index_growth_repeat_keeps(before: nat, n: nat, after: nat)
    requires
        n <= before ==> after == before,
        before < n ==> is_next_power_of_two(n, after),
    ensures
        before <= after,
        n <= after,
{
}

/// The size the index buffer grows to is determined by the request and grows
/// with it: asking for more quads never yields a smaller buffer.
pub proof fn law_index_growth_is_monotone(n1: nat, p1: nat, n2: nat, p2: nat)
    requires
        is_next_power_of_two(n1, p1),
        is_next_power_of_two(n2, p2),
        n1 <= n2,
    ensures
        p1 <= p2,
        n1 == n2 ==> p1 == p2,
{
    assert(is_power_of_two(p2));
    if n1 == n2 {
        assert(is_power_of_two(p1));
    }
}

/// While the cache has room and keeps its capacity (std documents that an append
/// within the capacity does not reallocate) and the GPU buffer is as large as
/// that capacity (as it is made), a draw is placed in the buffer as it is: no
/// fault, no rebuild.
pub proof fn law_placement_with_room_succeeds(
    capacity: usize,
    offset: usize,
    len: usize,
    buffer_size: usize,
)
    requires
        capacities_possible(capacity, capacity, offset, len),
        capacity - offset >= len,
        capacity <= buffer_size,
    ensures
        placement(capacity, capacity, offset, len, buffer_size) matches Ok(r) && !r.recreated
            && r.offset == offset && r.end == offset + len,
{
}

/// Without room in the cache a draw always succeeds, on a buffer remade with the
/// cache's new capacity, which holds the draw's range.
pub proof fn law_placement_without_room_rebuilds(
    cap_before: usize,
    cap_after: usize,
    offset: usize,
    len: usize,
    buffer_size: usize,
)
    requires
        capacities_possible(cap_before, cap_after, offset, len),
        cap_before - offset < len,
    ensures
        placement(cap_before, cap_after, offset, len, buffer_size) matches Ok(r) && r.recreated
            && r.end <= r.capacity_after,
{
}

/// Appending a draw's bytes leaves the bytes of every earlier range of the frame
/// as they were, and all those ranges lie in the prefix `0 .. old length` that a
/// rebuild writes into the old buffer.
pub proof fn law_append_keeps_earlier_ranges(cache: Seq<u8>, data: Seq<u8>, start: int, end: int)
    requires
        0 <= start <= end <= cache.len(),
    ensures
        (cache + data).subrange(start, end) == cache.subrange(start, end),
        (cache + data).subrange(0, cache.len() as int).subrange(start, end) == cache.subrange(
            start,
            end,
        ),
{
    assert((cache + data).subrange(start, end) =~= cache.subrange(start, end));
    assert((cache + data).subrange(0, cache.len() as int) =~= cache);
}

/// The scissor rectangle of a clipped draw is the clip rectangle mirrored
/// vertically and clipped to the target: it never reaches past the target's
/// right or bottom edge.
pub proof fn law_clipped_scissor_is_mirrored(
    clip_x: u32,
    clip_y: u32,
    clip_w: u32,
    clip_h: u32,
    target_width: u32,
    target_height: u32,
)
    requires
        clip_fits(clip_x, clip_y, clip_h, target_width, target_height),
    ensures
        ({
            let r: ScissorRect = scissor_for(
                true,
                clip_x,
                clip_y,
                clip_w,
                clip_h,
                target_width,
                target_height,
            );
            &&& r.y + clip_y + clip_h == target_height
            &&& r.y + r.height <= target_height
            &&& r.x + r.width <= target_width
            &&& r.height <= clip_h
            &&& r.width <= clip_w
            &&& r.x == clip_x
            &&& r.height == clip_h
            &&& clip_x + clip_w <= target_width ==> r.width == clip_w
            &&& clip_x + clip_w > target_width ==> r.x + r.width == target_width
        }),
{
}

/// An unclipped draw's scissor rectangle is the whole target.
pub proof fn law_unclipped_scissor_is_whole_target(
    clip_x: u32,
    clip_y: u32,
    clip_w: u32,
    clip_h: u32,
    target_width: u32,
    target_height: u32,
)
    ensures
        scissor_for(false, clip_x, clip_y, clip_w, clip_h, target_width, target_height) == (
        ScissorRect { x: 0, y: 0, width: target_width, height: target_height }),
{
}

/// A texture is created only from exactly `bytes_per_pixel * width * height`
/// bytes: any other length of otherwise valid data is refused as a size mismatch.
pub proof fn law_create_needs_exact_data(
    bytes_per_pixel: u32,
    width: u32,
    height: u32,
    data_len: nat,
)
    ensures
        BackendView::create_texture_fault(bytes_per_pixel, width, height, data_len) is None
            ==> data_len == bytes_per_pixel * width * height,
        BackendView::create_texture_allowed(bytes_per_pixel, width, height, data_len)
            ==> data_len == bytes_per_pixel * width * height,
        (bytes_per_pixel == 1 || bytes_per_pixel == 4) && size_fits(
            bytes_per_pixel as nat,
            width as nat,
            height as nat,
        ) && data_len != bytes_per_pixel * width * height ==> BackendView::create_texture_fault(
            bytes_per_pixel,
            width,
            height,
            data_len,
        ) == Some(TextureFault::SizeMismatch),
{
}

/// A texture is updated only from exactly `texel bytes * width * height` bytes,
/// 1 texel byte for an `R8Unorm` texture and 4 for an `Rgba8Unorm` one: any other
/// length of otherwise valid data is refused as a size mismatch.
pub proof fn law_update_needs_exact_data(
    v: BackendView,
    slot: i32,
    width: u32,
    height: u32,
    data_len: nat,
)
    requires
        v.textures.contains_key(slot),
    ensures
        v.update_texture_fault(slot, width, height, data_len) is None && v.textures[slot]
            == TextureFormat::R8Unorm ==> data_len == width * height,
        v.update_texture_fault(slot, width, height, data_len) is None && v.textures[slot]
            == TextureFormat::Rgba8Unorm ==> data_len == 4 * width * height,
        v.update_texture_allowed(slot, width, height, data_len) && v.textures[slot]
            == TextureFormat::R8Unorm ==> data_len == width * height,
        v.update_texture_allowed(slot, width, height, data_len) && v.textures[slot]
            == TextureFormat::Rgba8Unorm ==> data_len == 4 * width * height,
        v.textures[slot] == TextureFormat::Rgba8Unorm && size_fits(4, width as nat, height as nat)
            && data_len != 4 * width * height ==> v.update_texture_fault(
            slot,
            width,
            height,
            data_len,
        ) == Some(TextureFault::SizeMismatch),
        v.textures[slot] == TextureFormat::R8Unorm && size_fits(1, width as nat, height as nat)
            && data_len != width * height ==> v.update_texture_fault(slot, width, height, data_len)
            == Some(TextureFault::SizeMismatch),
{
}

/// The total length of the names.
pub open spec fn name_lengths(names: Seq<Seq<char>>) -> nat
    decreases names.len(),
{
    if names.len() == 0 {
        0
    } else {
        name_lengths(names.drop_last()) + names.last().len()
    }
}

proof fn lemma_joined_layout(names: Seq<Seq<char>>, sep: Seq<char>, i: int)
    requires
        0 <= i < names.len(),
    ensures
        joined(names, sep).len() == name_lengths(names) + sep.len() * (names.len() - 1),
        name_lengths(names.take(i)) + sep.len() * i + names[i].len() <= joined(names, sep).len(),
        joined(names, sep).subrange(
            name_lengths(names.take(i)) + sep.len() * i,
            name_lengths(names.take(i)) + sep.len() * i + names[i].len(),
        ) == names[i],
    decreases names.len(),
{
    let n = names.len();
    if n == 1 {
        assert(names.drop_last() =~= Seq::<Seq<char>>::empty());
        assert(sep.len() * (names.len() - 1) == 0) by (nonlinear_arith)
            requires
                names.len() == 1,
        ;
        assert(sep.len() * i == 0) by (nonlinear_arith)
            requires
                i == 0,
        ;
        assert(names.take(0) =~= Seq::<Seq<char>>::empty());
        assert(name_lengths(names) == names[0].len());
        assert(joined(names, sep) == names[0]);
        assert(joined(names, sep).subrange(0, names[0].len() as int) =~= names[0]);
    } else {
        let init = names.drop_last();
        let j = if i < n - 1 {
            i
        } else {
            0
        };
        lemma_joined_layout(init, sep, j);
        let head = joined(init, sep);
        assert(joined(names, sep) == head + sep + names.last());
        assert(sep.len() * (n - 2) + sep.len() == sep.len() * (n - 1)) by (nonlinear_arith);
        assert(name_lengths(names) == name_lengths(init) + names.last().len());
        assert(joined(names, sep).len() == name_lengths(names) + sep.len() * (names.len() - 1));
        if i < n - 1 {
            assert(init.take(i) =~= names.take(i));
            assert(init[i] == names[i]);
            let a = name_lengths(names.take(i)) + sep.len() * i;
            assert((head + sep + names.last()).subrange(a, a + names[i].len()) =~= head.subrange(
                a,
                a + names[i].len(),
            ));
        } else {
            assert(names.take(i) =~= init);
            assert(sep.len() * (n - 1) == sep.len() * (n - 2) + sep.len()) by (nonlinear_arith);
            let a = head.len() + sep.len();
            assert((head + sep + names.last()).subrange(a as int, (a + names.last().len()) as int) =~= names.last());
        }
    }
}

/// The greeting names every name, in order: for a non-empty list it is
/// `Hello, ` followed by the names separated by `, ` and a closing `!`, so its
/// length is 8 plus the names' lengths plus 2 per separator, and name `i` stands
/// right after the names before it and their separators.
pub proof fn law_greeting_names_everyone(names: Seq<Seq<char>>, i: int)
    requires
        0 <= i < names.len(),
    ensures
        greeting_text(names).len() == 8 + name_lengths(names) + 2 * (names.len() - 1),
        greeting_text(names).subrange(0, 7) == "Hello, "@,
        greeting_text(names)[greeting_text(names).len() - 1] == '!',
        greeting_text(names).subrange(
            7 + name_lengths(names.take(i)) + 2 * i,
            7 + name_lengths(names.take(i)) + 2 * i + names[i].len(),
        ) == names[i],
{
    reveal_strlit("Hello, ");
    reveal_strlit(", ");
    reveal_strlit("!");
    lemma_joined_layout(names, ", "@, i);
    let body = joined(names, ", "@);
    let text = "Hello, "@ + body + "!"@;
    assert(greeting_text(names) == text);
    let a = 7 + name_lengths(names.take(i)) + 2 * i;
    assert(text.subrange(a, a + names[i].len()) =~= body.subrange(a - 7, a - 7 + names[i].len()));
    assert(text.subrange(0, 7) =~= "Hello, "@);
}

/// With no names the greeting is `Hello!`.
pub proof fn law_greeting_without_names()
    ensures
        greeting_text(Seq::<Seq<char>>::empty()) == "Hello!"@,
{
}

/// The bytes of the draws staged in a frame, in order.
pub open spec fn staged(draws: Seq<Seq<u8>>) -> Seq<u8>
    decreases draws.len(),
{
    if draws.len() == 0 {
        Seq::<u8>::empty()
    } else {
        staged(draws.drop_last()) + draws.last()
    }
}

/// Where draw `k` of a frame starts in the staged bytes.
pub open spec fn staged_offset(draws: Seq<Seq<u8>>, k: int) -> int {
    staged(draws.take(k)).len() as int
}

proof fn lemma_staged_take_grows(draws: Seq<Seq<u8>>, k: int, m: int)
    requires
        0 <= k <= m <= draws.len(),
    ensures
        staged(draws.take(k)).len() <= staged(draws.take(m)).len(),
        staged(draws.take(m)).subrange(0, staged(draws.take(k)).len() as int) == staged(
            draws.take(k),
        ),
    decreases m - k,
{
    if k == m {
        assert(staged(draws.take(m)).subrange(0, staged(draws.take(k)).len() as int) =~= staged(
            draws.take(k),
        ));
    } else {
        lemma_staged_take_grows(draws, k, m - 1);
        assert(draws.take(m).drop_last() =~= draws.take(m - 1));
        let prefix = staged(draws.take(m - 1));
        let small = staged(draws.take(k));
        assert(staged(draws.take(m)) == prefix + draws[m - 1]);
        assert((prefix + draws[m - 1]).subrange(0, small.len() as int) =~= prefix.subrange(
            0,
            small.len() as int,
        ));
    }
}

/// No vertex slice is left stale. The buffer a draw's slice refers to is next
/// written either when a later draw `j` rebuilds it (with the bytes staged
/// before draw `j`, `staged(draws.take(j))`) or at the swap (with all the bytes
/// of the frame, `j == draws.len()`); either way those bytes hold draw `k`'s
/// vertices at draw `k`'s range.
pub proof fn law_no_stale_vertex_slice(draws: Seq<Seq<u8>>, k: int, j: int)
    requires
        0 <= k < j <= draws.len(),
    ensures
        staged(draws.take(j)).subrange(
            staged_offset(draws, k),
            staged_offset(draws, k) + draws[k].len(),
        ) == draws[k],
{
    lemma_staged_take_grows(draws, k + 1, j);
    assert(draws.take(k + 1).drop_last() =~= draws.take(k));
    let before = staged(draws.take(k));
    let through = staged(draws.take(k + 1));
    assert(through == before + draws[k]);
    assert(through.subrange(before.len() as int, (before.len() + draws[k].len()) as int) =~= draws[k]);
    let all = staged(draws.take(j));
    assert(all.subrange(0, through.len() as int) == through);
    assert(all.subrange(before.len() as int, (before.len() + draws[k].len()) as int) =~= through.subrange(
        before.len() as int,
        (before.len() + draws[k].len()) as int,
    ));
}

} // verus!
