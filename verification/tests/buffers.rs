use wgpu_backend::index_buffer::{quad_indices, IndexBuffer, MAX_QUADS};
use wgpu_backend::vertex_buffer::{
    place_vertices, VertexBuffer, VertexFault, VertexReservation, INITIAL_CACHE_CAPACITY,
};

#[test]
fn quad_indices_follow_the_two_triangle_pattern() {
    assert_eq!(quad_indices(0), Vec::<u32>::new());
    assert_eq!(quad_indices(2), vec![0, 1, 2, 0, 3, 2, 4, 5, 6, 4, 7, 6]);
    let many = quad_indices(100);
    assert_eq!(many.len(), 600);
    assert_eq!(&many[594..], &[396, 397, 398, 396, 399, 398]);
}

#[test]
fn index_bytes_are_the_words_in_memory_order() {
    let bytes = IndexBuffer::buffer_for_len(1);
    assert_eq!(bytes.len(), 24);
    let words: Vec<u32> = bytes
        .chunks(4)
        .map(|c| u32::from_ne_bytes([c[0], c[1], c[2], c[3]]))
        .collect();
    assert_eq!(words, vec![0, 1, 2, 0, 3, 2]);
    assert_eq!(&bytes[4..8], &1u32.to_ne_bytes());
    assert_eq!(IndexBuffer::buffer_for_len(8).len(), 8 * 24);
}

#[test]
fn index_buffer_starts_with_eight_quads() {
    let buffer = IndexBuffer::new();
    assert_eq!(buffer.len(), 8);
}

#[test]
fn index_buffer_grows_to_the_next_power_of_two() {
    let mut buffer = IndexBuffer::new();
    assert!(buffer.ensure_length(0));
    assert!(buffer.ensure_length(5));
    assert!(buffer.ensure_length(8));
    assert_eq!(buffer.len(), 8);
    assert!(!buffer.ensure_length(9));
    assert_eq!(buffer.len(), 16);
    assert!(buffer.ensure_length(16));
    assert!(!buffer.ensure_length(17));
    assert_eq!(buffer.len(), 32);
    assert!(buffer.ensure_length(3));
    assert_eq!(buffer.len(), 32);
    assert!(!buffer.ensure_length(1000));
    assert_eq!(buffer.len(), 1024);
}

#[test]
fn index_buffer_growth_is_idempotent() {
    let mut buffer = IndexBuffer::new();
    assert!(!buffer.ensure_length(300));
    assert!(buffer.ensure_length(300));
    assert_eq!(buffer.len(), 512);
}

#[test]
fn index_buffer_reaches_the_largest_quad_count() {
    let mut buffer = IndexBuffer::new();
    assert!(!buffer.ensure_length(MAX_QUADS - 1));
    assert_eq!(buffer.len(), MAX_QUADS);
    assert!(buffer.ensure_length(MAX_QUADS));
}

#[test]
fn vertex_buffer_starts_empty_with_room() {
    let buffer = VertexBuffer::new();
    assert!(buffer.cache().is_empty());
    assert!(buffer.buffer_size() >= INITIAL_CACHE_CAPACITY);
}

#[test]
fn vertex_reservations_are_adjacent_and_hold_the_data() {
    let mut buffer = VertexBuffer::new();
    let size = buffer.buffer_size();
    let first = buffer.reserve_vertices(&[1u8; 20]).unwrap();
    assert_eq!((first.offset, first.end, first.recreated), (0, 20, false));
    assert_eq!(first.capacity_before, first.capacity_after);
    let second = buffer.reserve_vertices(&[2u8; 40]).unwrap();
    assert_eq!((second.offset, second.end, second.recreated), (20, 60, false));
    assert_eq!(buffer.buffer_size(), size);
    assert_eq!(&buffer.cache()[0..20], &[1u8; 20]);
    assert_eq!(&buffer.cache()[20..60], &[2u8; 40]);
}

#[test]
fn vertex_buffer_is_remade_when_the_cache_is_full() {
    let mut buffer = VertexBuffer::new();
    let size = buffer.buffer_size();
    let first = buffer.reserve_vertices(&vec![7u8; size]).unwrap();
    assert!(!first.recreated);
    assert_eq!(first.end, size);
    let second = buffer.reserve_vertices(&[9u8; 100]).unwrap();
    assert!(second.recreated);
    assert_eq!(second.offset, size);
    assert_eq!(second.end, size + 100);
    assert!(buffer.buffer_size() >= size + 100);
    assert_eq!(buffer.cache().len(), size + 100);
}

#[test]
fn vertex_finalize_empties_the_cache_and_keeps_the_buffer() {
    let mut buffer = VertexBuffer::new();
    buffer.reserve_vertices(&[3u8; 64]).unwrap();
    let size = buffer.buffer_size();
    buffer.finalize_buffers();
    assert!(buffer.cache().is_empty());
    assert_eq!(buffer.buffer_size(), size);
    let again = buffer.reserve_vertices(&[4u8; 8]).unwrap();
    assert_eq!(again.offset, 0);
}

#[test]
fn placement_with_room_keeps_the_buffer() {
    let r = place_vertices(1024, 1024, 100, 20, 1024).unwrap();
    assert_eq!(
        r,
        VertexReservation {
            offset: 100,
            end: 120,
            capacity_before: 1024,
            capacity_after: 1024,
            recreated: false
        }
    );
}

#[test]
fn placement_without_room_rebuilds() {
    let r = place_vertices(1024, 2048, 1020, 20, 1024).unwrap();
    assert!(r.recreated);
    assert_eq!((r.offset, r.end, r.capacity_after), (1020, 1040, 2048));
}

#[test]
fn placement_faults() {
    assert_eq!(
        place_vertices(1024, 2048, 100, 20, 1024),
        Err(VertexFault::CapacityChanged)
    );
    assert_eq!(
        place_vertices(1024, 1024, 100, 20, 110),
        Err(VertexFault::OutOfBuffer)
    );
    assert!(place_vertices(1024, 1024, 100, 20, 120).is_ok());
}

#[test]
fn rebuild_flushes_every_earlier_slice() {
    let mut buffer = VertexBuffer::new();
    let size = buffer.buffer_size();
    let first = buffer.reserve_vertices(&[1u8; 8]).unwrap();
    let second = buffer.reserve_vertices(&vec![2u8; size - 8]).unwrap();
    assert!(!first.recreated && !second.recreated);
    let third = buffer.reserve_vertices(&[3u8; 4]).unwrap();
    assert!(third.recreated);
    let flushed = &buffer.cache()[..third.offset];
    assert_eq!(&flushed[first.offset..first.end], &[1u8; 8]);
    assert_eq!(&flushed[second.offset..second.end], &vec![2u8; size - 8][..]);
    assert_eq!(&buffer.cache()[third.offset..third.end], &[3u8; 4]);
}
