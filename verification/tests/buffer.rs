use wifi_deauther::buffer::{Buffer, BufferStats, PacketBuffer, ThreadLocalBuffer};

#[test]
fn test_buffer_pool_basic() {
    let mut pool = PacketBuffer::new(10, 2048);

    // Acquire and release buffers
    let buffer1 = pool.acquire().expect("Should get buffer");
    assert_eq!(buffer1.capacity(), 2048);

    pool.release(buffer1);

    let stats = pool.stats();
    assert_eq!(stats.available, 10);
    assert_eq!(stats.total, 10);
}

#[test]
fn test_buffer_pool_exhaustion() {
    let mut pool = PacketBuffer::new(2, 1024);

    // Exhaust the pool
    let _b1 = pool.acquire().expect("Should get buffer");
    let _b2 = pool.acquire().expect("Should get buffer");

    // Should still get a buffer (newly allocated)
    let _b3 = pool.acquire().expect("Should get buffer");
}

#[test]
fn test_thread_local_buffer() {
    let mut pool = PacketBuffer::new(5, 1024);
    let mut tl_buffer = ThreadLocalBuffer::new();

    let buffer = tl_buffer.get(&mut pool);
    tl_buffer.put(&mut pool, buffer);

    // Should reuse the thread-local buffer
    let _buffer2 = tl_buffer.get(&mut pool);
}

#[test]
fn pool_starts_full() {
    let pool = PacketBuffer::new(3, 64);
    let stats = pool.stats();
    assert_eq!(stats.available, 3);
    assert_eq!(stats.total, 3);
    assert_eq!(stats.buffer_size, 64);
}

#[test]
fn exhausted_pool_still_hands_out_fresh_buffers() {
    let mut pool = PacketBuffer::new(4, 512);
    let mut held = Vec::new();
    for _ in 0..4 {
        held.push(pool.acquire().expect("a pooled buffer"));
    }
    assert_eq!(pool.stats().available, 0);
    let extra = pool.acquire().expect("a fresh buffer");
    assert_eq!(extra.capacity(), 512);
    assert_eq!(extra.len(), 0);
    assert!(extra.is_empty());
    assert_eq!(pool.stats().available, 0);
    assert_eq!(held.len(), 4);
}

#[test]
fn round_trip_restores_available() {
    let mut pool = PacketBuffer::new(3, 128);
    let _kept = pool.acquire().expect("a buffer");
    let before = pool.stats().available;
    assert_eq!(before, 2);
    let buffer = pool.acquire().expect("a buffer");
    assert_eq!(pool.stats().available, 1);
    pool.release(buffer);
    assert_eq!(pool.stats().available, before);
}

#[test]
fn round_trip_on_an_empty_pool_adds_a_buffer() {
    let mut pool = PacketBuffer::new(1, 128);
    let first = pool.acquire().expect("a buffer");
    assert_eq!(pool.stats().available, 0);
    let fresh = pool.acquire().expect("a fresh buffer");
    pool.release(fresh);
    assert_eq!(pool.stats().available, 1);
    // The pool is full again: the other buffer has nowhere to go.
    pool.release(first);
    assert_eq!(pool.stats().available, 1);
}

#[test]
fn foreign_buffer_is_dropped() {
    let mut pool = PacketBuffer::new(2, 128);
    let _taken = pool.acquire().expect("a buffer");
    assert_eq!(pool.stats().available, 1);
    pool.release(Buffer::with_capacity(64));
    assert_eq!(pool.stats().available, 1);
    pool.release(Buffer::with_capacity(129));
    assert_eq!(pool.stats().available, 1);
    pool.release(Buffer::with_capacity(128));
    assert_eq!(pool.stats().available, 2);
}

#[test]
fn release_into_a_full_pool_is_dropped() {
    let mut pool = PacketBuffer::new(2, 32);
    pool.release(Buffer::with_capacity(32));
    assert_eq!(pool.stats().available, 2);
}

#[test]
fn released_buffer_comes_back_cleared() {
    let mut pool = PacketBuffer::new(1, 16);
    let mut buffer = pool.acquire().expect("a buffer");
    assert!(buffer.write(&[1, 2, 3]));
    assert_eq!(buffer.len(), 3);
    pool.release(buffer);
    let again = pool.acquire().expect("a buffer");
    assert_eq!(again.len(), 0);
    assert_eq!(again.capacity(), 16);
    assert_eq!(again.as_slice(), &[] as &[u8]);
}

#[test]
fn buffer_write_appends_within_capacity() {
    let mut buffer = Buffer::with_capacity(5);
    assert!(buffer.is_empty());
    assert!(buffer.write(&[10, 20]));
    assert!(buffer.write(&[30]));
    assert_eq!(buffer.as_slice(), &[10u8, 20, 30]);
    assert_eq!(buffer.len(), 3);
    // Three more bytes do not fit in the two that are left.
    assert!(!buffer.write(&[1, 2, 3]));
    assert_eq!(buffer.as_slice(), &[10u8, 20, 30]);
    assert!(buffer.write(&[40, 50]));
    assert_eq!(buffer.len(), 5);
    assert_eq!(buffer.capacity(), 5);
    buffer.clear();
    assert_eq!(buffer.len(), 0);
    assert!(buffer.is_empty());
    assert_eq!(buffer.capacity(), 5);
}

#[test]
fn buffer_of_no_capacity_takes_nothing() {
    let mut buffer = Buffer::with_capacity(0);
    assert!(buffer.write(&[]));
    assert!(!buffer.write(&[1]));
    assert_eq!(buffer.len(), 0);
}

#[test]
fn thread_local_cache_holds_one_buffer() {
    let mut pool = PacketBuffer::new(3, 256);
    let mut cache = ThreadLocalBuffer::new();

    let first = cache.get(&mut pool);
    let second = cache.get(&mut pool);
    assert_eq!(pool.stats().available, 1);

    // The first buffer put fills the cache, the second spills to the pool.
    cache.put(&mut pool, first);
    assert_eq!(pool.stats().available, 1);
    cache.put(&mut pool, second);
    assert_eq!(pool.stats().available, 2);

    // The cached buffer is handed out before the pool is asked.
    let again = cache.get(&mut pool);
    assert_eq!(again.capacity(), 256);
    assert_eq!(pool.stats().available, 2);
    let from_pool = cache.get(&mut pool);
    assert_eq!(from_pool.capacity(), 256);
    assert_eq!(pool.stats().available, 1);
}

#[test]
fn thread_local_cache_returns_what_was_put() {
    let mut pool = PacketBuffer::new(1, 8);
    let mut cache = ThreadLocalBuffer::new();
    let mut buffer = Buffer::with_capacity(4);
    assert!(buffer.write(&[7, 8]));
    cache.put(&mut pool, buffer);
    let back = cache.get(&mut pool);
    assert_eq!(back.capacity(), 4);
    assert_eq!(back.as_slice(), &[7u8, 8]);
}

#[test]
fn utilization_in_parts_per_million() {
    let stats = BufferStats { available: 3, total: 4, buffer_size: 1 };
    assert_eq!(stats.utilization_ppm(), 250_000);
    let full = BufferStats { available: 4, total: 4, buffer_size: 1 };
    assert_eq!(full.utilization_ppm(), 0);
    let empty = BufferStats { available: 0, total: 4, buffer_size: 1 };
    assert_eq!(empty.utilization_ppm(), 1_000_000);
    let third = BufferStats { available: 2, total: 3, buffer_size: 1 };
    assert_eq!(third.utilization_ppm(), 333_333);
    let none = BufferStats { available: 0, total: 0, buffer_size: 1 };
    assert_eq!(none.utilization_ppm(), 0);
    let odd = BufferStats { available: 5, total: 4, buffer_size: 1 };
    assert_eq!(odd.utilization_ppm(), 0);
}
