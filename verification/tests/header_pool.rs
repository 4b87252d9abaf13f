use procwire_client::protocol::header_pool::HeaderPool;
use procwire_client::protocol::{Header, HEADER_POOL_SIZE};

#[test]
fn test_pool_creation() {
    let pool = HeaderPool::new();
    assert_eq!(pool.current_index(), 0);
}

#[test]
fn test_pool_acquire_round_robin() {
    let mut pool = HeaderPool::new();

    for i in 0..HEADER_POOL_SIZE {
        let _buf = pool.acquire();
        assert_eq!(pool.current_index(), (i + 1) % HEADER_POOL_SIZE);
    }

    assert_eq!(pool.current_index(), 0);
}

#[test]
fn test_pool_acquire_returns_different_buffers() {
    let mut pool = HeaderPool::new();

    let buf1_ptr = pool.acquire().as_ptr();
    let buf2_ptr = pool.acquire().as_ptr();
    let buf3_ptr = pool.acquire().as_ptr();

    assert_ne!(buf1_ptr, buf2_ptr);
    assert_ne!(buf2_ptr, buf3_ptr);
    assert_ne!(buf1_ptr, buf3_ptr);
}

#[test]
fn test_pool_encode() {
    let mut pool = HeaderPool::new();
    let header = Header::new(1, 0x03, 42, 100);

    let encoded = pool.encode(&header);

    assert_eq!(&encoded[0..2], &[0x00, 0x01]);
    assert_eq!(encoded[2], 0x03);
    assert_eq!(&encoded[3..7], &[0x00, 0x00, 0x00, 0x2A]);
    assert_eq!(&encoded[7..11], &[0x00, 0x00, 0x00, 0x64]);
}

#[test]
fn test_pool_reset() {
    let mut pool = HeaderPool::new();

    pool.acquire();
    pool.acquire();
    pool.acquire();
    assert_eq!(pool.current_index(), 3);

    pool.reset();
    assert_eq!(pool.current_index(), 0);
}

#[test]
fn test_pool_default() {
    let pool = HeaderPool::default();
    assert_eq!(pool.current_index(), 0);
}

#[test]
fn test_pool_buffers_are_mutable() {
    let mut pool = HeaderPool::new();

    let buf = pool.acquire();
    buf[0] = 0xFF;
    buf[10] = 0xAA;

    assert_eq!(buf[0], 0xFF);
    assert_eq!(buf[10], 0xAA);
}

#[test]
fn test_pool_wrap_around_overwrites() {
    let mut pool = HeaderPool::new();

    {
        let buf = pool.acquire();
        for b in buf.iter_mut() {
            *b = 0xAB;
        }
    }

    for _ in 0..(HEADER_POOL_SIZE - 1) {
        pool.acquire();
    }

    let buf = pool.acquire();
    assert_eq!(buf[0], 0xAB);
}

#[test]
fn fresh_pool_buffers_are_zeroed() {
    let mut pool = HeaderPool::new();
    for _ in 0..HEADER_POOL_SIZE {
        assert_eq!(*pool.acquire(), [0u8; 11]);
    }
}

#[test]
fn encode_keeps_result_in_the_pool_slot() {
    let mut pool = HeaderPool::new();
    let header = Header::new(5, 0x07, 1000, 50);
    let first = *pool.encode(&header);
    assert_eq!(first, header.encode());
    for _ in 0..(HEADER_POOL_SIZE - 1) {
        pool.acquire();
    }
    assert_eq!(*pool.acquire(), header.encode());
}
