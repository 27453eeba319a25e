use fjarsyn::buffer_pool::{fit_to_size, BufferPool, PooledBuffer, MAX_POOL_BUFFERS};

#[test]
fn new_pool_is_empty() {
    let pool = BufferPool::init(3);
    assert_eq!(pool.free_count(), 0);
}

#[test]
fn large_pool_can_be_made() {
    assert!(65_536 <= MAX_POOL_BUFFERS);
    let pool = BufferPool::init(65_536);
    assert_eq!(pool.free_count(), 0);
}

#[test]
fn empty_pool_creates_an_empty_buffer_with_room() {
    let mut pool = BufferPool::init(2);
    let buffer = pool.get_or_create(64);
    assert_eq!(buffer.as_vec().len(), 0);
    assert!(buffer.as_vec().capacity() >= 64);
    assert_eq!(pool.free_count(), 0);
}

#[test]
fn released_buffer_is_reused_with_its_bytes() {
    let mut pool = BufferPool::init(2);
    let mut buffer = pool.get_or_create(4);
    buffer.as_mut_vec().extend_from_slice(&[1, 2, 3, 4]);
    pool.release(buffer);
    assert_eq!(pool.free_count(), 1);
    let again = pool.get_or_create(4);
    assert_eq!(again.as_vec(), &vec![1u8, 2, 3, 4]);
    assert_eq!(pool.free_count(), 0);
}

#[test]
fn buffers_come_back_oldest_first() {
    let mut pool = BufferPool::init(3);
    pool.release(PooledBuffer::new(vec![1]));
    pool.release(PooledBuffer::new(vec![2]));
    pool.release(PooledBuffer::new(vec![3]));
    assert_eq!(pool.get_or_create(1).take(), vec![1]);
    assert_eq!(pool.get_or_create(1).take(), vec![2]);
    assert_eq!(pool.get_or_create(1).take(), vec![3]);
    assert_eq!(pool.get_or_create(1).take(), Vec::<u8>::new());
}

#[test]
fn free_list_never_exceeds_its_maximum() {
    let mut pool = BufferPool::init(2);
    pool.release(PooledBuffer::new(vec![1]));
    pool.release(PooledBuffer::new(vec![2]));
    pool.release(PooledBuffer::new(vec![3]));
    pool.release(PooledBuffer::new(vec![4]));
    assert_eq!(pool.free_count(), 2);
    assert_eq!(pool.get_or_create(1).take(), vec![1]);
    assert_eq!(pool.get_or_create(1).take(), vec![2]);
    assert_eq!(pool.free_count(), 0);
}

#[test]
fn pool_of_one_keeps_one() {
    let mut pool = BufferPool::init(1);
    pool.release(PooledBuffer::new(vec![7, 7]));
    pool.release(PooledBuffer::new(vec![8, 8]));
    assert_eq!(pool.free_count(), 1);
    assert_eq!(pool.get_or_create(2).take(), vec![7, 7]);
}

#[test]
fn too_small_buffer_is_emptied_and_given_room() {
    let mut pool = BufferPool::init(2);
    let mut small = Vec::with_capacity(2);
    small.extend_from_slice(&[1u8, 2]);
    small.shrink_to_fit();
    let capacity = small.capacity();
    pool.release(PooledBuffer::new(small));
    let buffer = pool.get_or_create(capacity + 100);
    assert_eq!(buffer.as_vec().len(), 0);
    assert!(buffer.as_vec().capacity() >= capacity + 100);
}

#[test]
fn buffer_that_holds_enough_is_never_emptied() {
    let mut pool = BufferPool::init(2);
    pool.release(PooledBuffer::new(vec![1, 2, 3, 4, 5, 6]));
    let buffer = pool.get_or_create(6);
    assert_eq!(buffer.as_vec(), &vec![1u8, 2, 3, 4, 5, 6]);
}

#[test]
fn taken_bytes_do_not_return_to_the_pool() {
    let mut pool = BufferPool::init(2);
    let buffer = PooledBuffer::new(vec![4, 2]);
    let bytes = buffer.take();
    assert_eq!(bytes, vec![4, 2]);
    assert_eq!(pool.free_count(), 0);
    assert_eq!(pool.get_or_create(0).take(), Vec::<u8>::new());
}

#[test]
fn fit_to_size_keeps_a_buffer_with_room() {
    assert_eq!(fit_to_size(vec![1, 2, 3], 8, 8), vec![1, 2, 3]);
    assert_eq!(fit_to_size(vec![1, 2, 3], 8, 0), vec![1, 2, 3]);
}

#[test]
fn fit_to_size_empties_a_buffer_without_room() {
    let fitted = fit_to_size(vec![1, 2, 3], 3, 4);
    assert_eq!(fitted, Vec::<u8>::new());
    assert!(fitted.capacity() >= 4);
}
