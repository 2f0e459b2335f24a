use cepstrum_extractor::pool::ScratchPool;
use cepstrum_extractor::CepstrumError;

#[test]
fn pool_starts_with_one_filled_buffer() {
    let mut pool: ScratchPool<u8> = ScratchPool::new(5, 7);
    assert_eq!(pool.count(), 1);
    assert_eq!(pool.required_len(), 5);
    assert_eq!(pool.fill(), 7);
    assert_eq!(pool.buffer_len(0), Ok(5));
    assert_eq!(pool.acquire(0).unwrap().to_vec(), vec![7u8; 5]);
}

#[test]
fn pool_of_empty_buffers() {
    let mut pool: ScratchPool<u8> = ScratchPool::new(0, 1);
    assert_eq!(pool.count(), 1);
    assert_eq!(pool.buffer_len(0), Ok(0));
    assert!(pool.acquire(0).unwrap().is_empty());
    pool.resize_all(2);
    assert_eq!(pool.acquire(0).unwrap().to_vec(), vec![1u8, 1]);
}

#[test]
fn pool_extend_appends_filled_buffers_and_keeps_the_rest() {
    let mut pool: ScratchPool<i32> = ScratchPool::new(3, -1);
    pool.acquire(0).unwrap().copy_from_slice(&[10, 20, 30]);
    pool.extend(3);
    assert_eq!(pool.count(), 3);
    assert_eq!(pool.acquire(0).unwrap().to_vec(), vec![10, 20, 30]);
    assert_eq!(pool.acquire(1).unwrap().to_vec(), vec![-1, -1, -1]);
    assert_eq!(pool.acquire(2).unwrap().to_vec(), vec![-1, -1, -1]);
    pool.extend(2);
    assert_eq!(pool.count(), 3);
    pool.extend(0);
    assert_eq!(pool.count(), 3);
    assert_eq!(pool.acquire(0).unwrap().to_vec(), vec![10, 20, 30]);
}

#[test]
fn pool_resize_all_pads_and_cuts() {
    let mut pool: ScratchPool<i32> = ScratchPool::new(3, 0);
    pool.extend(2);
    pool.acquire(0).unwrap().copy_from_slice(&[1, 2, 3]);
    pool.acquire(1).unwrap().copy_from_slice(&[4, 5, 6]);

    pool.resize_all(5);
    assert_eq!(pool.required_len(), 5);
    assert_eq!(pool.count(), 2);
    assert_eq!(pool.acquire(0).unwrap().to_vec(), vec![1, 2, 3, 0, 0]);
    assert_eq!(pool.acquire(1).unwrap().to_vec(), vec![4, 5, 6, 0, 0]);

    pool.resize_all(2);
    assert_eq!(pool.required_len(), 2);
    assert_eq!(pool.acquire(0).unwrap().to_vec(), vec![1, 2]);
    assert_eq!(pool.acquire(1).unwrap().to_vec(), vec![4, 5]);

    pool.resize_all(2);
    assert_eq!(pool.acquire(0).unwrap().to_vec(), vec![1, 2]);

    pool.extend(3);
    assert_eq!(pool.acquire(2).unwrap().to_vec(), vec![0, 0]);
}

#[test]
fn pool_acquire_is_bounds_checked() {
    let mut pool: ScratchPool<u8> = ScratchPool::new(4, 0);
    assert_eq!(pool.acquire(1).err(), Some(CepstrumError::IndexOutOfRange));
    assert_eq!(pool.buffer_len(1), Err(CepstrumError::IndexOutOfRange));
    pool.extend(2);
    assert!(pool.acquire(1).is_ok());
    assert_eq!(pool.acquire(2).err(), Some(CepstrumError::IndexOutOfRange));
    assert_eq!(pool.acquire(usize::MAX).err(), Some(CepstrumError::IndexOutOfRange));
}

#[test]
fn pool_buffer_keeps_what_its_holder_wrote() {
    let mut pool: ScratchPool<u8> = ScratchPool::new(2, 0);
    pool.extend(2);
    {
        let lease = pool.acquire(1).unwrap();
        lease[0] = 9;
        lease[1] = 8;
    }
    assert_eq!(pool.acquire(1).unwrap().to_vec(), vec![9, 8]);
    assert_eq!(pool.acquire(0).unwrap().to_vec(), vec![0, 0]);
}
