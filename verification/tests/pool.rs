use mtpdb_manager::port_pool::PortPool;

#[test]
fn ports_are_handed_out_from_the_top() {
    let mut pool = PortPool::from_range(3, 5);
    assert_eq!(pool.acquire(), Some(5));
    assert_eq!(pool.acquire(), Some(4));
    assert_eq!(pool.acquire(), Some(3));
    assert_eq!(pool.acquire(), None);
    assert_eq!(pool.acquire(), None);
}

#[test]
fn range_of_one_port_has_one_port() {
    let mut pool = PortPool::from_range(7, 7);
    assert_eq!(pool.acquire(), Some(7));
    assert_eq!(pool.acquire(), None);
}

#[test]
fn reversed_range_is_empty() {
    let mut pool = PortPool::from_range(6, 5);
    assert_eq!(pool.acquire(), None);
}

#[test]
fn range_can_end_at_the_highest_port() {
    let mut pool = PortPool::from_range(65534, 65535);
    assert_eq!(pool.acquire(), Some(65535));
    assert_eq!(pool.acquire(), Some(65534));
    assert_eq!(pool.acquire(), None);
}

#[test]
fn full_range_has_every_port() {
    let mut pool = PortPool::from_range(0, 65535);
    let mut count = 0;
    while pool.acquire().is_some() {
        count += 1;
    }
    assert_eq!(count, 65536);
}

#[test]
fn released_port_comes_next() {
    let mut pool = PortPool::from_range(1, 4);
    assert_eq!(pool.acquire(), Some(4));
    assert_eq!(pool.acquire(), Some(3));
    pool.release(4);
    assert_eq!(pool.acquire(), Some(4));
    assert_eq!(pool.acquire(), Some(2));
}

#[test]
fn second_release_is_ignored() {
    let mut pool = PortPool::from_range(1, 1);
    assert_eq!(pool.acquire(), Some(1));
    pool.release(1);
    pool.release(1);
    assert_eq!(pool.acquire(), Some(1));
    assert_eq!(pool.acquire(), None);
}

#[test]
fn port_that_is_not_in_use_is_not_taken_back() {
    let mut pool = PortPool::from_range(1, 2);
    pool.release(2);
    pool.release(9);
    assert_eq!(pool.acquire(), Some(2));
    assert_eq!(pool.acquire(), Some(1));
    assert_eq!(pool.acquire(), None);
}
