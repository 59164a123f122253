use experiments::fullscan::{port_batch, record_found, BATCH_COUNT, BATCH_SIZE};
use std::collections::BTreeSet;

#[test]
fn first_batch_skips_port_zero() {
    let b = port_batch(0);
    assert_eq!((b.first, b.last), (1, 2047));
    assert_eq!(b.ports.len(), 2047);
    assert_eq!(b.ports[0], 1);
    assert_eq!(*b.ports.last().unwrap(), 2047);
}

#[test]
fn last_batch_ends_at_top_port() {
    let b = port_batch(31);
    assert_eq!((b.first, b.last), (63488, 65535));
    assert_eq!(b.ports.len(), 2048);
}

#[test]
fn batches_cover_every_port_once() {
    let mut seen = vec![0u8; 65536];
    for batch in 0..BATCH_COUNT {
        for p in port_batch(batch).ports {
            seen[p as usize] += 1;
        }
    }
    assert_eq!(seen[0], 0);
    assert!(seen[1..].iter().all(|c| *c == 1));
    assert_eq!(BATCH_SIZE, 2048);
}

#[test]
fn found_ports_are_gathered_sorted_and_once() {
    let mut found = BTreeSet::new();
    record_found(&mut found, vec![Err(()), Ok(443), Ok(22), Err(())]);
    record_found(&mut found, vec![Ok(22), Ok(8080)]);
    record_found(&mut found, vec![]);
    assert_eq!(found.into_iter().collect::<Vec<u16>>(), vec![22, 443, 8080]);
}
