use blockchain::{check_chain, validate_chain, Block};

#[test]
fn test_chain_integrity() {
    let block1 = Block::new_with_timestamp(1, "Genesis".to_string(), "0".to_string(), 1000);
    let block2 = Block::new_with_timestamp(2, "Second".to_string(), block1.hash.clone(), 1001);

    let chain = vec![block1, block2];
    assert!(check_chain(&chain));
}

#[test]
fn test_wrong_previous_hash() {
    let block1 = Block::new_with_timestamp(1, "First".to_string(), "0".to_string(), 1000);
    let block2 = Block::new_with_timestamp(2, "Second".to_string(), "wrong_hash".to_string(), 1001);

    let chain = vec![block1, block2];
    assert!(!check_chain(&chain));
}

#[test]
fn test_timestamp_order() {
    let block1 = Block::new_with_timestamp(1, "First".to_string(), "0".to_string(), 1000);
    let block2 = Block::new_with_timestamp(2, "Second".to_string(), block1.hash.clone(), 999);

    let chain = vec![block1, block2];
    assert!(!check_chain(&chain));
}

#[test]
fn test_three_block_scenario_valid_then_tampered() {
    let block1 = Block::new_with_timestamp(1, "Genesis".to_string(), "0".to_string(), 1000);
    let block2 = Block::new_with_timestamp(2, "Block 2".to_string(), block1.hash.clone(), 1001);
    let block3 = Block::new_with_timestamp(3, "Block 3".to_string(), block2.hash.clone(), 1002);

    let mut chain = vec![block1, block2, block3];
    assert!(check_chain(&chain));

    chain[1].data = "Block 2 rewritten".to_string();
    assert!(!check_chain(&chain));
    let reports = validate_chain(&chain);
    assert_eq!(reports.len(), 3);
    assert!(!reports[1].integrity_ok);
    assert_eq!(reports[1].id, 2);
    assert!(reports[0].integrity_ok);
    assert!(reports[2].integrity_ok);
}

#[test]
fn test_empty_chain_is_valid() {
    let chain: Vec<Block> = Vec::new();
    assert!(check_chain(&chain));
    assert!(validate_chain(&chain).is_empty());
}

#[test]
fn test_genesis_only_chain_is_valid() {
    let genesis = Block::new_with_timestamp(1, "Genesis".to_string(), "0".to_string(), 1000);
    assert!(check_chain(&vec![genesis]));
}

#[test]
fn test_genesis_without_sentinel_rejected() {
    let genesis = Block::new_with_timestamp(1, "Genesis".to_string(), "x".to_string(), 1000);
    assert!(genesis.is_valid());
    let chain = vec![genesis];
    assert!(!check_chain(&chain));
    let reports = validate_chain(&chain);
    assert!(!reports[0].linkage_ok);
    assert!(reports[0].timestamp_ok);
    assert!(reports[0].integrity_ok);
}

#[test]
fn test_equal_timestamps_rejected() {
    let block1 = Block::new_with_timestamp(1, "First".to_string(), "0".to_string(), 1000);
    let block2 = Block::new_with_timestamp(2, "Second".to_string(), block1.hash.clone(), 1000);

    let chain = vec![block1, block2];
    assert!(!check_chain(&chain));
    let reports = validate_chain(&chain);
    assert!(!reports[1].timestamp_ok);
    assert!(reports[1].linkage_ok);
    assert!(reports[1].integrity_ok);
}

#[test]
fn test_linkage_break_reported_for_that_block() {
    let block1 = Block::new_with_timestamp(1, "Genesis".to_string(), "0".to_string(), 1000);
    let block2 = Block::new_with_timestamp(2, "Second".to_string(), block1.hash.clone(), 1001);
    let block3 = Block::new_with_timestamp(3, "Third".to_string(), "not_the_digest".to_string(), 1002);

    let chain = vec![block1, block2, block3];
    assert!(!check_chain(&chain));
    let reports = validate_chain(&chain);
    assert!(reports[0].linkage_ok && reports[1].linkage_ok);
    assert!(!reports[2].linkage_ok);
    // Block 3's own digest still covers its (wrong) previous digest.
    assert!(reports[2].integrity_ok);
}

#[test]
fn test_all_failures_reported_not_just_first() {
    let block1 = Block::new_with_timestamp(1, "Genesis".to_string(), "wrong".to_string(), 1000);
    let mut block2 = Block::new_with_timestamp(2, "Second".to_string(), "also_wrong".to_string(), 900);
    block2.data = "tampered".to_string();

    let chain = vec![block1, block2];
    let reports = validate_chain(&chain);
    assert!(!reports[0].linkage_ok);
    assert!(!reports[1].linkage_ok);
    assert!(!reports[1].timestamp_ok);
    assert!(!reports[1].integrity_ok);
}

#[test]
fn test_clock_constructor_produces_valid_genesis() {
    let genesis = Block::new(1, "Genesis".to_string(), "0".to_string());
    let chain = vec![genesis];
    assert!(check_chain(&chain));
}
