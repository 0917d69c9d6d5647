use relay::frame::{decode_frame, MESSAGE_SIZE};
use relay::registry::Registry;

#[test]
fn register_hands_out_sequential_ids() {
    let mut reg = Registry::new();
    assert_eq!(reg.register(), 0);
    assert_eq!(reg.register(), 1);
    assert_eq!(reg.register(), 2);
    assert_eq!(reg.clients, vec![0, 1, 2]);
}

#[test]
fn fanout_reaches_all_three_clients() {
    let mut reg = Registry::new();
    let a = reg.register();
    let b = reg.register();
    let c = reg.register();
    let plan = reg.fan_out(&b"hi".to_vec()).unwrap();
    assert_eq!(plan.len(), 3);
    assert_eq!(plan[0].0, a);
    assert_eq!(plan[1].0, b);
    assert_eq!(plan[2].0, c);
    for (_, frame) in &plan {
        assert_eq!(frame.len(), MESSAGE_SIZE);
        assert_eq!(decode_frame(frame), b"hi".to_vec());
    }
}

#[test]
fn fanout_rejects_oversize_message() {
    let mut reg = Registry::new();
    reg.register();
    let long = vec![b'x'; MESSAGE_SIZE + 1];
    assert!(reg.fan_out(&long).is_none());
}

#[test]
fn fanout_on_empty_registry_is_empty() {
    let reg = Registry::new();
    let plan = reg.fan_out(&b"hi".to_vec()).unwrap();
    assert!(plan.is_empty());
}

#[test]
fn dead_peer_is_pruned_and_not_retried() {
    let mut reg = Registry::new();
    let a = reg.register();
    let b = reg.register();
    let c = reg.register();
    // the write to b failed: its socket was forcibly closed
    reg.apply_write_results(&vec![true, false, true]);
    assert_eq!(reg.clients, vec![a, c]);
    // the next broadcast no longer addresses b
    let plan = reg.fan_out(&b"again".to_vec()).unwrap();
    let targets: Vec<u64> = plan.iter().map(|e| e.0).collect();
    assert_eq!(targets, vec![a, c]);
    assert!(!targets.contains(&b));
}

#[test]
fn pruning_everyone_empties_the_registry() {
    let mut reg = Registry::new();
    reg.register();
    reg.register();
    reg.apply_write_results(&vec![false, false]);
    assert!(reg.clients.is_empty());
    // ids are not reused after a prune
    assert_eq!(reg.register(), 2);
}
