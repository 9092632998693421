use pulse_commerce::hub::WsHub;

#[test]
fn order_watchers_and_global_watchers_receive_messages() {
    let mut hub: WsHub<u32> = WsHub::new();
    hub.add_client(5, "a".to_string(), 1);
    hub.add_client(5, "b".to_string(), 2);
    hub.add_client(0, "g".to_string(), 9);
    hub.add_client(6, "c".to_string(), 3);
    let to5: Vec<u32> = hub.notify_order(5).into_iter().copied().collect();
    assert_eq!(to5, vec![1, 2, 9]);
    let to0: Vec<u32> = hub.notify_order(0).into_iter().copied().collect();
    assert_eq!(to0, vec![9]);
    let to7: Vec<u32> = hub.notify_order(7).into_iter().copied().collect();
    assert_eq!(to7, vec![9]);
}

#[test]
fn re_registering_replaces_the_sender() {
    let mut hub: WsHub<u32> = WsHub::new();
    hub.add_client(5, "a".to_string(), 1);
    hub.add_client(5, "a".to_string(), 4);
    let to5: Vec<u32> = hub.notify_order(5).into_iter().copied().collect();
    assert_eq!(to5, vec![4]);
}

#[test]
fn removed_clients_receive_nothing() {
    let mut hub: WsHub<u32> = WsHub::new();
    hub.add_client(5, "a".to_string(), 1);
    hub.add_client(5, "b".to_string(), 2);
    hub.remove_client(5, "a");
    let to5: Vec<u32> = hub.notify_order(5).into_iter().copied().collect();
    assert_eq!(to5, vec![2]);
    hub.remove_client(5, "b");
    hub.remove_client(5, "zzz");
    hub.remove_client(8, "b");
    assert!(hub.notify_order(5).is_empty());
}

#[test]
fn adding_then_removing_a_client_restores_the_registry() {
    let mut hub: WsHub<u32> = WsHub::default();
    hub.add_client(5, "a".to_string(), 1);
    hub.add_client(5, "b".to_string(), 2);
    hub.remove_client(5, "b");
    let to5: Vec<u32> = hub.notify_order(5).into_iter().copied().collect();
    assert_eq!(to5, vec![1]);
    hub.add_client(9, "c".to_string(), 3);
    hub.remove_client(9, "c");
    assert!(hub.notify_order(9).is_empty());
}
