use prism::network::routes::{PolicyRoute, RouteOp, BYPASS_FWMARK};

#[test]
fn install_plan_bypasses_marked_packets_then_routes_all() {
    let route = PolicyRoute::new(12);
    assert_eq!(route.oif(), 12);
    assert_eq!(
        route.install_plan(),
        vec![
            RouteOp::AddRule { fw_mark: Some(0xC0DE007), priority: 7760, table: 254 },
            RouteOp::AddRule { fw_mark: None, priority: 7777, table: 777 },
            RouteOp::AddDefaultRoute { oif: 12, table: 777 },
        ]
    );
    assert_eq!(BYPASS_FWMARK, 0xC0DE007);
    assert_eq!(PolicyRoute::TABLE, 777);
    assert_eq!(PolicyRoute::PRIORITY, 7777);
}

#[test]
fn removal_plan_deletes_what_was_installed() {
    let route = PolicyRoute::new(3);
    assert_eq!(
        route.removal_plan(),
        vec![
            RouteOp::DeleteRule { fw_mark: Some(0xC0DE007), priority: 7760, table: None },
            RouteOp::DeleteRule { fw_mark: None, priority: 7777, table: Some(777) },
            RouteOp::DeleteDefaultRoute { oif: 3, table: 777 },
        ]
    );
}
