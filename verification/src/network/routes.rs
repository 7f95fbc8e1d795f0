//! The policy routing that sends the host's traffic into the tunnel.
//!
//! While the tunnel is up, every IPv4 packet is routed by a dedicated table
//! whose only route is the default route through the TUN device, except the
//! tunnel's own packets: they carry a firewall mark and keep using the main
//! table. Removing the routing deletes exactly what installing it added.

use vstd::prelude::*;

verus! {

/// The firewall mark of the tunnel's own UDP socket.
pub const BYPASS_FWMARK: u32 = 0xC0DE007;

/// The priority of the rule that keeps marked packets on the main table.
pub const BYPASS_RULE_PRIORITY: u32 = 7760;

/// The kernel's main routing table.
pub const MAIN_TABLE: u32 = 254;

/// One routing change, as sent to the kernel over netlink. Every rule is an
/// IPv4 rule whose action is to look up its table; every route is the IPv4
/// default route `0.0.0.0/0`.
#[derive(Debug, Clone, Copy, PartialEq, Eq, Structural)]
pub enum RouteOp {
    /// Add a rule matching `fw_mark` when given (all packets otherwise).
    AddRule { fw_mark: Option<u32>, priority: u32, table: u32 },
    /// Delete the rule with this mark (or none), priority and, when given,
    /// table.
    DeleteRule { fw_mark: Option<u32>, priority: u32, table: Option<u32> },
    /// Add the default route through interface `oif` to `table`.
    AddDefaultRoute { oif: u32, table: u32 },
    /// Delete the default route through interface `oif` from `table`.
    DeleteDefaultRoute { oif: u32, table: u32 },
}

/// Whether the deletion `del` removes what the addition `add` installed.
pub open spec fn removes(del: RouteOp, add: RouteOp) -> bool {
    match (del, add) {
        (
            RouteOp::DeleteRule { fw_mark: dm, priority: dp, table: dt },
            RouteOp::AddRule { fw_mark: am, priority: ap, table: at },
        ) => dm == am && dp == ap && (dt matches Some(t) ==> t == at),
        (
            RouteOp::DeleteDefaultRoute { oif: doif, table: dt },
            RouteOp::AddDefaultRoute { oif: aoif, table: at },
        ) => doif == aoif && dt == at,
        _ => false,
    }
}

/// The policy routing through one interface.
pub struct PolicyRoute {
    oif: u32,
}

impl PolicyRoute {
    /// The routing table of the tunnel.
    pub const TABLE: u32 = 777;

    /// The priority of the rule that sends all other packets to the tunnel's
    /// table.
    pub const PRIORITY: u32 = 7777;

    /// The interface index.
    pub closed spec fn spec_oif(&self) -> u32 {
        self.oif
    }

    /// The routing through the interface with index `oif`.
    pub fn new(oif: u32) -> (r: PolicyRoute)
        ensures
            r.spec_oif() == oif,
    {
        PolicyRoute { oif }
    }

    /// The interface index.
    pub fn oif(&self) -> (r: u32)
        ensures
            r == self.spec_oif(),
    {
        self.oif
    }

    /// What installing the routing adds, in order: the rule keeping marked
    /// packets on the main table, the rule sending all packets to the
    /// tunnel's table, and the tunnel table's default route through the
    /// interface.
    pub open spec fn spec_install_plan(&self) -> Seq<RouteOp> {
        seq![
            RouteOp::AddRule { fw_mark: Some(BYPASS_FWMARK), priority: BYPASS_RULE_PRIORITY, table: MAIN_TABLE },
            RouteOp::AddRule { fw_mark: None, priority: PolicyRoute::PRIORITY, table: PolicyRoute::TABLE },
            RouteOp::AddDefaultRoute { oif: self.spec_oif(), table: PolicyRoute::TABLE },
        ]
    }

    /// What removing the routing deletes, in order: the marked packets'
    /// rule, identified by mark and priority; the tunnel table's rule,
    /// identified by table and priority; the tunnel table's default route.
    pub open spec fn spec_removal_plan(&self) -> Seq<RouteOp> {
        seq![
            RouteOp::DeleteRule { fw_mark: Some(BYPASS_FWMARK), priority: BYPASS_RULE_PRIORITY, table: None },
            RouteOp::DeleteRule { fw_mark: None, priority: PolicyRoute::PRIORITY, table: Some(PolicyRoute::TABLE) },
            RouteOp::DeleteDefaultRoute { oif: self.spec_oif(), table: PolicyRoute::TABLE },
        ]
    }

    /// The changes that install the routing.
    pub fn install_plan(&self) -> (r: Vec<RouteOp>)
        ensures
            r@ == self.spec_install_plan(),
    {
        let r = vec![
            RouteOp::AddRule { fw_mark: Some(BYPASS_FWMARK), priority: BYPASS_RULE_PRIORITY, table: MAIN_TABLE },
            RouteOp::AddRule { fw_mark: None, priority: PolicyRoute::PRIORITY, table: PolicyRoute::TABLE },
            RouteOp::AddDefaultRoute { oif: self.oif, table: PolicyRoute::TABLE },
        ];
        assert(r@ =~= self.spec_install_plan());
        r
    }

    /// The changes that remove the routing.
    pub fn removal_plan(&self) -> (r: Vec<RouteOp>)
        ensures
            r@ == self.spec_removal_plan(),
    {
        let r = vec![
            RouteOp::DeleteRule { fw_mark: Some(BYPASS_FWMARK), priority: BYPASS_RULE_PRIORITY, table: None },
            RouteOp::DeleteRule { fw_mark: None, priority: PolicyRoute::PRIORITY, table: Some(PolicyRoute::TABLE) },
            RouteOp::DeleteDefaultRoute { oif: self.oif, table: PolicyRoute::TABLE },
        ];
        assert(r@ =~= self.spec_removal_plan());
        r
    }
}

/// Proof that removing the routing undoes installing it: the removal plan
/// deletes, step by step, what the install plan added, and nothing else.
pub proof fn lemma_removal_undoes_install(route: PolicyRoute)
    ensures
        route.spec_removal_plan().len() == route.spec_install_plan().len(),
        forall|i: int|
            0 <= i < route.spec_install_plan().len() ==> #[trigger] removes(
                route.spec_removal_plan()[i],
                route.spec_install_plan()[i],
            ),
        forall|i: int, j: int|
            0 <= i < route.spec_install_plan().len() && 0 <= j < route.spec_install_plan().len() && i != j
                ==> !removes(route.spec_removal_plan()[i], route.spec_install_plan()[j]),
{
}

} // verus!
