use vstd::prelude::*;

verus! {

/// The identity this node reports and stamps on every event it forwards.
pub struct NodeInfo {
    pub node_id: Option<String>,
}

/// The view of an optional string as an optional sequence of characters.
pub open spec fn opt_view(s: Option<String>) -> Option<Seq<char>> {
    match s {
        Some(v) => Some(v@),
        None => None,
    }
}

/// Clones an optional string, keeping its contents.
pub fn clone_opt_string(s: &Option<String>) -> (res: Option<String>)
    ensures
        opt_view(res) == opt_view(*s),
{
    match s {
        Some(v) => Some(v.clone()),
        None => None,
    }
}

impl NodeInfo {
    /// A node that has not been given an identity yet.
    pub fn new() -> (res: NodeInfo)
        ensures
            res.node_id is None,
    {
        NodeInfo { node_id: None }
    }

    /// Replaces the node identity with the value read back from storage
    /// (`None` when no row was stored).
    pub fn load_from_db(&mut self, stored: Option<String>)
        ensures
            opt_view(final(self).node_id) == opt_view(stored),
    {
        self.node_id = stored;
    }

    pub fn set_node_id(&mut self, node_id: Option<String>)
        ensures
            opt_view(final(self).node_id) == opt_view(node_id),
    {
        self.node_id = node_id;
    }

    pub fn get_node_id(&self) -> (res: Option<String>)
        ensures
            opt_view(res) == opt_view(self.node_id),
    {
        clone_opt_string(&self.node_id)
    }

    pub fn is_node_id_set(&self) -> (res: bool)
        ensures
            res == self.node_id is Some,
    {
        self.node_id.is_some()
    }
}

/// The text stored for a node identifier: the identifier, or the empty
/// text when there is none.
pub open spec fn stored_node_id(node_id: Option<Seq<char>>) -> Seq<char> {
    match node_id {
        Some(s) => s,
        None => Seq::empty(),
    }
}

/// The text saved in the configuration table for a node identifier.
pub fn store_node_id(node_id: &Option<String>) -> (s: String)
    ensures
        s@ == stored_node_id(opt_view(*node_id)),
{
    match node_id {
        Some(v) => v.clone(),
        None => String::new(),
    }
}

/// Reading the identity gives what was last set, and the node counts as
/// identified exactly when there is something to read: after
/// `set_node_id(v)` (or `load_from_db(v)`), `get_node_id` views as `v` and
/// `is_node_id_set` is `v is Some`.
pub proof fn law_read_after_write(node: NodeInfo, written: Option<Seq<char>>)
    requires
        opt_view(node.node_id) == written,
    ensures
        written is Some <==> node.node_id is Some,
        written matches Some(w) ==> node.node_id matches Some(s) && s@ == w,
{
}

} // verus!
