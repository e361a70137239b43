//! What the command line and the environment decide at startup.

use crate::context::str_view;
use crate::text::join;
use vstd::prelude::*;

verus! {

/// Whether conversations outlive a turn.
#[derive(Debug, Clone, Copy, PartialEq, Eq, Structural)]
pub enum ContextLayer {
    /// Database and blob storage are both configured.
    Enabled,
    /// Neither is, and every turn stands alone.
    Stateless,
}

/// One of the two is configured without the other.
#[derive(Debug, Clone, Copy, PartialEq, Eq, Structural)]
pub struct IncompleteContextLayer;

impl IncompleteContextLayer {
    pub fn message(&self) -> (r: String)
        ensures
            r@ == "context layer requires BOTH DATABASE_URL and WALRUS_LOCAL_DIR (or WALRUS_PUBLISHER_URL+WALRUS_AGGREGATOR_URL)"@,
    {
        String::from_str(
            "context layer requires BOTH DATABASE_URL and WALRUS_LOCAL_DIR (or WALRUS_PUBLISHER_URL+WALRUS_AGGREGATOR_URL)",
        )
    }
}

/// Decides on the context layer. Half of a configuration is an error, so that no history is
/// dropped in silence.
pub fn context_layer(
    database_set: bool,
    walrus_local_dir_set: bool,
    walrus_publisher_set: bool,
) -> (r: Result<ContextLayer, IncompleteContextLayer>)
    ensures
        r is Err <==> database_set != (walrus_local_dir_set || walrus_publisher_set),
        r matches Ok(layer) ==> (layer == ContextLayer::Enabled <==> database_set),
{
    let walrus_set: bool = walrus_local_dir_set || walrus_publisher_set;
    if database_set && walrus_set {
        Ok(ContextLayer::Enabled)
    } else if !database_set && !walrus_set {
        Ok(ContextLayer::Stateless)
    } else {
        Err(IncompleteContextLayer)
    }
}

/// The address that bids advertise.
pub open spec fn advertised(url: Option<Seq<char>>, listen: Seq<char>) -> Seq<char> {
    match url {
        Some(u) => u,
        None => "http://"@ + listen,
    }
}

/// The address that bids advertise: the one that is set, or the one that the node listens on.
pub fn advertise_url(url: Option<&str>, listen: &str) -> (r: String)
    ensures
        r@ == advertised(str_view(url), listen@),
{
    match url {
        Some(u) => u.to_owned(),
        None => join("http://", listen),
    }
}

/// An address that is set is advertised as it is. Otherwise the one that is listened on is, as
/// an HTTP address.
pub proof fn law_advertised_address(url: Seq<char>, listen: Seq<char>)
    ensures
        advertised(Some(url), listen) == url,
        advertised(None, listen).len() == listen.len() + 7,
        advertised(None, listen).subrange(0, 7) == "http://"@,
        advertised(None, listen).subrange(7, listen.len() as int + 7) == listen,
{
    reveal_strlit("http://");
    assert(advertised(None, listen).subrange(0, 7) =~= "http://"@);
    assert(advertised(None, listen).subrange(7, listen.len() as int + 7) =~= listen);
}

} // verus!
