//! The listening address, from the port the environment may give.
use vstd::prelude::*;

verus! {

/// The port served on when none is configured.
pub const DEFAULT_PORT: &'static str = "8080";

/// The interface the service listens on: all of them.
pub const ALL_INTERFACES: &'static str = "0.0.0.0";

/// The port in effect: the configured text verbatim, else the default.
pub open spec fn effective_port(configured: Option<Seq<char>>) -> Seq<char> {
    match configured {
        Some(p) => p,
        None => DEFAULT_PORT@,
    }
}

/// The address `host:port` to bind.
pub open spec fn address_of(port: Seq<char>) -> Seq<char> {
    ALL_INTERFACES@ + seq![':'] + port
}

/// The port to use, given the configured value if there is one.
pub fn resolve_port(configured: Option<String>) -> (r: String)
    ensures
        r@ == effective_port(
            match configured {
                Some(s) => Some(s@),
                None => None,
            },
        ),
{
    match configured {
        Some(p) => p,
        None => String::from_str(DEFAULT_PORT),
    }
}

/// The socket address to bind for `port`, on every interface.
pub fn bind_address(port: &str) -> (r: String)
    ensures
        r@ == address_of(port@),
{
    let mut out = String::from_str(ALL_INTERFACES);
    out.append(":");
    out.append(port);
    proof {
        reveal_strlit(":");
        assert(out@ =~= address_of(port@));
    }
    out
}

/// Without a configured port the service binds `0.0.0.0:8080`; with one, its
/// text is used as it stands.
pub proof fn lemma_port_resolution(configured: Option<Seq<char>>)
    ensures
        configured is None ==> address_of(effective_port(configured)) == "0.0.0.0:8080"@,
        configured matches Some(p) ==> address_of(effective_port(configured)) == "0.0.0.0:"@ + p,
{
    reveal_strlit("0.0.0.0");
    reveal_strlit("8080");
    reveal_strlit("0.0.0.0:8080");
    reveal_strlit("0.0.0.0:");
    assert(address_of(DEFAULT_PORT@) =~= "0.0.0.0:8080"@);
    if let Some(p) = configured {
        assert(address_of(p) =~= "0.0.0.0:"@ + p);
    }
}

} // verus!
