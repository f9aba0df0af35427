//! The resolver configuration, the text of a name server's address, and the
//! merge.

use crate::error::{ErrorKind, NmstateError};
use crate::ifaces::merged::{has_entry, MergedInterfaceView, MergedInterfaces};
use crate::model::{list_or_empty, opt_view, opt_views, or_empty, or_kept, views};
use vstd::prelude::*;
use vstd::string::{StrSliceExecFns, StringExecFns};

verus! {

/// A hexadecimal digit.
pub open spec fn is_hex_digit(c: char) -> bool {
    let u = c as u32;
    (48 <= u <= 57) || (65 <= u <= 70) || (97 <= u <= 102)
}

/// A character that the address of a name server may hold.
pub open spec fn is_addr_char(c: char) -> bool {
    is_hex_digit(c) || c == ':' || c == '.'
}

/// The address of a name server: its text up to the first `%`.
pub open spec fn address_of(s: Seq<char>) -> Seq<char> {
    match s.index_of_first('%') {
        Some(k) => s.subrange(0, k),
        None => s,
    }
}

/// The scope of a name server: the text behind the first `%`, the name of
/// the interface through which the server is reached.
pub open spec fn scope_of(s: Seq<char>) -> Option<Seq<char>> {
    match s.index_of_first('%') {
        Some(k) => Some(s.subrange(k + 1, s.len() as int)),
        None => None,
    }
}

/// The text of a name server is an address of hexadecimal digits, colons
/// and dots, not empty, and, where a `%` follows, a scope that is not empty.
pub open spec fn server_well_formed(s: Seq<char>) -> bool {
    &&& address_of(s).len() > 0
    &&& forall|i: int| 0 <= i < address_of(s).len() ==> is_addr_char(#[trigger] address_of(s)[i])
    &&& match scope_of(s) {
        Some(n) => n.len() > 0,
        None => true,
    }
}

/// The address is an IPv6 link-local one: its first group lies between
/// `fe80` and `febf`.
pub open spec fn is_link_local(a: Seq<char>) -> bool {
    &&& a.len() >= 5
    &&& (a[0] == 'f' || a[0] == 'F')
    &&& (a[1] == 'e' || a[1] == 'E')
    &&& (a[2] == '8' || a[2] == '9' || a[2] == 'a' || a[2] == 'A' || a[2] == 'b' || a[2] == 'B')
    &&& is_hex_digit(a[3])
    &&& a[4] == ':'
}

/// A link-local name server states its scope, and the scope is a merged
/// interface.
pub open spec fn server_reachable(s: Seq<char>, ifaces: Seq<MergedInterfaceView>) -> bool {
    is_link_local(address_of(s)) ==> match scope_of(s) {
        Some(n) => has_entry(ifaces, n),
        None => false,
    }
}

/// Every name server is reachable.
pub open spec fn servers_reachable(servers: Seq<Seq<char>>, ifaces: Seq<MergedInterfaceView>)
    -> bool {
    forall|i: int| 0 <= i < servers.len() ==> server_reachable(#[trigger] servers[i], ifaces)
}

/// The position of the first `%` of the text.
pub fn percent_position(s: &str) -> (r: Option<usize>)
    ensures
        match r {
            Some(k) => s@.index_of_first('%') == Some(k as int) && k < s@.len(),
            None => s@.index_of_first('%') is None,
        },
{
    let n = s.unicode_len();
    let mut i: usize = 0;
    proof {
        s@.index_of_first_ensures('%');
    }
    while i < n
        invariant
            i <= n,
            n == s@.len(),
            forall|k: int| 0 <= k < i ==> s@[k] != '%',
        decreases n - i,
    {
        if s.get_char(i) == '%' {
            proof {
                s@.index_of_first_ensures('%');
                assert(s@.contains('%'));
                let idx = s@.index_of_first('%')->0;
                if idx < i {
                    assert(s@[idx] != '%');
                }
            }
            return Some(i);
        }
        i += 1;
    }
    proof {
        s@.index_of_first_ensures('%');
        if s@.contains('%') {
            let idx = s@.index_of_first('%')->0;
            assert(s@[idx] != '%');
        }
    }
    None
}

/// The scope of a name server, where its text states one.
pub fn server_scope(s: &str) -> (r: Option<String>)
    ensures
        opt_view(r) == scope_of(s@),
{
    match percent_position(s) {
        Some(k) => {
            let n = s.unicode_len();
            Some(String::from_str(s.substring_char(k + 1, n)))
        },
        None => None,
    }
}

/// Whether the character is a hexadecimal digit.
pub fn char_is_hex_digit(c: char) -> (r: bool)
    ensures
        r == is_hex_digit(c),
{
    let u: u32 = c as u32;
    (48 <= u && u <= 57) || (65 <= u && u <= 70) || (97 <= u && u <= 102)
}

/// Whether the text of a name server is well formed.
pub fn is_well_formed_server(s: &str) -> (r: bool)
    ensures
        r == server_well_formed(s@),
{
    let n = s.unicode_len();
    let end = match percent_position(s) {
        Some(k) => {
            if k + 1 >= n {
                return false;
            }
            k
        },
        None => n,
    };
    assert(address_of(s@) =~= s@.subrange(0, end as int));
    if end == 0 {
        return false;
    }
    let mut i: usize = 0;
    while i < end
        invariant
            i <= end <= n,
            n == s@.len(),
            address_of(s@) == s@.subrange(0, end as int),
            forall|k: int| 0 <= k < i ==> is_addr_char(#[trigger] s@[k]),
        decreases end - i,
    {
        let c = s.get_char(i);
        if !(char_is_hex_digit(c) || c == ':' || c == '.') {
            assert(address_of(s@)[i as int] == s@[i as int]);
            return false;
        }
        i += 1;
    }
    assert forall|k: int| 0 <= k < address_of(s@).len() implies is_addr_char(
        #[trigger] address_of(s@)[k],
    ) by {
        assert(address_of(s@)[k] == s@[k]);
    }
    true
}

/// Whether the address of a name server is an IPv6 link-local one.
pub fn is_link_local_server(s: &str) -> (r: bool)
    ensures
        r == is_link_local(address_of(s@)),
{
    let n = s.unicode_len();
    let end = match percent_position(s) {
        Some(k) => k,
        None => n,
    };
    assert(address_of(s@) =~= s@.subrange(0, end as int));
    if end < 5 {
        return false;
    }
    let c0 = s.get_char(0);
    let c1 = s.get_char(1);
    let c2 = s.get_char(2);
    let c3 = s.get_char(3);
    let c4 = s.get_char(4);
    assert(address_of(s@)[0] == c0 && address_of(s@)[1] == c1 && address_of(s@)[2] == c2
        && address_of(s@)[3] == c3 && address_of(s@)[4] == c4);
    (c0 == 'f' || c0 == 'F') && (c1 == 'e' || c1 == 'E') && (c2 == '8' || c2 == '9' || c2 == 'a'
        || c2 == 'A' || c2 == 'b' || c2 == 'B') && char_is_hex_digit(c3) && c4 == ':'
}

/// The mathematical value of a [`DnsClientState`].
pub struct DnsClientStateView {
    pub server: Option<Seq<Seq<char>>>,
    pub search: Option<Seq<Seq<char>>>,
}

/// What a resolver is given: name servers and search domains.
#[derive(Debug, PartialEq, Eq)]
pub struct DnsClientState {
    pub server: Option<Vec<String>>,
    pub search: Option<Vec<String>>,
}

impl View for DnsClientState {
    type V = DnsClientStateView;

    open spec fn view(&self) -> DnsClientStateView {
        DnsClientStateView { server: opt_views(self.server), search: opt_views(self.search) }
    }
}

impl Clone for DnsClientState {
    fn clone(&self) -> (r: Self)
        ensures
            r@ == self@,
    {
        DnsClientState {
            server: crate::text::clone_opt_texts(&self.server),
            search: crate::text::clone_opt_texts(&self.search),
        }
    }
}

impl Default for DnsClientState {
    fn default() -> (r: Self)
        ensures
            r@ == (DnsClientStateView { server: None, search: None }),
    {
        DnsClientState { server: None, search: None }
    }
}

/// The mathematical value of a [`DnsState`].
pub struct DnsStateView {
    pub running: Option<DnsClientStateView>,
    pub config: Option<DnsClientStateView>,
}

/// The resolver of a network state: what is in effect and what is
/// configured.
#[derive(Debug, PartialEq, Eq)]
pub struct DnsState {
    pub running: Option<DnsClientState>,
    pub config: Option<DnsClientState>,
}

impl View for DnsState {
    type V = DnsStateView;

    open spec fn view(&self) -> DnsStateView {
        DnsStateView { running: opt_view(self.running), config: opt_view(self.config) }
    }
}

impl Clone for DnsState {
    fn clone(&self) -> (r: Self)
        ensures
            r@ == self@,
    {
        let running = match &self.running {
            Some(c) => Some(c.clone()),
            None => None,
        };
        let config = match &self.config {
            Some(c) => Some(c.clone()),
            None => None,
        };
        DnsState { running, config }
    }
}

impl Default for DnsState {
    fn default() -> (r: Self)
        ensures
            r@ == (DnsStateView { running: None, config: None }),
    {
        DnsState { running: None, config: None }
    }
}

/// The name servers that a configuration gives.
pub open spec fn servers_of(c: Option<DnsClientStateView>) -> Option<Seq<Seq<char>>> {
    match c {
        Some(s) => s.server,
        None => None,
    }
}

/// The search domains that a configuration gives.
pub open spec fn searches_of(c: Option<DnsClientStateView>) -> Option<Seq<Seq<char>>> {
    match c {
        Some(s) => s.search,
        None => None,
    }
}

/// The configuration that a desired state gives.
pub open spec fn desired_config(desired: Option<DnsStateView>) -> Option<DnsClientStateView> {
    match desired {
        Some(d) => d.config,
        None => None,
    }
}

/// The mathematical value of a [`MergedDnsState`].
pub struct MergedDnsStateView {
    pub servers: Seq<Seq<char>>,
    pub searches: Seq<Seq<char>>,
}

/// The merge of the resolver configuration of two states, or `None` where a
/// desired name server is not well formed. The name servers are the desired
/// ones where the desired state gives any, else the current ones; likewise
/// the search domains.
pub open spec fn merged_dns(desired: Option<DnsStateView>, current: DnsStateView) -> Option<
    MergedDnsStateView,
> {
    let des = desired_config(desired);
    let asked = or_empty(servers_of(des));
    if exists|i: int| 0 <= i < asked.len() && !server_well_formed(#[trigger] asked[i]) {
        None
    } else {
        Some(
            MergedDnsStateView {
                servers: or_empty(or_kept(servers_of(des), servers_of(current.config))),
                searches: or_empty(or_kept(searches_of(des), searches_of(current.config))),
            },
        )
    }
}

/// The resolver configuration that comes out of a merge.
#[derive(Debug, PartialEq, Eq)]
pub struct MergedDnsState {
    servers: Vec<String>,
    searches: Vec<String>,
}

impl View for MergedDnsState {
    type V = MergedDnsStateView;

    closed spec fn view(&self) -> MergedDnsStateView {
        MergedDnsStateView { servers: views(self.servers@), searches: views(self.searches@) }
    }
}

impl MergedDnsState {
    /// Merges the desired resolver configuration with the current one.
    pub fn new(desired: Option<DnsState>, current: DnsState) -> (r: Result<Self, NmstateError>)
        ensures
            match r {
                Ok(m) => merged_dns(opt_view(desired), current@) == Some(m@),
                Err(e) => merged_dns(opt_view(desired), current@) is None && e@.kind
                    == ErrorKind::InvalidArgument,
            },
    {
        let des = match desired {
            Some(d) => d.config,
            None => None,
        };
        let (des_server, des_search) = match des {
            Some(c) => (c.server, c.search),
            None => (None, None),
        };
        let (cur_server, cur_search) = match current.config {
            Some(c) => (c.server, c.search),
            None => (None, None),
        };
        if let Some(asked) = &des_server {
            let ghost a = views(asked@);
            let mut i: usize = 0;
            while i < asked.len()
                invariant
                    i <= asked.len(),
                    a == views(asked@),
                    a == or_empty(servers_of(desired_config(opt_view(desired)))),
                    forall|k: int| 0 <= k < i ==> server_well_formed(#[trigger] a[k]),
                decreases asked.len() - i,
            {
                if !is_well_formed_server(asked[i].as_str()) {
                    assert(!server_well_formed(a[i as int]));
                    let msg = String::from_str("Invalid name server: ").concat(
                        asked[i].as_str(),
                    );
                    return Err(NmstateError::new(ErrorKind::InvalidArgument, msg));
                }
                i += 1;
            }
        }
        let servers = list_or_empty(
            if des_server.is_some() {
                des_server
            } else {
                cur_server
            },
        );
        let searches = list_or_empty(
            if des_search.is_some() {
                des_search
            } else {
                cur_search
            },
        );
        Ok(MergedDnsState { servers, searches })
    }

    /// The merged name servers.
    pub fn servers(&self) -> (r: &Vec<String>)
        ensures
            views(r@) == self@.servers,
    {
        &self.servers
    }

    /// The merged search domains.
    pub fn searches(&self) -> (r: &Vec<String>)
        ensures
            views(r@) == self@.searches,
    {
        &self.searches
    }

    /// Looks for a link-local name server whose scope is not a merged
    /// interface.
    pub fn validate_link_local_servers(&self, ifaces: &MergedInterfaces) -> (r: Result<
        (),
        NmstateError,
    >)
        ensures
            match r {
                Ok(_) => servers_reachable(self@.servers, ifaces@.ifaces),
                Err(e) => !servers_reachable(self@.servers, ifaces@.ifaces) && e@.kind
                    == ErrorKind::ValidationError,
            },
    {
        let ghost s = views(self.servers@);
        let mut i: usize = 0;
        while i < self.servers.len()
            invariant
                i <= self.servers.len(),
                s == views(self.servers@),
                s == self@.servers,
                forall|k: int| 0 <= k < i ==> server_reachable(#[trigger] s[k], ifaces@.ifaces),
            decreases self.servers.len() - i,
        {
            let srv = self.servers[i].as_str();
            if is_link_local_server(srv) {
                let reachable = match server_scope(srv) {
                    Some(n) => ifaces.has_iface(&n),
                    None => false,
                };
                if !reachable {
                    assert(!server_reachable(s[i as int], ifaces@.ifaces));
                    let msg = String::from_str(
                        "A link-local name server needs the name of a known interface, as in fe80::1%eth1: ",
                    ).concat(srv);
                    return Err(NmstateError::new(ErrorKind::ValidationError, msg));
                }
            }
            i += 1;
        }
        Ok(())
    }
}

} // verus!
