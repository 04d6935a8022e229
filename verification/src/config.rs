//! The module's configuration as given at registration: exporter options
//! with their defaults, the map of extra export headers, and the messages
//! logged while registering.

use vstd::prelude::*;
use vstd::string::StringExecFns;
use crate::layer::line_prefix;
use crate::text::{debug_quoted, debug_text, decimal, decimal_string, str_eq};

verus! {

/// Extra HTTP headers sent with every export, one value per name.
pub struct HeaderMap {
    entries: Vec<(String, String)>,
}

impl HeaderMap {
    /// The header names, in the order in which they were first inserted.
    pub closed spec fn names(&self) -> Seq<Seq<char>> {
        self.entries@.map_values(|p: (String, String)| p.0@)
    }

    /// No header name occurs twice.
    #[verifier::type_invariant]
    closed spec fn names_distinct(&self) -> bool {
        self.names().no_duplicates()
    }
}

impl View for HeaderMap {
    type V = Map<Seq<char>, Seq<char>>;

    closed spec fn view(&self) -> Map<Seq<char>, Seq<char>> {
        Map::new(
            |k: Seq<char>| self.names().contains(k),
            |k: Seq<char>| self.entries@[self.names().index_of(k)].1@,
        )
    }
}

impl HeaderMap {
    /// An empty map.
    pub fn new() -> (m: Self)
        ensures
            m@ == Map::<Seq<char>, Seq<char>>::empty(),
            m.names() == Seq::<Seq<char>>::empty(),
    {
        let m = HeaderMap { entries: Vec::new() };
        assert(m.names() =~= Seq::<Seq<char>>::empty());
        assert(m@ =~= Map::<Seq<char>, Seq<char>>::empty());
        m
    }

    fn position(&self, key: &str) -> (pos: Option<usize>)
        ensures
            match pos {
                Some(i) => i < self.entries@.len() && self.entries@[i as int].0@ == key@,
                None => !self.names().contains(key@),
            },
    {
        let n = self.entries.len();
        let mut i: usize = 0;
        while i < n
            invariant
                0 <= i <= n,
                n == self.entries@.len(),
                forall|j: int| 0 <= j < i ==> self.entries@[j].0@ != key@,
            decreases n - i,
        {
            if str_eq(self.entries[i].0.as_str(), key) {
                return Some(i);
            }
            i = i + 1;
        }
        assert forall|j: int| 0 <= j < self.names().len() implies self.names()[j] != key@ by {
            assert(self.names()[j] == self.entries@[j].0@);
        }
        None
    }

    /// Sets the value of `name`, replacing any earlier value of it; a new
    /// name goes after the names already there.
    pub fn insert(&mut self, name: String, value: String)
        ensures
            final(self)@ == old(self)@.insert(name@, value@),
            final(self).names() == (if old(self).names().contains(name@) {
                old(self).names()
            } else {
                old(self).names().push(name@)
            }),
    {
        proof {
            use_type_invariant(&*self);
        }
        let ghost old_entries = self.entries@;
        let ghost old_names = self.names();
        match self.position(name.as_str()) {
            Some(i) => {
                let ghost new_entries = old_entries.update(i as int, (name, value));
                assert(new_entries.map_values(|p: (String, String)| p.0@) =~= old_names);
                let ghost nm = name@;
                let ghost nv = value@;
                let mut entries: Vec<(String, String)> = Vec::new();
                std::mem::swap(&mut entries, &mut self.entries);
                entries.set(i, (name, value));
                assert(entries@ == new_entries);
                assert(new_entries.map_values(|p: (String, String)| p.0@).no_duplicates());
                self.entries = entries;
                assert(self.names() =~= old_names);
                assert forall|k: Seq<char>| #[trigger] old_names.contains(k) implies
                    self.entries@[old_names.index_of(k)].1@ == (if k == nm {
                        nv
                    } else {
                        old_entries[old_names.index_of(k)].1@
                    }) by {
                    let j = old_names.index_of(k);
                    assert(old_names[j] == k);
                    if k == nm {
                        assert(old_names[i as int] == nm);
                        assert(j == i);
                    } else {
                        assert(j != i);
                    }
                }
                assert(old_names.contains(nm)) by {
                    assert(old_names[i as int] == nm);
                }
                assert(self@ =~= old(self)@.insert(nm, nv));
            },
            None => {
                let ghost nm = name@;
                let ghost nv = value@;
                let mut entries: Vec<(String, String)> = Vec::new();
                std::mem::swap(&mut entries, &mut self.entries);
                entries.push((name, value));
                assert(entries@.map_values(|p: (String, String)| p.0@) =~= old_names.push(nm));
                assert(!old_names.contains(nm));
                self.entries = entries;
                assert(self.names() =~= old_names.push(nm));
                assert forall|k: Seq<char>| #[trigger] old_names.contains(k) implies
                    self.names().index_of(k) == old_names.index_of(k) && self.entries@[
                        old_names.index_of(k)] == old_entries[old_names.index_of(k)] by {
                    let j = old_names.index_of(k);
                    let j2 = self.names().index_of(k);
                    assert(self.names()[j] == k);
                    assert(self.names().contains(k));
                    assert(self.names()[j2] == k);
                    if j2 == old_names.len() {
                        assert(k == nm);
                    }
                    assert(old_names[j2] == k);
                }
                let ghost n = old_names.len() as int;
                assert(self.names()[n] == nm);
                assert(self.names().contains(nm));
                assert(self.names().index_of(nm) == n) by {
                    let j = self.names().index_of(nm);
                    if j != n {
                        assert(old_names[j] == nm);
                        assert(old_names.contains(nm));
                    }
                }
                assert(old(self).entries@ == old_entries);
                assert forall|k: Seq<char>| #[trigger] self@.contains_key(k) == old(self)@.insert(
                    nm,
                    nv,
                ).contains_key(k) by {
                    if old_names.contains(k) {
                        let j = old_names.index_of(k);
                        assert(old_names[j] == k);
                        assert(self.names()[j] == k);
                    }
                    if self.names().contains(k) && k != nm {
                        let j = self.names().index_of(k);
                        assert(self.names()[j] == k);
                        assert(j != n);
                        assert(old_names[j] == k);
                    }
                }
                assert forall|k: Seq<char>| #[trigger] self@.contains_key(k) implies self@[k]
                    == old(self)@.insert(nm, nv)[k] by {
                    if k != nm {
                        let j = self.names().index_of(k);
                        assert(self.names()[j] == k);
                        assert(j != n);
                        assert(old_names[j] == k);
                        assert(old_names.contains(k));
                    }
                }
                assert(self@ =~= old(self)@.insert(nm, nv));
            },
        }
    }

    proof fn lemma_len(&self)
        requires
            self.names_distinct(),
        ensures
            self@.dom().finite(),
            self@.len() == self.entries@.len(),
            self@.dom() == self.names().to_set(),
            self.names().len() == self.entries@.len(),
    {
        assert(self@.dom() =~= self.names().to_set());
        self.names().unique_seq_to_set();
    }

    /// The number of headers.
    pub fn len(&self) -> (n: usize)
        ensures
            n == self@.len(),
            self@.dom().finite(),
            self.names().len() == n,
            self.names().no_duplicates(),
            self@.dom() == self.names().to_set(),
    {
        proof {
            use_type_invariant(self);
            self.lemma_len();
        }
        self.entries.len()
    }

    /// Whether there are no headers.
    pub fn is_empty(&self) -> (r: bool)
        ensures
            r == (self@ == Map::<Seq<char>, Seq<char>>::empty()),
    {
        proof {
            use_type_invariant(self);
            self.lemma_len();
            if self.entries@.len() > 0 {
                assert(self.names()[0] == self.entries@[0].0@);
                assert(self@.contains_key(self.names()[0]));
            } else {
                assert(self@ =~= Map::<Seq<char>, Seq<char>>::empty());
            }
        }
        self.entries.len() == 0
    }

    /// The value of `name`, if it is set.
    pub fn get(&self, name: &str) -> (v: Option<&str>)
        ensures
            match v {
                Some(s) => self@.contains_key(name@) && self@[name@] == s@,
                None => !self@.contains_key(name@),
            },
    {
        proof {
            use_type_invariant(self);
        }
        match self.position(name) {
            Some(i) => {
                proof {
                    let j = self.names().index_of(name@);
                    assert(self.names()[i as int] == name@);
                    assert(self.names().contains(name@));
                    assert(j == i);
                }
                Some(self.entries[i].1.as_str())
            },
            None => None,
        }
    }

    /// The `i`-th header in the order in which names were first inserted.
    pub fn entry(&self, i: usize) -> (kv: (&str, &str))
        requires
            i < self@.len(),
        ensures
            kv.0@ == self.names()[i as int],
            self@.contains_key(kv.0@),
            self@[kv.0@] == kv.1@,
    {
        proof {
            use_type_invariant(self);
            self.lemma_len();
            let k = self.names()[i as int];
            assert(self.names().contains(k));
            assert(self.names().index_of(k) == i);
        }
        (self.entries[i].0.as_str(), self.entries[i].1.as_str())
    }
}

/// A read gives back the last write of a header name and no other name is
/// affected by it.
pub proof fn lemma_header_read_after_write(
    m: Map<Seq<char>, Seq<char>>,
    name: Seq<char>,
    value: Seq<char>,
    other: Seq<char>,
)
    ensures
        m.insert(name, value).contains_key(name),
        m.insert(name, value)[name] == value,
        other != name ==> (m.insert(name, value).contains_key(other) == m.contains_key(other)),
        other != name && m.contains_key(other) ==> m.insert(name, value)[other] == m[other],
{
}

/// The headers given by a list of name/value pairs, a later pair of a name
/// replacing an earlier one.
pub open spec fn headers_from_pairs(pairs: Seq<(String, String)>) -> Map<Seq<char>, Seq<char>>
    decreases pairs.len(),
{
    if pairs.len() == 0 {
        Map::empty()
    } else {
        headers_from_pairs(pairs.drop_last()).insert(pairs.last().0@, pairs.last().1@)
    }
}

/// The headers of a list of pairs hold each pair's value unchanged under
/// its name, unless a later pair gives the same name again.
pub proof fn lemma_headers_keep_values(pairs: Seq<(String, String)>, i: int)
    requires
        0 <= i < pairs.len(),
        forall|j: int| i < j < pairs.len() ==> pairs[j].0@ != pairs[i].0@,
    ensures
        headers_from_pairs(pairs).contains_key(pairs[i].0@),
        headers_from_pairs(pairs)[pairs[i].0@] == pairs[i].1@,
    decreases pairs.len(),
{
    if i < pairs.len() - 1 {
        let rest = pairs.drop_last();
        assert forall|j: int| i < j < rest.len() implies rest[j].0@ != rest[i].0@ by {
            assert(rest[j] == pairs[j]);
        }
        lemma_headers_keep_values(rest, i);
        assert(pairs.last() == pairs[pairs.len() - 1]);
    }
}

/// The headers of a list of pairs have exactly the pairs' names.
pub proof fn lemma_headers_names(pairs: Seq<(String, String)>, name: Seq<char>)
    ensures
        headers_from_pairs(pairs).contains_key(name) <==> exists|j: int|
            0 <= j < pairs.len() && #[trigger] pairs[j].0@ == name,
    decreases pairs.len(),
{
    if pairs.len() > 0 {
        let rest = pairs.drop_last();
        lemma_headers_names(rest, name);
        if exists|j: int| 0 <= j < rest.len() && #[trigger] rest[j].0@ == name {
            let j = choose|j: int| 0 <= j < rest.len() && #[trigger] rest[j].0@ == name;
            assert(pairs[j] == rest[j]);
        }
        if exists|j: int| 0 <= j < pairs.len() && #[trigger] pairs[j].0@ == name {
            let j = choose|j: int| 0 <= j < pairs.len() && #[trigger] pairs[j].0@ == name;
            if j < rest.len() {
                assert(rest[j] == pairs[j]);
            }
        }
    }
}

/// For pairs with distinct names, the headers map each name to exactly
/// the value given with it.
pub proof fn lemma_distinct_pairs_headers(pairs: Seq<(String, String)>, i: int)
    requires
        0 <= i < pairs.len(),
        forall|j: int, k: int| 0 <= j < k < pairs.len() ==> pairs[j].0@ != pairs[k].0@,
    ensures
        headers_from_pairs(pairs).contains_key(pairs[i].0@),
        headers_from_pairs(pairs)[pairs[i].0@] == pairs[i].1@,
{
    lemma_headers_keep_values(pairs, i);
}

/// A configured service name is kept as given; only an absent name gives
/// `haproxy`.
pub proof fn lemma_service_name_kept(name: Seq<char>)
    ensures
        service_name_of(Some(name)) == name,
        service_name_of(None) == "haproxy"@,
{
}

/// The headers of a list of pairs are empty exactly when the list is.
pub proof fn lemma_headers_empty_iff_no_pairs(pairs: Seq<(String, String)>)
    ensures
        (headers_from_pairs(pairs) == Map::<Seq<char>, Seq<char>>::empty()) <==> pairs.len() == 0,
{
    if pairs.len() > 0 {
        let k = pairs.last().0@;
        assert(headers_from_pairs(pairs).contains_key(k));
        assert(!Map::<Seq<char>, Seq<char>>::empty().contains_key(k));
    }
}

/// The headers of `pairs`, inserted in order; none when there are no
/// pairs.
pub fn collect_headers(pairs: &Vec<(String, String)>) -> (headers: Option<HeaderMap>)
    ensures
        pairs@.len() == 0 ==> headers is None,
        pairs@.len() != 0 ==> (headers matches Some(h) && h@ == headers_from_pairs(pairs@)),
{
    let mut map = HeaderMap::new();
    let n = pairs.len();
    let mut i: usize = 0;
    while i < n
        invariant
            0 <= i <= n,
            n == pairs@.len(),
            map@ == headers_from_pairs(pairs@.subrange(0, i as int)),
        decreases n - i,
    {
        let name = pairs[i].0.clone();
        let value = pairs[i].1.clone();
        map.insert(name, value);
        assert(pairs@.subrange(0, i + 1).drop_last() =~= pairs@.subrange(0, i as int));
        i = i + 1;
    }
    assert(pairs@.subrange(0, n as int) =~= pairs@);
    proof {
        lemma_headers_empty_iff_no_pairs(pairs@);
    }
    if map.is_empty() {
        None
    } else {
        Some(map)
    }
}

/// The exporter's configuration as registered.
pub struct Options {
    pub service_name: String,
    pub sampler: Option<String>,
    pub propagator: Option<String>,
    pub endpoint: Option<String>,
    pub protocol: Option<String>,
    pub log_level: Option<String>,
    pub headers: Option<HeaderMap>,
}

/// The view of an optional string.
pub open spec fn opt_view(s: Option<String>) -> Option<Seq<char>> {
    match s {
        Some(t) => Some(t@),
        None => None,
    }
}

/// The service name: the configured `name`, `haproxy` when there is none.
pub open spec fn service_name_of(name: Option<Seq<char>>) -> Seq<char> {
    match name {
        Some(n) => n,
        None => "haproxy"@,
    }
}

/// The options from what the `register` table holds: `name`, `sampler`,
/// `propagator`, and the `otlp` table's `endpoint`, `protocol`,
/// `log_level` and `headers` (the pairs that were read, when `headers` is a
/// table).
pub fn resolve_options(
    name: Option<String>,
    sampler: Option<String>,
    propagator: Option<String>,
    endpoint: Option<String>,
    protocol: Option<String>,
    log_level: Option<String>,
    headers: Option<Vec<(String, String)>>,
) -> (options: Options)
    ensures
        options.service_name@ == service_name_of(opt_view(name)),
        name matches Some(n) ==> options.service_name@ == n@,
        name is None ==> options.service_name@ == "haproxy"@,
        options.sampler == sampler,
        options.propagator == propagator,
        options.endpoint == endpoint,
        options.protocol == protocol,
        options.log_level == log_level,
        match headers {
            None => options.headers is None,
            Some(pairs) => if pairs@.len() == 0 {
                options.headers is None
            } else {
                options.headers matches Some(h) && h@ == headers_from_pairs(pairs@)
            },
        },
{
    let service_name = match name {
        Some(n) => n,
        None => {
            let mut n = String::new();
            n.append("haproxy");
            n
        },
    };
    let headers = match headers {
        Some(pairs) => collect_headers(&pairs),
        None => None,
    };
    Options { service_name, sampler, propagator, endpoint, protocol, log_level, headers }
}

/// An optional setting, `<default>` when it is absent.
pub open spec fn or_default(s: Option<Seq<char>>) -> Seq<char> {
    match s {
        Some(t) => t,
        None => "<default>"@,
    }
}

/// The number of configured headers.
pub open spec fn header_count(headers: Option<HeaderMap>) -> nat {
    match headers {
        Some(h) => h@.len(),
        None => 0,
    }
}

/// The registration message from its parts, where `endpoint` and
/// `protocol` are given as `{:?}` renders them.
pub open spec fn registration_line_text(
    service_name: Seq<char>,
    endpoint: Seq<char>,
    protocol: Seq<char>,
    header_count: nat,
    thread: nat,
) -> Seq<char> {
    line_prefix() + "register called: service_name="@ + service_name + " endpoint="@ + endpoint
        + " protocol="@ + protocol + " headers="@ + decimal(header_count) + " thread="@ + decimal(
        thread,
    )
}

/// The message logged when the module registers.
pub open spec fn registration_text(options: Options, thread: nat) -> Seq<char> {
    registration_line_text(
        options.service_name@,
        debug_text(or_default(opt_view(options.endpoint))),
        debug_text(or_default(opt_view(options.protocol))),
        header_count(options.headers),
        thread,
    )
}

/// The registration message from its parts: the service name, the
/// rendered endpoint and protocol, the number of headers and the HAProxy
/// thread.
pub fn registration_line(
    service_name: &str,
    endpoint: &str,
    protocol: &str,
    header_count: usize,
    thread: u16,
) -> (msg: String)
    ensures
        msg@ == registration_line_text(
            service_name@,
            endpoint@,
            protocol@,
            header_count as nat,
            thread as nat,
        ),
{
    let mut msg = String::new();
    msg.append("[haproxy-otel] ");
    msg.append("register called: service_name=");
    msg.append(service_name);
    msg.append(" endpoint=");
    msg.append(endpoint);
    msg.append(" protocol=");
    msg.append(protocol);
    msg.append(" headers=");
    let count_text = decimal_string(header_count as u64);
    msg.append(count_text.as_str());
    msg.append(" thread=");
    let thread_text = decimal_string(thread as u64);
    msg.append(thread_text.as_str());
    assert(msg@ =~= registration_line_text(
        service_name@,
        endpoint@,
        protocol@,
        header_count as nat,
        thread as nat,
    ));
    msg
}

fn setting_or_default(s: &Option<String>) -> (r: &str)
    ensures
        r@ == or_default(opt_view(*s)),
{
    match s {
        Some(t) => t.as_str(),
        None => "<default>",
    }
}

/// The message logged when the module registers on HAProxy thread
/// `thread`: endpoint and protocol are rendered with `{:?}`, `<default>`
/// standing for an absent one.
pub fn registration_message(options: &Options, thread: u16) -> (msg: String)
    ensures
        msg@ == registration_text(*options, thread as nat),
{
    let count: usize = match &options.headers {
        Some(h) => h.len(),
        None => 0,
    };
    let endpoint = debug_quoted(setting_or_default(&options.endpoint));
    let protocol = debug_quoted(setting_or_default(&options.protocol));
    registration_line(options.service_name.as_str(), endpoint.as_str(), protocol.as_str(), count, thread)
}

/// The message logged before the exporter is initialised.
pub fn exporter_init_message(thread: u16) -> (msg: String)
    ensures
        msg@ == line_prefix() + "calling exporter::init on thread "@ + decimal(thread as nat),
{
    let mut msg = String::new();
    msg.append("[haproxy-otel] ");
    msg.append("calling exporter::init on thread ");
    let thread_text = decimal_string(thread as u64);
    msg.append(thread_text.as_str());
    assert(msg@ =~= line_prefix() + "calling exporter::init on thread "@ + decimal(thread as nat));
    msg
}

/// The message logged after the exporter's initialisation: success, or
/// failure with the error's text.
pub fn exporter_outcome_message(error: Option<&str>) -> (msg: String)
    ensures
        error is None ==> msg@ == line_prefix() + "exporter init: SUCCESS"@,
        error matches Some(e) ==> msg@ == line_prefix() + "exporter init: FAILED - "@ + e@,
{
    let mut msg = String::new();
    msg.append("[haproxy-otel] ");
    match error {
        None => {
            msg.append("exporter init: SUCCESS");
            assert(msg@ =~= line_prefix() + "exporter init: SUCCESS"@);
        },
        Some(e) => {
            msg.append("exporter init: FAILED - ");
            msg.append(e);
            assert(msg@ =~= line_prefix() + "exporter init: FAILED - "@ + e@);
        },
    }
    msg
}

} // verus!
