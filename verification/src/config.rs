//! The configuration itself: its types, the schema a document must meet, the
//! layered defaulting of per-feed settings, and the loader that turns a
//! file's bytes into a `Config`.
use vstd::prelude::*;

use crate::client::{valid_proxy, validate_proxy, ApiConfig, ApiConfigV};
use crate::node::{arr_view, dict_view, dict_get, lookup, parse_doc, parsed_doc, str_eq_lit, Node,
    NodeV};
use crate::numtext::{is_i64_text, parse_i64_text, text_value};

verus! {

/// Built-in default for `include_feed_title`, used when neither the file's
/// top level nor the feed entry sets it.
pub const DEFAULT_INCLUDE_FEED_TITLE: bool = false;

/// Built-in default for `request_timeout` in whole seconds, used when
/// neither the file's top level nor the feed entry sets it.
pub const DEFAULT_REQUEST_TIMEOUT: u64 = 1200;

/// The destination a feed's items are forwarded to: either a numeric
/// identifier or a symbolic name, as resolved from the raw destination key.
#[derive(Clone, Debug, PartialEq, Eq)]
pub enum ChatId {
    Id(i64),
    Username(String),
}

/// The mathematical shape of a `ChatId`.
pub enum ChatIdV {
    Id(i64),
    Username(Seq<char>),
}

impl View for ChatId {
    type V = ChatIdV;

    open spec fn view(&self) -> ChatIdV {
        match self {
            ChatId::Id(v) => ChatIdV::Id(*v),
            ChatId::Username(s) => ChatIdV::Username(s@),
        }
    }
}

/// The syntax a subscribed feed is written in.
#[derive(Copy, Clone, Debug, PartialEq, Eq, Structural)]
pub enum FeedKind {
    Rss,
    Atom,
}

/// One resolved feed subscription: where to fetch, where to forward, and the
/// fully-defaulted per-feed settings.
#[derive(Clone, Debug, PartialEq)]
pub struct FeedConfig {
    pub chat_id: ChatId,
    pub url: String,
    pub kind: FeedKind,
    pub include_feed_title: bool,
    /// Whole seconds.
    pub request_timeout: u64,
}

/// The mathematical shape of a `FeedConfig`.
pub struct FeedConfigV {
    pub chat_id: ChatIdV,
    pub url: Seq<char>,
    pub kind: FeedKind,
    pub include_feed_title: bool,
    pub request_timeout: u64,
}

impl View for FeedConfig {
    type V = FeedConfigV;

    open spec fn view(&self) -> FeedConfigV {
        FeedConfigV {
            chat_id: self.chat_id@,
            url: self.url@,
            kind: self.kind,
            include_feed_title: self.include_feed_title,
            request_timeout: self.request_timeout,
        }
    }
}

/// The loaded, validated and defaulted configuration.
#[derive(Clone, Debug, PartialEq)]
pub struct Config {
    token: String,
    proxy: Option<String>,
    redis_url: String,
    feeds: Vec<FeedConfig>,
}

/// The mathematical shape of a `Config`.
pub struct ConfigV {
    pub token: Seq<char>,
    pub proxy: Option<Seq<char>>,
    pub redis_url: Seq<char>,
    pub feeds: Seq<FeedConfigV>,
}

/// The views of a feed list, in order.
pub open spec fn feeds_view(v: &Vec<FeedConfig>) -> Seq<FeedConfigV> {
    Seq::new(v@.len(), |i: int| v@[i]@)
}

impl View for Config {
    type V = ConfigV;

    closed spec fn view(&self) -> ConfigV {
        ConfigV {
            token: self.token@,
            proxy: match self.proxy {
                Option::Some(p) => Some(p@),
                Option::None => None,
            },
            redis_url: self.redis_url@,
            feeds: feeds_view(&self.feeds),
        }
    }
}

/// Why a load or a client-configuration derivation failed. Each variant
/// carries the diagnostic of its underlying cause.
#[derive(Clone, Debug, PartialEq)]
pub enum ConfigError {
    /// The file's contents are not a document of the expected schema.
    ParseYaml(String),
    /// The configured proxy address failed validation.
    ProxyAddress(String),
    /// The configuration file could not be read: the path, then the
    /// input/output diagnostic.
    ReadFile(String, String),
}

/// The destination identifier a raw key resolves to: the numeric identifier
/// where the key is signed 64-bit decimal text, else the symbolic name
/// holding the key verbatim. Resolution depends on the key text alone.
pub open spec fn chat_id_of_key(key: Seq<char>) -> ChatIdV {
    if is_i64_text(key) {
        ChatIdV::Id(text_value(key) as i64)
    } else {
        ChatIdV::Username(key)
    }
}

/// Resolves one raw destination key.
fn chat_id_of(key: &String) -> (r: ChatId)
    ensures
        r@ == chat_id_of_key(key@),
{
    match parse_i64_text(key.as_str()) {
        Some(v) => ChatId::Id(v),
        None => ChatId::Username(key.clone()),
    }
}

/// An optional boolean field: absent, null, or a boolean.
pub open spec fn bool_field_ok(v: Option<NodeV>) -> bool {
    match v {
        Option::None => true,
        Option::Some(NodeV::Null) => true,
        Option::Some(NodeV::Bool(_)) => true,
        _ => false,
    }
}

/// An optional timeout field: absent, null, or a number of whole seconds
/// that fits an unsigned 64-bit integer.
pub open spec fn timeout_field_ok(v: Option<NodeV>) -> bool {
    match v {
        Option::None => true,
        Option::Some(NodeV::Null) => true,
        Option::Some(NodeV::UInt(_)) => true,
        _ => false,
    }
}

/// An optional string field: absent, null, or a string.
pub open spec fn str_field_ok(v: Option<NodeV>) -> bool {
    match v {
        Option::None => true,
        Option::Some(NodeV::Null) => true,
        Option::Some(NodeV::Str(_)) => true,
        _ => false,
    }
}

/// The feed kind a valid `kind` field names. `rss` and `atom` are the only
/// accepted literals, matched case-sensitively.
pub open spec fn kind_of_name(s: Seq<char>) -> FeedKind {
    if s == "rss"@ {
        FeedKind::Rss
    } else {
        FeedKind::Atom
    }
}

/// A required `kind` field: a string reading exactly `rss` or `atom`.
pub open spec fn kind_field_ok(v: Option<NodeV>) -> bool {
    v matches Some(NodeV::Str(s)) && (s == "rss"@ || s == "atom"@)
}

/// A well-formed feed entry: a mapping with a string `url`, a valid `kind`,
/// and optional `include_feed_title` and `request_timeout` overrides.
pub open spec fn entry_ok(e: NodeV) -> bool {
    &&& e matches NodeV::Dict(fs)
    &&& lookup(fs, "url"@) matches Some(NodeV::Str(_))
    &&& kind_field_ok(lookup(fs, "kind"@))
    &&& bool_field_ok(lookup(fs, "include_feed_title"@))
    &&& timeout_field_ok(lookup(fs, "request_timeout"@))
}

/// Every feed entry of a destination key's list is well formed.
pub open spec fn group_entries_ok(entries: Seq<NodeV>) -> bool {
    forall|j: int| 0 <= j < entries.len() ==> entry_ok(#[trigger] entries[j])
}

/// A well-formed entry of the `feeds` mapping: a string destination key
/// mapped to a list of well-formed feed entries.
pub open spec fn feed_group_ok(kv: (NodeV, NodeV)) -> bool {
    &&& kv.0 matches NodeV::Str(_)
    &&& kv.1 matches NodeV::Arr(entries)
    &&& group_entries_ok(entries)
}

/// Every entry of the `feeds` mapping is well formed.
pub open spec fn feeds_ok(fs: Seq<(NodeV, NodeV)>) -> bool {
    forall|i: int| 0 <= i < fs.len() ==> feed_group_ok(#[trigger] fs[i])
}

/// The top level of a well-formed document: a string `token`, a string
/// `redis_url`, a `feeds` mapping, an optional string `proxy`, and optional
/// global `include_feed_title` and `request_timeout` defaults. Fields the
/// schema does not name are ignored.
pub open spec fn top_ok(es: Seq<(NodeV, NodeV)>) -> bool {
    &&& lookup(es, "token"@) matches Some(NodeV::Str(_))
    &&& str_field_ok(lookup(es, "proxy"@))
    &&& lookup(es, "redis_url"@) matches Some(NodeV::Str(_))
    &&& lookup(es, "feeds"@) matches Some(NodeV::Dict(_))
    &&& bool_field_ok(lookup(es, "include_feed_title"@))
    &&& timeout_field_ok(lookup(es, "request_timeout"@))
}

/// A well-formed configuration document.
pub open spec fn doc_ok(doc: NodeV) -> bool {
    &&& doc matches NodeV::Dict(es)
    &&& top_ok(es)
    &&& feeds_ok(lookup(es, "feeds"@)->Some_0->Dict_0)
}

/// The value a present boolean override resolves to, else the default.
pub open spec fn resolved_flag(v: Option<NodeV>, dflt: bool) -> bool {
    match v {
        Option::Some(NodeV::Bool(b)) => b,
        _ => dflt,
    }
}

/// The value a present timeout override resolves to, else the default.
pub open spec fn resolved_timeout(v: Option<NodeV>, dflt: u64) -> u64 {
    match v {
        Option::Some(NodeV::UInt(u)) => u,
        _ => dflt,
    }
}

/// The subscription one well-formed feed entry under the key `key` resolves
/// to, with the global defaults `g_title` and `g_timeout` filling whatever
/// the entry leaves unset.
pub open spec fn feed_of(key: Seq<char>, e: NodeV, g_title: bool, g_timeout: u64) -> FeedConfigV
    recommends
        entry_ok(e),
{
    let fs = e->Dict_0;
    FeedConfigV {
        chat_id: chat_id_of_key(key),
        url: lookup(fs, "url"@)->Some_0->Str_0,
        kind: kind_of_name(lookup(fs, "kind"@)->Some_0->Str_0),
        include_feed_title: resolved_flag(lookup(fs, "include_feed_title"@), g_title),
        request_timeout: resolved_timeout(lookup(fs, "request_timeout"@), g_timeout),
    }
}

/// The subscriptions one destination key's entry list resolves to, in list
/// order, all sharing the key's resolved destination identifier.
pub open spec fn group_of(key: Seq<char>, entries: Seq<NodeV>, g_title: bool, g_timeout: u64) -> Seq<
    FeedConfigV,
> {
    Seq::new(entries.len(), |j: int| feed_of(key, entries[j], g_title, g_timeout))
}

/// The subscriptions the whole `feeds` mapping resolves to: the mapping's
/// key order, then each key's list order.
pub open spec fn feeds_of(fs: Seq<(NodeV, NodeV)>, g_title: bool, g_timeout: u64) -> Seq<
    FeedConfigV,
>
    decreases fs.len(),
{
    if fs.len() == 0 {
        Seq::empty()
    } else {
        feeds_of(fs.drop_last(), g_title, g_timeout) + group_of(
            fs.last().0->Str_0,
            fs.last().1->Arr_0,
            g_title,
            g_timeout,
        )
    }
}

/// The resolved global `include_feed_title` default: the top level's value
/// where present, else the built-in default.
pub open spec fn global_title(es: Seq<(NodeV, NodeV)>) -> bool {
    resolved_flag(lookup(es, "include_feed_title"@), DEFAULT_INCLUDE_FEED_TITLE)
}

/// The resolved global `request_timeout` default: the top level's value
/// where present, else the built-in default.
pub open spec fn global_timeout(es: Seq<(NodeV, NodeV)>) -> u64 {
    resolved_timeout(lookup(es, "request_timeout"@), DEFAULT_REQUEST_TIMEOUT)
}

/// The configuration a well-formed document resolves to.
pub open spec fn config_of(doc: NodeV) -> ConfigV
    recommends
        doc_ok(doc),
{
    let es = doc->Dict_0;
    let g_title = global_title(es);
    let g_timeout = global_timeout(es);
    ConfigV {
        token: lookup(es, "token"@)->Some_0->Str_0,
        proxy: match lookup(es, "proxy"@) {
            Option::Some(NodeV::Str(s)) => Some(s),
            _ => None,
        },
        redis_url: lookup(es, "redis_url"@)->Some_0->Str_0,
        feeds: feeds_of(lookup(es, "feeds"@)->Some_0->Dict_0, g_title, g_timeout),
    }
}

/// What loading the bytes `data` answers: the configuration their document
/// resolves to, or nothing where they do not parse or their document is not
/// well formed.
pub open spec fn load_result(data: Seq<u8>) -> Option<ConfigV> {
    match parsed_doc(data) {
        Option::Some(doc) => if doc_ok(doc) {
            Some(config_of(doc))
        } else {
            None
        },
        Option::None => None,
    }
}

/// A schema diagnostic.
fn parse_err(msg: &str) -> (e: ConfigError)
    ensures
        e matches ConfigError::ParseYaml(_),
{
    ConfigError::ParseYaml(msg.to_owned())
}

/// Resolves one feed entry under the destination key `key`, with the global
/// defaults filling whatever the entry leaves unset.
fn build_entry(key: &String, e: &Node, g_title: bool, g_timeout: u64) -> (r: Result<
    FeedConfig,
    ConfigError,
>)
    ensures
        match r {
            Ok(f) => entry_ok(e@) && f@ == feed_of(key@, e@, g_title, g_timeout),
            Err(err) => !entry_ok(e@) && err matches ConfigError::ParseYaml(_),
        },
{
    let efs = match e {
        Node::Dict(m) => m,
        _ => {
            return Err(parse_err("a feed entry must be a mapping"));
        },
    };
    proof {
        assert(e@->Dict_0 =~= dict_view(efs));
    }
    let url = match dict_get(efs, "url") {
        Some(Node::Str(s)) => s.clone(),
        _ => {
            return Err(parse_err("a feed entry needs a string `url`"));
        },
    };
    let kind = match dict_get(efs, "kind") {
        Some(Node::Str(s)) => {
            if str_eq_lit(s, "rss") {
                FeedKind::Rss
            } else if str_eq_lit(s, "atom") {
                FeedKind::Atom
            } else {
                return Err(parse_err("unknown feed `kind`: expected `rss` or `atom`"));
            }
        },
        _ => {
            return Err(parse_err("a feed entry needs a `kind` of `rss` or `atom`"));
        },
    };
    let include_feed_title = match dict_get(efs, "include_feed_title") {
        None => g_title,
        Some(Node::Null) => g_title,
        Some(Node::Bool(b)) => *b,
        Some(_) => {
            return Err(parse_err("`include_feed_title` must be a boolean"));
        },
    };
    let request_timeout = match dict_get(efs, "request_timeout") {
        None => g_timeout,
        Some(Node::Null) => g_timeout,
        Some(Node::UInt(u)) => *u,
        Some(_) => {
            return Err(parse_err("`request_timeout` must be a number of whole seconds"));
        },
    };
    Ok(
        FeedConfig {
            chat_id: chat_id_of(key),
            url,
            kind,
            include_feed_title,
            request_timeout,
        },
    )
}

/// Resolves a parsed document into a configuration, or answers the schema
/// rule it breaks.
fn build_config(doc: &Node) -> (r: Result<Config, ConfigError>)
    ensures
        match r {
            Ok(c) => doc_ok(doc@) && c@ == config_of(doc@),
            Err(e) => !doc_ok(doc@) && e matches ConfigError::ParseYaml(_),
        },
{
    let pairs = match doc {
        Node::Dict(m) => m,
        _ => {
            return Err(parse_err("the configuration must be a mapping"));
        },
    };
    let ghost es = dict_view(pairs);
    proof {
        assert(doc@->Dict_0 =~= es);
    }
    let token = match dict_get(pairs, "token") {
        Some(Node::Str(s)) => s.clone(),
        _ => {
            return Err(parse_err("the configuration needs a string `token`"));
        },
    };
    let proxy = match dict_get(pairs, "proxy") {
        None => None,
        Some(Node::Null) => None,
        Some(Node::Str(s)) => Some(s.clone()),
        Some(_) => {
            return Err(parse_err("`proxy` must be a string"));
        },
    };
    let redis_url = match dict_get(pairs, "redis_url") {
        Some(Node::Str(s)) => s.clone(),
        _ => {
            return Err(parse_err("the configuration needs a string `redis_url`"));
        },
    };
    let g_title = match dict_get(pairs, "include_feed_title") {
        None => DEFAULT_INCLUDE_FEED_TITLE,
        Some(Node::Null) => DEFAULT_INCLUDE_FEED_TITLE,
        Some(Node::Bool(b)) => *b,
        Some(_) => {
            return Err(parse_err("`include_feed_title` must be a boolean"));
        },
    };
    let g_timeout = match dict_get(pairs, "request_timeout") {
        None => DEFAULT_REQUEST_TIMEOUT,
        Some(Node::Null) => DEFAULT_REQUEST_TIMEOUT,
        Some(Node::UInt(u)) => *u,
        Some(_) => {
            return Err(parse_err("`request_timeout` must be a number of whole seconds"));
        },
    };
    let feeds_node = match dict_get(pairs, "feeds") {
        Some(n) => n,
        None => {
            return Err(parse_err("the configuration needs a `feeds` mapping"));
        },
    };
    let fpairs = match feeds_node {
        Node::Dict(m) => m,
        _ => {
            return Err(parse_err("`feeds` must be a mapping of destination to feed list"));
        },
    };
    let ghost fsv = dict_view(fpairs);
    proof {
        assert(feeds_node@->Dict_0 =~= fsv);
        assert(lookup(es, "feeds"@) == Some(NodeV::Dict(fsv)));
        assert(top_ok(es));
    }
    let mut feeds: Vec<FeedConfig> = Vec::new();
    proof {
        assert(feeds_view(&feeds) =~= feeds_of(fsv.take(0), g_title, g_timeout));
    }
    let mut i: usize = 0;
    while i < fpairs.len()
        invariant
            0 <= i <= fpairs.len(),
            es == dict_view(pairs),
            doc@ == NodeV::Dict(es),
            top_ok(es),
            fsv == dict_view(fpairs),
            lookup(es, "feeds"@) == Some(NodeV::Dict(fsv)),
            g_title == resolved_flag(
                lookup(es, "include_feed_title"@),
                DEFAULT_INCLUDE_FEED_TITLE,
            ),
            g_timeout == resolved_timeout(
                lookup(es, "request_timeout"@),
                DEFAULT_REQUEST_TIMEOUT,
            ),
            forall|k: int| 0 <= k < i ==> feed_group_ok(#[trigger] fsv[k]),
            feeds_view(&feeds) == feeds_of(fsv.take(i as int), g_title, g_timeout),
        decreases fpairs.len() - i,
    {
        let key = match &fpairs[i].0 {
            Node::Str(s) => s,
            _ => {
                return Err(parse_err("a destination key must be a string"));
            },
        };
        let entries = match &fpairs[i].1 {
            Node::Arr(v) => v,
            _ => {
                return Err(parse_err("a destination key must map to a list of feed entries"));
            },
        };
        let ghost entsv = arr_view(entries);
        proof {
            assert(fsv[i as int].0 == NodeV::Str(key@));
            assert(fsv[i as int].1->Arr_0 =~= entsv);
            assert(fsv[i as int].1 == NodeV::Arr(entsv));
        }
        let mut j: usize = 0;
        while j < entries.len()
            invariant
                0 <= j <= entries.len(),
                0 <= i < fpairs.len(),
                es == dict_view(pairs),
                doc@ == NodeV::Dict(es),
                top_ok(es),
                fsv == dict_view(fpairs),
                lookup(es, "feeds"@) == Some(NodeV::Dict(fsv)),
                g_title == resolved_flag(
                    lookup(es, "include_feed_title"@),
                    DEFAULT_INCLUDE_FEED_TITLE,
                ),
                g_timeout == resolved_timeout(
                    lookup(es, "request_timeout"@),
                    DEFAULT_REQUEST_TIMEOUT,
                ),
                forall|k: int| 0 <= k < i ==> feed_group_ok(#[trigger] fsv[k]),
                fsv[i as int].0 == NodeV::Str(key@),
                fsv[i as int].1 == NodeV::Arr(entsv),
                entsv == arr_view(entries),
                forall|k: int| 0 <= k < j ==> entry_ok(#[trigger] entsv[k]),
                feeds_view(&feeds) == feeds_of(fsv.take(i as int), g_title, g_timeout)
                    + group_of(key@, entsv, g_title, g_timeout).take(j as int),
            decreases entries.len() - j,
        {
            let entry = &entries[j];
            proof {
                assert(entry@ == entsv[j as int]);
            }
            let f = match build_entry(key, entry, g_title, g_timeout) {
                Ok(f) => f,
                Err(err) => {
                    proof {
                        assert(!entry_ok(entsv[j as int]));
                        if feed_group_ok(fsv[i as int]) {
                            assert(group_entries_ok(entsv));
                            assert(entry_ok(entsv[j as int]));
                        }
                        assert(!feed_group_ok(fsv[i as int]));
                        assert(!doc_ok(doc@));
                    }
                    return Err(err);
                },
            };
            let ghost before = feeds_view(&feeds);
            feeds.push(f);
            proof {
                let g = group_of(key@, entsv, g_title, g_timeout);
                assert(feeds_view(&feeds) =~= before.push(f@));
                assert(g[j as int] == f@);
                assert(g.take(j as int + 1) =~= g.take(j as int).push(g[j as int]));
                assert(feeds_of(fsv.take(i as int), g_title, g_timeout) + g.take(j as int + 1)
                    =~= before.push(f@));
            }
            j = j + 1;
        }
        proof {
            let g = group_of(key@, entsv, g_title, g_timeout);
            assert(g.take(entsv.len() as int) =~= g);
            assert(feed_group_ok(fsv[i as int]));
            assert(fsv.take(i as int + 1).drop_last() =~= fsv.take(i as int));
            assert(fsv.take(i as int + 1).last() == fsv[i as int]);
            assert(feeds_of(fsv.take(i as int + 1), g_title, g_timeout) == feeds_of(
                fsv.take(i as int),
                g_title,
                g_timeout,
            ) + g);
        }
        i = i + 1;
    }
    proof {
        assert(fsv.take(fpairs@.len() as int) =~= fsv);
        assert(feeds_ok(fsv));
        assert(doc_ok(doc@));
    }
    let c = Config { token, proxy, redis_url, feeds };
    proof {
        assert(c@.feeds == config_of(doc@).feeds);
        assert(c@ == config_of(doc@));
    }
    Ok(c)
}

impl Config {
    /// Loads the configuration a file's bytes describe: exactly the value
    /// `load_result` names for those bytes, or the diagnostic of the parse
    /// or schema rule that failed. The same bytes always answer the same.
    pub fn from_slice(data: &[u8]) -> (r: Result<Config, ConfigError>)
        ensures
            match r {
                Ok(c) => load_result(data@) == Some(c@),
                Err(e) => load_result(data@) is None && e matches ConfigError::ParseYaml(_),
            },
    {
        match parse_doc(data) {
            Ok(doc) => build_config(&doc),
            Err(msg) => Err(ConfigError::ParseYaml(msg)),
        }
    }

    /// The datastore connection string.
    pub fn redis_url(&self) -> (r: &str)
        ensures
            r@ == self@.redis_url,
    {
        self.redis_url.as_str()
    }

    /// Hands the resolved feed subscriptions out, consuming the
    /// configuration: the one-shot transfer to the polling subsystem.
    pub fn into_feeds(self) -> (r: Vec<FeedConfig>)
        ensures
            feeds_view(&r) == self@.feeds,
    {
        self.feeds
    }

    /// Derives the outbound-client settings: the credential token is carried
    /// over, and a configured proxy address is validated and attached. A
    /// configuration without a proxy always derives; one with a malformed
    /// proxy address answers the validator's diagnostic.
    pub fn get_api_config(&self) -> (r: Result<ApiConfig, ConfigError>)
        ensures
            match self@.proxy {
                Option::Some(p) => if valid_proxy(p) {
                    r matches Ok(a) && a@ == (ApiConfigV { token: self@.token, proxy: Some(p) })
                } else {
                    r matches Err(ConfigError::ProxyAddress(_))
                },
                Option::None => r matches Ok(a) && a@ == (ApiConfigV {
                    token: self@.token,
                    proxy: None,
                }),
            },
    {
        match &self.proxy {
            Some(p) => {
                if validate_proxy(p.as_str()) {
                    Ok(ApiConfig { token: self.token.clone(), proxy: Some(p.clone()) })
                } else {
                    Err(
                        ConfigError::ProxyAddress(
                            "the proxy address must read scheme://address, with scheme http, https or socks5".to_owned(),
                        ),
                    )
                }
            },
            None => Ok(ApiConfig { token: self.token.clone(), proxy: None }),
        }
    }
}

} // verus!
