//! The stated properties of loading and derivation, proved once and for all
//! inputs they speak of.
use vstd::prelude::*;

use crate::config::{chat_id_of_key, config_of, doc_ok, entry_ok, feed_group_ok, feed_of,
    global_timeout, global_title, group_entries_ok, group_of, kind_field_ok, load_result, ConfigV,
    FeedConfigV};
use crate::node::{lookup, NodeV};

verus! {

/// The top level of a minimal configuration: a string `token`, a string
/// `redis_url`, and an empty `feeds` mapping.
pub open spec fn minimal_doc(token: Seq<char>, redis: Seq<char>) -> NodeV {
    NodeV::Dict(
        seq![
            (NodeV::Str("token"@), NodeV::Str(token)),
            (NodeV::Str("redis_url"@), NodeV::Str(redis)),
            (NodeV::Str("feeds"@), NodeV::Dict(Seq::empty())),
        ],
    )
}

/// A minimal configuration file — any `token`, any `redis_url`, an empty
/// `feeds` mapping and nothing else — always loads, into a configuration
/// with those two strings, no proxy, and an empty feed sequence.
pub proof fn lemma_minimal_doc_loads(token: Seq<char>, redis: Seq<char>)
    ensures
        doc_ok(minimal_doc(token, redis)),
        config_of(minimal_doc(token, redis)).token == token,
        config_of(minimal_doc(token, redis)).redis_url == redis,
        config_of(minimal_doc(token, redis)).proxy is None,
        config_of(minimal_doc(token, redis)).feeds =~= Seq::<FeedConfigV>::empty(),
{
    reveal_with_fuel(lookup, 5);
    reveal_strlit("token");
    reveal_strlit("redis_url");
    reveal_strlit("feeds");
    reveal_strlit("proxy");
    reveal_strlit("include_feed_title");
    reveal_strlit("request_timeout");
    let es = minimal_doc(token, redis)->Dict_0;
    assert("token"@.len() == 5);
    assert("redis_url"@.len() == 9);
    assert("feeds"@.len() == 5);
    assert("proxy"@.len() == 5);
    assert("include_feed_title"@.len() == 18);
    assert("request_timeout"@.len() == 15);
    assert("token"@[0] == 't' && "feeds"@[0] == 'f' && "proxy"@[0] == 'p');
    assert("token"@ != "feeds"@ && "token"@ != "proxy"@ && "feeds"@ != "proxy"@);
    assert(es[0].0 == NodeV::Str("token"@));
    assert(lookup(es, "token"@) == Some(NodeV::Str(token)));
    assert(lookup(es, "redis_url"@) == Some(NodeV::Str(redis))) by {
        assert(es.drop_first()[0] == es[1]);
    }
    assert(lookup(es, "feeds"@) == Some(NodeV::Dict(Seq::empty()))) by {
        assert(es.drop_first()[0] == es[1]);
        assert(es.drop_first().drop_first()[0] == es[2]);
    }
    assert(lookup(es, "proxy"@) is None) by {
        assert(es.drop_first()[0] == es[1]);
        assert(es.drop_first().drop_first()[0] == es[2]);
        assert(es.drop_first().drop_first().drop_first().len() == 0);
    }
    assert(lookup(es, "include_feed_title"@) is None) by {
        assert(es.drop_first()[0] == es[1]);
        assert(es.drop_first().drop_first()[0] == es[2]);
        assert(es.drop_first().drop_first().drop_first().len() == 0);
    }
    assert(lookup(es, "request_timeout"@) is None) by {
        assert(es.drop_first()[0] == es[1]);
        assert(es.drop_first().drop_first()[0] == es[2]);
        assert(es.drop_first().drop_first().drop_first().len() == 0);
    }
}

/// Every subscription resolved from one destination key's entry list
/// carries the same destination identifier: resolution is keyed on the key
/// text alone, so entries sharing a key share an identifier.
pub proof fn lemma_same_key_same_destination(
    key: Seq<char>,
    entries: Seq<NodeV>,
    g_title: bool,
    g_timeout: u64,
    a: int,
    b: int,
)
    requires
        0 <= a < entries.len(),
        0 <= b < entries.len(),
    ensures
        group_of(key, entries, g_title, g_timeout)[a].chat_id == group_of(
            key,
            entries,
            g_title,
            g_timeout,
        )[b].chat_id,
        group_of(key, entries, g_title, g_timeout)[a].chat_id == chat_id_of_key(key),
{
}

/// A feed entry that leaves `include_feed_title` unset (or null) inherits
/// the resolved global value; one that sets it overrides whatever the
/// global value is.
pub proof fn lemma_include_feed_title_layering(
    key: Seq<char>,
    e: NodeV,
    g_title: bool,
    g_timeout: u64,
    b: bool,
)
    ensures
        lookup(e->Dict_0, "include_feed_title"@) is None ==> feed_of(
            key,
            e,
            g_title,
            g_timeout,
        ).include_feed_title == g_title,
        lookup(e->Dict_0, "include_feed_title"@) == Some(NodeV::Null) ==> feed_of(
            key,
            e,
            g_title,
            g_timeout,
        ).include_feed_title == g_title,
        lookup(e->Dict_0, "include_feed_title"@) == Some(NodeV::Bool(b)) ==> feed_of(
            key,
            e,
            g_title,
            g_timeout,
        ).include_feed_title == b,
{
}

/// A feed entry without its own `request_timeout` resolves to the global
/// value, which is the top level's `request_timeout` where present and the
/// built-in 1200 seconds where not; an entry with its own value overrides
/// the global one.
pub proof fn lemma_request_timeout_layering(
    key: Seq<char>,
    e: NodeV,
    es: Seq<(NodeV, NodeV)>,
    v: u64,
    u: u64,
)
    ensures
        lookup(es, "request_timeout"@) == Some(NodeV::UInt(v)) ==> global_timeout(es) == v,
        lookup(es, "request_timeout"@) is None ==> global_timeout(es) == 1200,
        lookup(e->Dict_0, "request_timeout"@) is None ==> feed_of(
            key,
            e,
            global_title(es),
            global_timeout(es),
        ).request_timeout == global_timeout(es),
        lookup(e->Dict_0, "request_timeout"@) == Some(NodeV::UInt(u)) ==> feed_of(
            key,
            e,
            global_title(es),
            global_timeout(es),
        ).request_timeout == u,
{
}

/// A document one of whose feed entries names an unknown `kind` is not well
/// formed, and bytes parsing to it load no configuration.
pub proof fn lemma_unknown_kind_rejected(
    data: Seq<u8>,
    doc: NodeV,
    fs: Seq<(NodeV, NodeV)>,
    entries: Seq<NodeV>,
    efs: Seq<(NodeV, NodeV)>,
    i: int,
    j: int,
)
    requires
        doc matches NodeV::Dict(_),
        lookup(doc->Dict_0, "feeds"@) == Some(NodeV::Dict(fs)),
        0 <= i < fs.len(),
        fs[i].1 == NodeV::Arr(entries),
        0 <= j < entries.len(),
        entries[j] == NodeV::Dict(efs),
        !kind_field_ok(lookup(efs, "kind"@)),
    ensures
        !doc_ok(doc),
        crate::node::parsed_doc(data) == Some(doc) ==> load_result(data) is None,
{
    if doc_ok(doc) {
        assert(feed_group_ok(fs[i]));
        assert(group_entries_ok(entries));
        assert(entry_ok(entries[j]));
    }
}

/// Loading the same bytes twice answers the same configuration, field for
/// field: what a load answers is a function of the file's bytes alone.
pub proof fn lemma_load_idempotent(data: Seq<u8>, c1: ConfigV, c2: ConfigV)
    requires
        load_result(data) == Some(c1),
        load_result(data) == Some(c2),
    ensures
        c1 == c2,
{
}

} // verus!
