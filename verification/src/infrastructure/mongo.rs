use vstd::prelude::*;

use crate::infrastructure::config::Config;
use vstd::utf8::encode_utf8;

use crate::text::{decimal, lemma_decimal_parses_back, push_decimal, unsigned_value};

verus! {

/// The connection string `{prefix}://{host}:{port}/{db}` of a configuration.
pub open spec fn uri_text(cfg: Config) -> Seq<char> {
    cfg.mongo_url_prefix@ + "://"@ + cfg.mongo_host@ + ":"@ + decimal(cfg.mongo_port as nat) + "/"@
        + cfg.mongo_db@
}

/// The connection string of the database that `cfg` names.
pub fn connection_uri(cfg: &Config) -> (uri: String)
    ensures
        uri@ == uri_text(*cfg),
{
    let mut uri = cfg.mongo_url_prefix.clone();
    uri.append("://");
    uri.append(cfg.mongo_host.as_str());
    uri.append(":");
    push_decimal(&mut uri, cfg.mongo_port as u64);
    uri.append("/");
    uri.append(cfg.mongo_db.as_str());
    assert(uri@ =~= uri_text(*cfg));
    uri
}

/// Seconds in a day.
pub const SECONDS_PER_DAY: u64 = 86_400;

/// How long, in seconds, a document lives under a retention of `ttl_days`.
pub fn ttl_seconds(ttl_days: u64) -> (secs: u64)
    requires
        ttl_days * SECONDS_PER_DAY <= u64::MAX,
    ensures
        secs == ttl_days * SECONDS_PER_DAY,
{
    ttl_days * SECONDS_PER_DAY
}

/// The configured port is what the connection string names: the text between
/// the `:` after the host and the `/` before the database reads back, as a
/// u16, as `mongo_port`.
pub proof fn lemma_uri_carries_port(cfg: Config)
    ensures
        exists|t: Seq<char>|
            {
                &&& uri_text(cfg) == cfg.mongo_url_prefix@ + "://"@ + cfg.mongo_host@ + ":"@ + t
                    + "/"@ + cfg.mongo_db@
                &&& unsigned_value(encode_utf8(t), u16::MAX as int) == Some(cfg.mongo_port as u64)
            },
{
    let t = decimal(cfg.mongo_port as nat);
    lemma_decimal_parses_back(cfg.mongo_port as u64, u16::MAX as u64);
    assert(uri_text(cfg) == cfg.mongo_url_prefix@ + "://"@ + cfg.mongo_host@ + ":"@ + t + "/"@
        + cfg.mongo_db@);
}

/// Two configurations that differ only in the port give different
/// connection strings.
pub proof fn lemma_uri_tells_ports_apart(c1: Config, c2: Config)
    requires
        c1.mongo_url_prefix@ == c2.mongo_url_prefix@,
        c1.mongo_host@ == c2.mongo_host@,
        c1.mongo_db@ == c2.mongo_db@,
        c1.mongo_port != c2.mongo_port,
    ensures
        uri_text(c1) != uri_text(c2),
{
    let head = c1.mongo_url_prefix@ + "://"@ + c1.mongo_host@ + ":"@;
    let tail = "/"@ + c1.mongo_db@;
    let d1 = decimal(c1.mongo_port as nat);
    let d2 = decimal(c2.mongo_port as nat);
    assert(uri_text(c1) =~= head + d1 + tail);
    assert(uri_text(c2) =~= head + d2 + tail);
    lemma_decimal_parses_back(c1.mongo_port as u64, u16::MAX as u64);
    lemma_decimal_parses_back(c2.mongo_port as u64, u16::MAX as u64);
    if uri_text(c1) == uri_text(c2) {
        let u = uri_text(c1);
        assert(u.len() == head.len() + d1.len() + tail.len());
        assert(u.len() == head.len() + d2.len() + tail.len());
        assert(d1 =~= u.subrange(head.len() as int, (head.len() + d1.len()) as int));
        assert(d2 =~= uri_text(c2).subrange(head.len() as int, (head.len() + d2.len()) as int));
        assert(d1 == d2);
    }
}

} // verus!
