//! The outbound-client settings derived from a loaded configuration, and the
//! syntactic validation of a configured proxy address.
use vstd::prelude::*;

verus! {

/// The settings the outbound-messaging client is built from: the credential
/// token and, where one is configured, the validated proxy address.
#[derive(Clone, Debug, PartialEq)]
pub struct ApiConfig {
    pub token: String,
    pub proxy: Option<String>,
}

/// The mathematical shape of an `ApiConfig`.
pub struct ApiConfigV {
    pub token: Seq<char>,
    pub proxy: Option<Seq<char>>,
}

impl View for ApiConfig {
    type V = ApiConfigV;

    open spec fn view(&self) -> ApiConfigV {
        ApiConfigV {
            token: self.token@,
            proxy: match self.proxy {
                Option::Some(p) => Some(p@),
                Option::None => None,
            },
        }
    }
}

/// `p` is a prefix of `s`.
pub open spec fn has_prefix(s: Seq<char>, p: Seq<char>) -> bool {
    p.len() <= s.len() && s.subrange(0, p.len() as int) == p
}

/// `s` starts with the address scheme `scheme` and names something after
/// it.
pub open spec fn proxy_with_scheme(s: Seq<char>, scheme: Seq<char>) -> bool {
    has_prefix(s, scheme) && s.len() > scheme.len()
}

/// A well-formed proxy address: a scheme the outbound client can reach a
/// proxy through, the `://` separator, and a non-empty remainder.
pub open spec fn valid_proxy(s: Seq<char>) -> bool {
    ||| proxy_with_scheme(s, "http://"@)
    ||| proxy_with_scheme(s, "https://"@)
    ||| proxy_with_scheme(s, "socks5://"@)
}

/// Tells whether `p` is a prefix of `s`.
fn starts_with_lit(s: &str, p: &str) -> (b: bool)
    ensures
        b == has_prefix(s@, p@),
{
    let n = s.unicode_len();
    let m = p.unicode_len();
    if m > n {
        return false;
    }
    let mut i: usize = 0;
    while i < m
        invariant
            0 <= i <= m,
            m == p@.len(),
            n == s@.len(),
            m <= n,
            forall|k: int| 0 <= k < i ==> s@[k] == p@[k],
        decreases m - i,
    {
        if s.get_char(i) != p.get_char(i) {
            proof {
                assert(s@.subrange(0, m as int)[i as int] != p@[i as int]);
            }
            return false;
        }
        i = i + 1;
    }
    proof {
        assert(s@.subrange(0, m as int) =~= p@);
    }
    true
}

/// Tells whether `s` is a well-formed proxy address.
pub fn validate_proxy(s: &str) -> (b: bool)
    ensures
        b == valid_proxy(s@),
{
    proof {
        reveal_strlit("http://");
        reveal_strlit("https://");
        reveal_strlit("socks5://");
    }
    let n = s.unicode_len();
    if starts_with_lit(s, "http://") && n > 7 {
        return true;
    }
    if starts_with_lit(s, "https://") && n > 8 {
        return true;
    }
    if starts_with_lit(s, "socks5://") && n > 9 {
        return true;
    }
    false
}

} // verus!
