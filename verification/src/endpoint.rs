//! The addresses of a session: the page a host announces and the live
//! endpoint a viewer derives from it.

use crate::text::{
    lemma_replaced_at_start, lemma_replaced_copies_head, lemma_replaced_without_match, occurs_at,
    replace_all, replaced,
};
use vstd::prelude::*;
use vstd::string::*;

verus! {

/// Where the host listens.
pub const LISTEN_ADDRESS: &'static str = "0.0.0.0:3000";

/// The host name to announce where the machine's own address is unknown.
pub const FALLBACK_HOST: &'static str = "localhost";

/// The address of a session's page: `http://{host}:3000/share/{identifier}`.
pub open spec fn share_url_text(host: Seq<char>, identifier: Seq<char>) -> Seq<char> {
    "http://"@ + host + ":3000/share/"@ + identifier
}

/// The live endpoint that belongs to a page address: every `/share/` turned
/// into `/ws/`, then every `https://` into `wss://` and every `http://` into
/// `ws://`.
pub open spec fn live_endpoint_text(url: Seq<char>) -> Seq<char> {
    replaced(
        replaced(replaced(url, "/share/"@, "/ws/"@), "https://"@, "wss://"@),
        "http://"@,
        "ws://"@,
    )
}

/// The live endpoint of a session as seen from `host`:
/// `ws://{host}:3000/ws/{identifier}`.
pub open spec fn live_url_text(host: Seq<char>, identifier: Seq<char>) -> Seq<char> {
    "ws://"@ + host + ":3000/ws/"@ + identifier
}

/// The scheme of a page address, plain or secure.
pub open spec fn page_scheme(secure: bool) -> Seq<char> {
    if secure {
        "https://"@
    } else {
        "http://"@
    }
}

/// The scheme of a live endpoint, plain or secure.
pub open spec fn live_scheme(secure: bool) -> Seq<char> {
    if secure {
        "wss://"@
    } else {
        "ws://"@
    }
}

/// No character of `text` is a slash.
pub open spec fn slash_free(text: Seq<char>) -> bool {
    forall|i: int| 0 <= i < text.len() ==> text[i] != '/'
}

/// The host name to announce: the machine's own address where it is known,
/// [`FALLBACK_HOST`] where it is not.
pub fn announced_host(local_address: Option<String>) -> (host: String)
    ensures
        host@ == match local_address {
            Some(address) => address@,
            None => FALLBACK_HOST@,
        },
{
    match local_address {
        Some(address) => address,
        None => FALLBACK_HOST.to_owned(),
    }
}

/// Builds the address of a session's page as seen from `host`.
pub fn share_url(host: &str, identifier: &str) -> (url: String)
    ensures
        url@ == share_url_text(host@, identifier@),
{
    let mut url = "http://".to_owned();
    url.append(host);
    url.append(":3000/share/");
    url.append(identifier);
    url
}

/// Derives the live endpoint from the address of a session's page. This
/// only rewrites text; nothing is looked up or contacted.
pub fn live_endpoint(url: &str) -> (endpoint: String)
    ensures
        endpoint@ == live_endpoint_text(url@),
{
    let path_done = replace_all(url, "/share/", "/ws/");
    let secure_done = replace_all(path_done.as_str(), "https://", "wss://");
    replace_all(secure_done.as_str(), "http://", "ws://")
}

/// From position `start` on, no slash in `text` is followed by another.
spec fn single_slashes_from(text: Seq<char>, start: int) -> bool {
    forall|j: int|
        start <= j && j + 1 < text.len() ==> !(text[j] == '/' && #[trigger] text[j + 1] == '/')
}

/// A pattern does not occur where one of its characters differs.
proof fn lemma_differs(text: Seq<char>, from: Seq<char>, at: int, k: int)
    requires
        0 <= k < from.len(),
        0 <= at && at + from.len() <= text.len() ==> text[at + k] != from[k],
    ensures
        !occurs_at(text, from, at),
{
    if occurs_at(text, from, at) {
        assert(text.subrange(at, at + from.len())[k] == text[at + k]);
    }
}

/// A pattern with two slashes in a row at `k` occurs nowhere in a text that
/// has none in a row from `k` on.
proof fn lemma_needs_double_slash(text: Seq<char>, from: Seq<char>, k: int)
    requires
        0 <= k && k + 1 < from.len(),
        from[k] == '/',
        from[k + 1] == '/',
        single_slashes_from(text, k),
    ensures
        forall|at: int| !occurs_at(text, from, at),
{
    assert forall|at: int| !occurs_at(text, from, at) by {
        if 0 <= at && at + from.len() <= text.len() {
            assert(!(text[at + k] == '/' && text[at + k + 1] == '/'));
            if text[at + k] != '/' {
                lemma_differs(text, from, at, k);
            } else {
                lemma_differs(text, from, at, k + 1);
            }
        }
    }
}

/// What stands behind the scheme of a live endpoint has no two slashes in a
/// row.
proof fn lemma_single_slashes_behind_scheme(authority: Seq<char>, identifier: Seq<char>)
    requires
        slash_free(authority),
        slash_free(identifier),
    ensures
        single_slashes_from(authority + "/ws/"@ + identifier, 0),
{
    reveal_strlit("/ws/");
    let ws = "/ws/"@;
    assert(ws.len() == 4);
    let rest = authority + ws + identifier;
    assert forall|j: int| 0 <= j && j + 1 < rest.len() implies !(rest[j] == '/'
        && #[trigger] rest[j + 1] == '/') by {
        if j < authority.len() {
            assert(rest[j] == authority[j]);
        } else if j < authority.len() + 4 {
            assert(rest[j] == ws[j - authority.len()]);
            if j + 1 < authority.len() + 4 {
                assert(rest[j + 1] == ws[j + 1 - authority.len()]);
            } else {
                assert(rest[j + 1] == identifier[0]);
            }
        } else {
            assert(rest[j] == identifier[j - authority.len() - 4]);
        }
    }
}

/// The path of a page address is rewritten in place, and nothing else is.
proof fn lemma_path_is_rewritten(secure: bool, authority: Seq<char>, identifier: Seq<char>)
    requires
        slash_free(authority),
        slash_free(identifier),
        authority != "share"@,
    ensures
        replaced(
            page_scheme(secure) + authority + "/share/"@ + identifier,
            "/share/"@,
            "/ws/"@,
        ) == page_scheme(secure) + authority + "/ws/"@ + identifier,
{
    reveal_strlit("http://");
    reveal_strlit("https://");
    reveal_strlit("/share/");
    reveal_strlit("/ws/");
    reveal_strlit("share");
    let scheme = page_scheme(secure);
    let share = "/share/"@;
    let ws = "/ws/"@;
    let width = scheme.len() as int;
    assert(width == if secure {
        8int
    } else {
        7int
    });
    assert(share.len() == 7 && ws.len() == 4 && "share"@.len() == 5);
    let head = scheme + authority;
    let url = scheme + authority + share + identifier;
    assert(url =~= head + (share + identifier));

    assert forall|at: int| 0 <= at < head.len() implies !occurs_at(url, share, at) by {
        if at + share.len() <= url.len() {
            if at == width - 2 {
                assert(url[at + 1] == scheme[at + 1]);
                lemma_differs(url, share, at, 1);
            } else if at == width - 1 {
                // Right behind the scheme the path could only stand if the
                // authority itself read `share`.
                if authority.len() != 5 {
                    assert(url[at + 6] != '/') by {
                        if 5 < authority.len() {
                            assert(url[at + 6] == authority[5]);
                        } else if authority.len() + 7 <= 5 {
                        } else {
                            assert(url[at + 6] == share[5 - authority.len()]);
                        }
                    }
                    lemma_differs(url, share, at, 6);
                } else {
                    assert(!(authority =~= "share"@));
                    let k = choose|k: int| 0 <= k < 5 && authority[k] != "share"@[k];
                    assert(url[at + 1 + k] == authority[k]);
                    assert(share[1 + k] == "share"@[k]);
                    lemma_differs(url, share, at, 1 + k);
                }
            } else {
                assert(url[at] != '/') by {
                    if at < width {
                        assert(url[at] == scheme[at]);
                    } else {
                        assert(url[at] == authority[at - width]);
                    }
                }
                lemma_differs(url, share, at, 0);
            }
        }
    }
    lemma_replaced_copies_head(head, share + identifier, share, ws);
    lemma_replaced_at_start(identifier, share, ws);
    assert forall|at: int| !occurs_at(identifier, share, at) by {
        lemma_differs(identifier, share, at, 0);
    }
    lemma_replaced_without_match(identifier, share, ws);
    assert(head + (ws + identifier) =~= scheme + authority + ws + identifier);
}

/// A page address leads to the live endpoint of the same authority and the
/// same session, and a secure address to a secure endpoint:
/// `http://{authority}/share/{identifier}` becomes
/// `ws://{authority}/ws/{identifier}`, and `https` becomes `wss`.
///
/// This holds for every authority that is not empty and every identifier,
/// as long as neither holds a slash, but for the one authority that reads
/// `share`: behind the scheme it is taken for the path.
pub proof fn lemma_page_address_leads_to_live_endpoint(
    secure: bool,
    authority: Seq<char>,
    identifier: Seq<char>,
)
    requires
        authority.len() > 0,
        slash_free(authority),
        slash_free(identifier),
        authority != "share"@,
    ensures
        live_endpoint_text(page_scheme(secure) + authority + "/share/"@ + identifier)
            == live_scheme(secure) + authority + "/ws/"@ + identifier,
{
    reveal_strlit("http://");
    reveal_strlit("https://");
    reveal_strlit("ws://");
    reveal_strlit("wss://");
    let plain = "http://"@;
    let rest = authority + "/ws/"@ + identifier;
    lemma_path_is_rewritten(secure, authority, identifier);
    lemma_single_slashes_behind_scheme(authority, identifier);
    let path_done = page_scheme(secure) + rest;
    assert(path_done =~= page_scheme(secure) + authority + "/ws/"@ + identifier);
    if secure {
        lemma_replaced_at_start(rest, "https://"@, "wss://"@);
        lemma_needs_double_slash(rest, "https://"@, 6);
        lemma_replaced_without_match(rest, "https://"@, "wss://"@);
        let secure_done = "wss://"@ + rest;
        assert(single_slashes_from(secure_done, 5)) by {
            assert forall|j: int| 5 <= j && j + 1 < secure_done.len() implies !(secure_done[j]
                == '/' && #[trigger] secure_done[j + 1] == '/') by {
                assert(secure_done[j + 1] == rest[j + 1 - 6]);
                if j > 5 {
                    assert(secure_done[j] == rest[j - 6]);
                    assert(!(rest[j - 6] == '/' && rest[j - 6 + 1] == '/'));
                } else {
                    assert(rest[0] == authority[0]);
                }
            }
        }
        lemma_needs_double_slash(secure_done, plain, 5);
        lemma_replaced_without_match(secure_done, plain, "ws://"@);
        assert(secure_done =~= live_scheme(secure) + authority + "/ws/"@ + identifier);
    } else {
        assert(single_slashes_from(path_done, 6)) by {
            assert forall|j: int| 6 <= j && j + 1 < path_done.len() implies !(path_done[j] == '/'
                && #[trigger] path_done[j + 1] == '/') by {
                assert(path_done[j + 1] == rest[j + 1 - 7]);
                if j > 6 {
                    assert(path_done[j] == rest[j - 7]);
                    assert(!(rest[j - 7] == '/' && rest[j - 7 + 1] == '/'));
                } else {
                    assert(rest[0] == authority[0]);
                }
            }
        }
        lemma_needs_double_slash(path_done, "https://"@, 6);
        lemma_replaced_without_match(path_done, "https://"@, "wss://"@);
        lemma_replaced_at_start(rest, plain, "ws://"@);
        lemma_needs_double_slash(rest, plain, 5);
        lemma_replaced_without_match(rest, plain, "ws://"@);
        assert("ws://"@ + rest =~= live_scheme(secure) + authority + "/ws/"@ + identifier);
    }
}

/// The address that a host announces leads a viewer to the live endpoint of
/// the same host and the same session, whatever the host name and the
/// identifier are, as long as neither holds a slash.
pub proof fn lemma_announced_address_leads_to_live_endpoint(
    host: Seq<char>,
    identifier: Seq<char>,
)
    requires
        slash_free(host),
        slash_free(identifier),
    ensures
        live_endpoint_text(share_url_text(host, identifier)) == live_url_text(host, identifier),
{
    reveal_strlit(":3000");
    reveal_strlit("share");
    reveal_strlit("/share/");
    reveal_strlit("/ws/");
    reveal_strlit(":3000/share/");
    reveal_strlit(":3000/ws/");
    let service = ":3000"@;
    let authority = host + service;
    assert(service.len() == 5 && "share"@.len() == 5);
    assert(":3000/share/"@ =~= service + "/share/"@);
    assert(":3000/ws/"@ =~= service + "/ws/"@);
    assert(slash_free(authority)) by {
        assert forall|i: int| 0 <= i < authority.len() implies authority[i] != '/' by {
            if i < host.len() {
                assert(authority[i] == host[i]);
            } else {
                assert(authority[i] == service[i - host.len()]);
            }
        }
    }
    assert(authority != "share"@) by {
        if authority.len() == 5 {
            assert(authority[4] == service[4 - host.len()]);
        }
    }
    lemma_page_address_leads_to_live_endpoint(false, authority, identifier);
    assert(share_url_text(host, identifier) =~= page_scheme(false) + authority + "/share/"@
        + identifier);
    assert(live_url_text(host, identifier) =~= live_scheme(false) + authority + "/ws/"@
        + identifier);
}

} // verus!
