use vstd::prelude::*;
use crate::conf_text::{has_prefix, starts_with, str_equal, trim_bounds, trimmed};

verus! {

/// Line prefix that names the agent in an installer's `.conf` file.
pub const AGENT_ID_PREFIX: &'static str = "AgentID=";

/// Path of the agent registration endpoint under the API server.
pub const REGISTRATION_PATH: &'static str = "api/assignment";

/// How many times registration is tried.
pub const REGISTRATION_ATTEMPTS: u32 = 3;

/// Pause between two registration attempts, in seconds.
pub const REGISTRATION_RETRY_DELAY_SECS: u64 = 5;

/// The agent id a trimmed line gives: what follows `AgentID=`, trimmed, if
/// anything.
pub open spec fn line_agent_id(line: Seq<char>) -> Option<Seq<char>> {
    if starts_with(line, AGENT_ID_PREFIX@) {
        let k = trimmed(line.subrange(AGENT_ID_PREFIX@.len() as int, line.len() as int));
        if k.len() > 0 {
            Some(k)
        } else {
            None
        }
    } else {
        None
    }
}

/// The first agent id given by a line of `s`, scanning from position `i`
/// within the line that starts at `start`; lines end at `\n`.
pub open spec fn agent_id_scan(s: Seq<char>, start: int, i: int) -> Option<Seq<char>>
    decreases s.len() - i,
{
    if i >= s.len() {
        line_agent_id(trimmed(s.subrange(start, s.len() as int)))
    } else if s[i] == '\n' {
        match line_agent_id(trimmed(s.subrange(start, i))) {
            Some(k) => Some(k),
            None => agent_id_scan(s, i + 1, i + 1),
        }
    } else {
        agent_id_scan(s, start, i + 1)
    }
}

/// The agent id an installer's config file with content `s` gives: that of
/// its first `AgentID=` line with a value.
pub open spec fn conf_agent_id(s: Seq<char>) -> Option<Seq<char>> {
    agent_id_scan(s, 0, 0)
}

fn line_agent_id_at(s: &str, from: usize, to: usize) -> (r: Option<String>)
    requires
        from <= to <= s@.len(),
    ensures
        match r {
            Some(k) => line_agent_id(trimmed(s@.subrange(from as int, to as int))) == Some(k@),
            None => line_agent_id(trimmed(s@.subrange(from as int, to as int))) is None,
        },
{
    let (a, b) = trim_bounds(s, from, to);
    let ghost line = s@.subrange(a as int, b as int);
    if has_prefix(s, a, b, AGENT_ID_PREFIX) {
        let n = AGENT_ID_PREFIX.unicode_len();
        let (ka, kb) = trim_bounds(s, a + n, b);
        assert(s@.subrange(a + n, b as int) =~= line.subrange(n as int, line.len() as int));
        if ka < kb {
            return Some(String::from_str(s.substring_char(ka, kb)));
        }
    }
    None
}

/// The agent id an installer's config file gives (see `conf_agent_id`).
pub fn agent_id_from_conf(content: &str) -> (r: Option<String>)
    ensures
        match r {
            Some(k) => conf_agent_id(content@) == Some(k@),
            None => conf_agent_id(content@) is None,
        },
{
    let n = content.unicode_len();
    let mut start: usize = 0;
    let mut i: usize = 0;
    while i < n
        invariant
            n == content@.len(),
            0 <= start <= i <= n,
            conf_agent_id(content@) == agent_id_scan(content@, start as int, i as int),
        decreases n - i,
    {
        if content.get_char(i) == '\n' {
            match line_agent_id_at(content, start, i) {
                Some(k) => return Some(k),
                None => {},
            }
            start = i + 1;
        }
        i = i + 1;
    }
    line_agent_id_at(content, start, n)
}

/// The registration endpoint under API server `api`.
pub open spec fn registration_url_of(api: Seq<char>) -> Seq<char> {
    if api.len() > 0 && api[api.len() - 1] == '/' {
        api + REGISTRATION_PATH@
    } else {
        api + "/"@ + REGISTRATION_PATH@
    }
}

/// The registration endpoint under `api_server`; `None` when no API server
/// is configured, in which case registration is skipped.
pub fn registration_url(api_server: &str) -> (r: Option<String>)
    ensures
        api_server@.len() == 0 ==> r is None,
        api_server@.len() > 0 ==> r is Some && r->Some_0@ == registration_url_of(api_server@),
{
    let n = api_server.unicode_len();
    if n == 0 {
        return None;
    }
    let base = String::from_str(api_server);
    if api_server.get_char(n - 1) == '/' {
        Some(base.concat(REGISTRATION_PATH))
    } else {
        let url = base.concat("/").concat(REGISTRATION_PATH);
        assert(url@ == api_server@ + "/"@ + REGISTRATION_PATH@);
        Some(url)
    }
}

/// What follows a registration attempt.
#[derive(Clone, Copy, Debug, PartialEq, Eq, Structural)]
pub enum RegistrationStep {
    /// The agent is registered.
    Registered,
    /// Try again after this many seconds.
    RetryAfterSecs(u64),
    /// Every attempt failed.
    GaveUp,
}

/// The step after attempt number `attempt` (from 1) succeeded or failed: a
/// failure before the last attempt is retried after
/// `REGISTRATION_RETRY_DELAY_SECS`.
pub fn registration_step(attempt: u32, succeeded: bool) -> (r: RegistrationStep)
    requires
        1 <= attempt <= REGISTRATION_ATTEMPTS,
    ensures
        succeeded ==> r == RegistrationStep::Registered,
        !succeeded && attempt < REGISTRATION_ATTEMPTS ==> r == RegistrationStep::RetryAfterSecs(
            REGISTRATION_RETRY_DELAY_SECS,
        ),
        !succeeded && attempt == REGISTRATION_ATTEMPTS ==> r == RegistrationStep::GaveUp,
{
    if succeeded {
        RegistrationStep::Registered
    } else if attempt < REGISTRATION_ATTEMPTS {
        RegistrationStep::RetryAfterSecs(REGISTRATION_RETRY_DELAY_SECS)
    } else {
        RegistrationStep::GaveUp
    }
}

/// Whether `a` is a flag that names a kind of session.
pub open spec fn is_session_flag(a: Seq<char>) -> bool {
    a == "--connect"@ || a == "--play"@ || a == "--file-transfer"@ || a == "--view-camera"@ || a
        == "--port-forward"@ || a == "--rdp"@
}

/// Reads `args` from position `i` into `req`, which holds what the command
/// line of a new-connection request names so far: the kind of session (the
/// flag without its dashes), the peer id, and the link parameters in order.
/// A session flag takes the next
/// argument as the peer id (none if it is the last); `--password` and
/// `--switch_uuid` add a parameter from the next argument, if there is one;
/// `--relay` adds `relay=true`; anything else is skipped.
pub open spec fn parse_link_args(
    args: Seq<Seq<char>>,
    i: int,
    req: (Option<Seq<char>>, Option<Seq<char>>, Seq<Seq<char>>),
) -> (Option<Seq<char>>, Option<Seq<char>>, Seq<Seq<char>>)
    decreases args.len() - i,
{
    if i >= args.len() {
        req
    } else {
        let a = args[i];
        let next = if i + 1 < args.len() {
            Some(args[i + 1])
        } else {
            None
        };
        let after_next = if i + 1 < args.len() {
            i + 2
        } else {
            i + 1
        };
        if is_session_flag(a) {
            parse_link_args(
                args,
                after_next,
                (Some(a.subrange(2, a.len() as int)), next, req.2),
            )
        } else if a == "--password"@ || a == "--switch_uuid"@ {
            match next {
                Some(v) => parse_link_args(
                    args,
                    i + 2,
                    (
                        req.0,
                        req.1,
                        req.2.push(
                            (if a == "--password"@ {
                                "password="@
                            } else {
                                "switch_uuid="@
                            }) + v,
                        ),
                    ),
                ),
                None => parse_link_args(args, i + 1, req),
            }
        } else if a == "--relay"@ {
            parse_link_args(
                args,
                i + 1,
                (req.0, req.1, req.2.push("relay=true"@)),
            )
        } else {
            parse_link_args(args, i + 1, req)
        }
    }
}

/// `s` with every occurrence of `p` removed, scanning left to right.
pub open spec fn remove_all(s: Seq<char>, p: Seq<char>) -> Seq<char>
    decreases s.len(),
{
    if p.len() == 0 || s.len() < p.len() {
        s
    } else if s.subrange(0, p.len() as int) == p {
        remove_all(s.subrange(p.len() as int, s.len() as int), p)
    } else {
        seq![s[0]] + remove_all(s.subrange(1, s.len() as int), p)
    }
}

/// `ps` joined with `&`.
pub open spec fn join_params(ps: Seq<Seq<char>>) -> Seq<char>
    decreases ps.len(),
{
    if ps.len() == 0 {
        seq![]
    } else if ps.len() == 1 {
        ps[0]
    } else {
        join_params(ps.drop_last()) + "&"@ + ps.last()
    }
}

/// The link a new-connection request opens: `<prefix><authority>/<id>`,
/// the id stripped of the app extension `ext` when it ends with it, and
/// `?<params>` when there are parameters; `None` without a session flag and
/// a peer id.
pub open spec fn link_of(args: Seq<Seq<char>>, ext: Seq<char>, prefix: Seq<char>) -> Option<
    Seq<char>,
> {
    let req = parse_link_args(args, 0, (None, None, seq![]));
    match (req.0, req.1) {
        (Some(auth), Some(id)) => {
            let id2 = if id.len() >= ext.len() && id.subrange(id.len() - ext.len(), id.len() as int)
                == ext {
                remove_all(id, ext)
            } else {
                id
            };
            let params = join_params(req.2);
            Some(
                prefix + auth + "/"@ + id2 + (if params.len() == 0 {
                    seq![]
                } else {
                    "?"@
                }) + params,
            )
        },
        _ => None,
    }
}

/// The lower-case form of `s` that `str::to_lowercase` gives.
pub uninterp spec fn lowercase_of(s: Seq<char>) -> Seq<char>;

/// Relies on `str::to_lowercase`: the lower-case form, which depends on the
/// characters alone.
#[verifier::external_body]
fn to_lowercase(s: &str) -> (r: String)
    ensures
        r@ == lowercase_of(s@),
{
    s.to_lowercase()
}

/// The views of a vector of strings.
pub open spec fn views(v: Seq<String>) -> Seq<Seq<char>> {
    v.map_values(|x: String| x@)
}

/// The view of an optional string.
pub open spec fn opt_view(o: Option<String>) -> Option<Seq<char>> {
    match o {
        Some(x) => Some(x@),
        None => None,
    }
}

fn session_flag(a: &str) -> (r: bool)
    ensures
        r == is_session_flag(a@),
{
    str_equal(a, "--connect") || str_equal(a, "--play") || str_equal(a, "--file-transfer")
        || str_equal(a, "--view-camera") || str_equal(a, "--port-forward") || str_equal(a, "--rdp")
}

/// `s` with every occurrence of `p` removed (see `remove_all`).
pub fn remove_all_of(s: &str, p: &str) -> (r: String)
    ensures
        r@ == remove_all(s@, p@),
{
    let n = s.unicode_len();
    let m = p.unicode_len();
    if m == 0 {
        return String::from_str(s);
    }
    let mut out = String::new();
    let mut seg: usize = 0;
    let mut i: usize = 0;
    assert(out@ + s@.subrange(0, 0) + s@.subrange(0, n as int) =~= s@);
    while i < n
        invariant
            n == s@.len(),
            m == p@.len(),
            m > 0,
            seg <= i <= n,
            out@ + s@.subrange(seg as int, i as int) + remove_all(s@.subrange(i as int, n as int), p@)
                == remove_all(s@, p@),
        decreases n - i,
    {
        let ghost rest = s@.subrange(i as int, n as int);
        if m <= n - i && has_prefix(s, i, n, p) {
            assert(rest.subrange(m as int, rest.len() as int) =~= s@.subrange(i + m, n as int));
            out.append(s.substring_char(seg, i));
            i = i + m;
            seg = i;
            assert(s@.subrange(seg as int, i as int) =~= Seq::<char>::empty());
        } else {
            assert(rest.subrange(1, rest.len() as int) =~= s@.subrange(i + 1, n as int));
            assert(s@.subrange(seg as int, i + 1) =~= s@.subrange(seg as int, i as int) + seq![
                rest[0],
            ]);
            i = i + 1;
        }
    }
    assert(s@.subrange(n as int, n as int) =~= Seq::<char>::empty());
    out.append(s.substring_char(seg, n));
    out
}

/// `ps` joined with `&` (see `join_params`).
pub fn join_link_params(ps: &Vec<String>) -> (r: String)
    ensures
        r@ == join_params(views(ps@)),
{
    let ghost v = views(ps@);
    let mut out = String::new();
    let mut i: usize = 0;
    while i < ps.len()
        invariant
            v == views(ps@),
            i <= ps@.len(),
            out@ == join_params(v.subrange(0, i as int)),
        decreases ps@.len() - i,
    {
        assert(v.subrange(0, i + 1).drop_last() =~= v.subrange(0, i as int));
        if i > 0 {
            out.append("&");
        }
        out.append(ps[i].as_str());
        i = i + 1;
    }
    assert(v.subrange(0, ps@.len() as int) =~= v);
    out
}

/// The link a new-connection request opens, with the app extension `ext`
/// already made (see `link_of`).
pub fn link_with_ext(args: &Vec<String>, ext: &str, uri_prefix: &str) -> (r: Option<String>)
    ensures
        opt_view(r) == link_of(views(args@), ext@, uri_prefix@),
{
    let ghost av = views(args@);
    let mut authority: Option<String> = None;
    let mut id: Option<String> = None;
    let mut params: Vec<String> = Vec::new();
    let mut i: usize = 0;
    assert(views(params@) =~= Seq::<Seq<char>>::empty());
    while i < args.len()
        invariant
            av == views(args@),
            i <= args@.len(),
            parse_link_args(av, 0, (None, None, seq![])) == parse_link_args(
                av,
                i as int,
                (opt_view(authority), opt_view(id), views(params@)),
            ),
        decreases args@.len() - i,
    {
        let a = args[i].as_str();
        if session_flag(a) {
            proof {
                reveal_strlit("--connect");
                reveal_strlit("--play");
                reveal_strlit("--file-transfer");
                reveal_strlit("--view-camera");
                reveal_strlit("--port-forward");
                reveal_strlit("--rdp");
            }
            let len = a.unicode_len();
            authority = Some(String::from_str(a.substring_char(2, len)));
            if i + 1 < args.len() {
                id = Some(args[i + 1].clone());
                i = i + 2;
            } else {
                id = None;
                i = i + 1;
            }
        } else if str_equal(a, "--password") || str_equal(a, "--switch_uuid") {
            if i + 1 < args.len() {
                let key = if str_equal(a, "--password") {
                    "password="
                } else {
                    "switch_uuid="
                };
                let ghost before = views(params@);
                params.push(String::from_str(key).concat(args[i + 1].as_str()));
                assert(views(params@) =~= before.push(key@ + av[i + 1]));
                i = i + 2;
            } else {
                i = i + 1;
            }
        } else if str_equal(a, "--relay") {
            let ghost before = views(params@);
            params.push(String::from_str("relay=true"));
            assert(views(params@) =~= before.push("relay=true"@));
            i = i + 1;
        } else {
            i = i + 1;
        }
    }
    match (authority, id) {
        (Some(auth), Some(peer)) => {
            let idn = peer.unicode_len();
            let en = ext.unicode_len();
            let stripped = if idn >= en && has_prefix(peer.as_str(), idn - en, idn, ext) {
                assert(peer@.subrange(idn - en, idn as int).subrange(0, en as int) =~= peer@.subrange(
                    idn - en,
                    idn as int,
                ));
                remove_all_of(peer.as_str(), ext)
            } else {
                assert(idn >= en ==> peer@.subrange(idn - en, idn as int).subrange(0, en as int)
                    =~= peer@.subrange(idn - en, idn as int));
                peer
            };
            let joined = join_link_params(&params);
            let mut link = String::from_str(uri_prefix).concat(auth.as_str()).concat("/").concat(
                stripped.as_str(),
            );
            if joined.unicode_len() > 0 {
                link = link.concat("?");
            }
            let link = link.concat(joined.as_str());
            Some(link)
        },
        _ => None,
    }
}

/// The link a new-connection request opens for the app named `app_name`:
/// `link_with_ext` with the extension `.` followed by the lower-case name.
pub fn new_connection_link(args: &Vec<String>, app_name: &str, uri_prefix: &str) -> (r: Option<
    String,
>)
    ensures
        opt_view(r) == link_of(views(args@), "."@ + lowercase_of(app_name@), uri_prefix@),
{
    let lower = to_lowercase(app_name);
    let ext = String::from_str(".").concat(lower.as_str());
    link_with_ext(args, ext.as_str(), uri_prefix)
}

} // verus!
