//! Reading the server's responses: framing, fallbacks and field extraction.
use vstd::prelude::*;
use crate::error::{ClientError, Exchange};
use crate::json::{
    as_list, json_array, json_member, member, parse_json, parsed_json, string_member,
    string_member_of, text_member, text_member_of,
};
use crate::text::{
    chars_of, contains, find, find_first, lines, lines_of, string_of, trim_range, trimmed, views,
};

verus! {

/// The view of an optional string.
pub open spec fn opt_view(o: Option<String>) -> Option<Seq<char>> {
    match o {
        Some(s) => Some(s@),
        None => None,
    }
}

/// The views of a sequence of optional strings.
pub open spec fn opt_views(v: Seq<Option<String>>) -> Seq<Option<Seq<char>>> {
    v.map_values(|o: Option<String>| opt_view(o))
}

/// The texts that are present, in order.
pub open spec fn present(v: Seq<Option<Seq<char>>>) -> Seq<Seq<char>>
    decreases v.len(),
{
    if v.len() == 0 {
        seq![]
    } else {
        match v.last() {
            Some(t) => present(v.drop_last()).push(t),
            None => present(v.drop_last()),
        }
    }
}

/// The texts that are present, joined in order.
pub open spec fn joined(v: Seq<Option<Seq<char>>>) -> Seq<char>
    decreases v.len(),
{
    if v.len() == 0 {
        seq![]
    } else {
        match v.last() {
            Some(t) => joined(v.drop_last()) + t,
            None => joined(v.drop_last()),
        }
    }
}

/// The texts among `items` that are present, in order.
pub fn present_texts(items: &Vec<Option<String>>) -> (r: Vec<String>)
    ensures
        views(r@) == present(opt_views(items@)),
{
    let mut out: Vec<String> = Vec::new();
    let mut i: usize = 0;
    while i < items.len()
        invariant
            i <= items@.len(),
            views(out@) == present(opt_views(items@.subrange(0, i as int))),
        decreases items@.len() - i,
    {
        let ghost before = out@;
        assert(opt_views(items@.subrange(0, i + 1)).drop_last() =~= opt_views(
            items@.subrange(0, i as int),
        ));
        match &items[i] {
            Some(t) => {
                out.push(t.clone());
                assert(views(out@) =~= views(before).push(t@));
            },
            None => {},
        }
        i = i + 1;
    }
    assert(items@.subrange(0, i as int) =~= items@);
    out
}

/// The texts among `items` that are present, joined in order.
pub fn join_texts(items: &Vec<Option<String>>) -> (r: String)
    ensures
        r@ == joined(opt_views(items@)),
{
    let mut out = String::new();
    let mut i: usize = 0;
    while i < items.len()
        invariant
            i <= items@.len(),
            out@ == joined(opt_views(items@.subrange(0, i as int))),
        decreases items@.len() - i,
    {
        assert(opt_views(items@.subrange(0, i + 1)).drop_last() =~= opt_views(
            items@.subrange(0, i as int),
        ));
        match &items[i] {
            Some(t) => {
                out.append(t.as_str());
            },
            None => {},
        }
        i = i + 1;
    }
    assert(items@.subrange(0, i as int) =~= items@);
    out
}

/// The blank line that ends the headers of an HTTP response.
pub open spec fn separator() -> Seq<char> {
    seq!['\r', '\n', '\r', '\n']
}

/// The body of an HTTP response: what follows its first blank line.
pub open spec fn body_of(r: Seq<char>) -> Option<Seq<char>> {
    match find_first(r, separator()) {
        Some(i) => Some(r.subrange(i + 4, r.len() as int)),
        None => None,
    }
}

/// Where the body of `response` begins, or none where it has no blank line.
pub fn body_start(response: &Vec<char>) -> (r: Option<usize>)
    ensures
        match r {
            Some(k) => k <= response@.len() && body_of(response@) == Some(
                response@.subrange(k as int, response@.len() as int),
            ),
            None => body_of(response@) is None,
        },
{
    let _n: usize = response.len();
    let sep: Vec<char> = vec!['\r', '\n', '\r', '\n'];
    assert(sep@ =~= separator());
    match find(response, &sep) {
        Some(i) => Some(i + 4),
        None => None,
    }
}

/// The first line at or after index `i` of `ls` that contains `p`.
pub open spec fn first_line_from(ls: Seq<Seq<char>>, p: Seq<char>, i: int) -> Option<Seq<char>>
    decreases ls.len() - i,
{
    if i < 0 || i >= ls.len() {
        None
    } else if contains(ls[i], p) {
        Some(ls[i])
    } else {
        first_line_from(ls, p, i + 1)
    }
}

/// The version fallback on a whole response: its first line that mentions
/// the version, else a sentinel.
pub open spec fn version_line_of(r: Seq<char>) -> Seq<char> {
    match first_line_from(lines_of(r), "version"@, 0) {
        Some(l) => l,
        None => "invalid response"@,
    }
}

/// The version a response reports: the `version` member of its trimmed body,
/// else the fallback on the whole response.
pub open spec fn version_of(r: Seq<char>) -> Seq<char> {
    match body_of(r) {
        Some(b) => match string_member(trimmed(b), "version"@) {
            Some(v) => v,
            None => version_line_of(r),
        },
        None => version_line_of(r),
    }
}

/// The version text: the parsed one where there is one, else the fallback on
/// the whole response.
pub fn pick_version(parsed: Option<String>, response: &str) -> (r: String)
    ensures
        r@ == match parsed {
            Some(v) => v@,
            None => version_line_of(response@),
        },
{
    match parsed {
        Some(v) => v,
        None => {
            let cs = chars_of(response);
            let ls = lines(&cs);
            let pat = chars_of("version");
            let mut i: usize = 0;
            while i < ls.len()
                invariant
                    i <= ls@.len(),
                    views(ls@) == lines_of(response@),
                    pat@ == "version"@,
                    parsed is None,
                    first_line_from(views(ls@), pat@, 0) == first_line_from(
                        views(ls@),
                        pat@,
                        i as int,
                    ),
                decreases ls@.len() - i,
            {
                let lc = chars_of(ls[i].as_str());
                assert(views(ls@)[i as int] == ls@[i as int]@);
                if let Some(_) = find(&lc, &pat) {
                    assert(contains(views(ls@)[i as int], pat@));
                    assert(first_line_from(views(ls@), pat@, 0) == Some(ls@[i as int]@));
                    return ls[i].clone();
                }
                i = i + 1;
            }
            String::from_str("invalid response")
        },
    }
}

/// The version that `response` reports.
pub fn version_of_response(response: &str) -> (r: String)
    ensures
        r@ == version_of(response@),
{
    let cs = chars_of(response);
    let parsed = match body_start(&cs) {
        Some(k) => {
            let (a, b) = trim_range(&cs, k, cs.len());
            let t = string_of(&cs, a, b);
            text_member(t.as_str(), "version")
        },
        None => None,
    };
    pick_version(parsed, response)
}

/// What a version query reports for each way the exchange can go.
pub open spec fn version_reply_of(e: Exchange) -> Seq<char> {
    match e {
        Exchange::Unreachable(_) => "not connected"@,
        Exchange::WriteFailed(_) => "write error"@,
        Exchange::ReadFailed(_) => "read error"@,
        Exchange::Received(r) => version_of(r@),
    }
}

/// The outcome of a version query. It never fails: a failed exchange gives a
/// non-empty sentinel saying how it failed.
pub fn version_reply(e: &Exchange) -> (r: String)
    ensures
        r@ == version_reply_of(*e),
        !(e is Received) ==> r@.len() > 0,
{
    proof {
        reveal_strlit("not connected");
        reveal_strlit("write error");
        reveal_strlit("read error");
    }
    match e {
        Exchange::Unreachable(_) => String::from_str("not connected"),
        Exchange::WriteFailed(_) => String::from_str("write error"),
        Exchange::ReadFailed(_) => String::from_str("read error"),
        Exchange::Received(r) => version_of_response(r.as_str()),
    }
}

/// The message of the protocol error for a response without a body.
pub open spec fn missing_body() -> Seq<char> {
    "Invalid HTTP response (missing body)"@
}

/// The names of the model entries that have one, in order.
pub open spec fn names_of(entries: Seq<serde_json::Value>) -> Seq<Seq<char>> {
    present(entries.map_values(|v: serde_json::Value| string_member_of(v, "name"@)))
}

/// The array under the `models` member of a JSON value.
pub open spec fn models_member(v: serde_json::Value) -> Option<Seq<serde_json::Value>> {
    match json_member(v, "models"@) {
        Some(m) => json_array(m),
        None => None,
    }
}

/// The model names that a tag-listing response holds, or the message of the
/// protocol error it gives.
pub open spec fn models_outcome(r: Seq<char>) -> Result<Seq<Seq<char>>, Seq<char>> {
    match body_of(r) {
        None => Err(missing_body()),
        Some(b) => match parsed_json(b) {
            None => Err("JSON parse error"@),
            Some(v) => match models_member(v) {
                None => Err("Invalid models format in response"@),
                Some(entries) => Ok(names_of(entries)),
            },
        },
    }
}

/// The model names that a tag-listing response holds.
pub fn models_of_response(response: &str) -> (r: Result<Vec<String>, ClientError>)
    ensures
        match models_outcome(response@) {
            Ok(names) => r matches Ok(v) && views(v@) == names,
            Err(m) => r matches Err(ClientError::Protocol(x)) && x@ == m,
        },
{
    let cs = chars_of(response);
    let k = match body_start(&cs) {
        Some(k) => k,
        None => {
            return Err(ClientError::Protocol(String::from_str("Invalid HTTP response (missing body)")));
        },
    };
    let body = string_of(&cs, k, cs.len());
    let v = match parse_json(body.as_str()) {
        Some(v) => v,
        None => {
            return Err(ClientError::Protocol(String::from_str("JSON parse error")));
        },
    };
    let entries = match member(&v, "models") {
        Some(m) => as_list(&m),
        None => None,
    };
    let entries = match entries {
        Some(e) => e,
        None => {
            return Err(ClientError::Protocol(String::from_str("Invalid models format in response")));
        },
    };
    let mut names: Vec<Option<String>> = Vec::new();
    let mut i: usize = 0;
    while i < entries.len()
        invariant
            i <= entries@.len(),
            opt_views(names@) == entries@.subrange(0, i as int).map_values(
                |e: serde_json::Value| string_member_of(e, "name"@),
            ),
        decreases entries@.len() - i,
    {
        let n = text_member_of(&entries[i], "name");
        let ghost before = names@;
        names.push(n);
        assert(opt_views(names@) =~= entries@.subrange(0, i + 1).map_values(
            |e: serde_json::Value| string_member_of(e, "name"@),
        )) by {
            assert(opt_views(names@) =~= opt_views(before).push(opt_view(n)));
        }
        i = i + 1;
    }
    assert(entries@.subrange(0, i as int) =~= entries@);
    Ok(present_texts(&names))
}

/// The `response` text of each line of a generation body, joined.
pub open spec fn chunks_of(body: Seq<char>) -> Seq<char> {
    joined(lines_of(body).map_values(|l: Seq<char>| string_member(l, "response"@)))
}

/// The text that a generation body holds: the joined line-by-line chunks,
/// else the `response` member of the body taken whole, else nothing.
pub open spec fn generated_of(body: Seq<char>) -> Seq<char> {
    if chunks_of(body).len() > 0 {
        chunks_of(body)
    } else {
        match string_member(body, "response"@) {
            Some(t) => t,
            None => seq![],
        }
    }
}

/// The text settled on from the joined chunks and the whole-body fallback.
pub open spec fn settled(joined: Seq<char>, whole: Option<Seq<char>>) -> Seq<char> {
    if joined.len() > 0 {
        joined
    } else {
        match whole {
            Some(t) => t,
            None => seq![],
        }
    }
}

/// The reply to a prompt, from the joined chunks and the whole-body fallback:
/// the first of them that is not empty, else an empty-response error that
/// carries the body.
pub fn settle_reply(joined: String, whole: Option<String>, body: String) -> (r: Result<
    String,
    ClientError,
>)
    ensures
        settled(joined@, opt_view(whole)).len() > 0 ==> (r matches Ok(t) && t@ == settled(
            joined@,
            opt_view(whole),
        )),
        settled(joined@, opt_view(whole)).len() == 0 ==> r == Err::<String, ClientError>(
            ClientError::EmptyResponse(body),
        ),
{
    if joined.as_str().is_empty() {
        match whole {
            Some(t) => {
                if t.as_str().is_empty() {
                    Err(ClientError::EmptyResponse(body))
                } else {
                    Ok(t)
                }
            },
            None => Err(ClientError::EmptyResponse(body)),
        }
    } else {
        Ok(joined)
    }
}

/// The generated text that a generation response holds.
pub fn reply_of_response(response: &str) -> (r: Result<String, ClientError>)
    ensures
        match body_of(response@) {
            None => r matches Err(ClientError::Protocol(m)) && m@ == missing_body(),
            Some(b) => if generated_of(b).len() > 0 {
                r matches Ok(t) && t@ == generated_of(b)
            } else {
                r matches Err(ClientError::EmptyResponse(x)) && x@ == b
            },
        },
{
    let cs = chars_of(response);
    let k = match body_start(&cs) {
        Some(k) => k,
        None => {
            return Err(ClientError::Protocol(String::from_str("Invalid HTTP response (missing body)")));
        },
    };
    let body = string_of(&cs, k, cs.len());
    let body_chars = chars_of(body.as_str());
    let ls = lines(&body_chars);
    let mut chunks: Vec<Option<String>> = Vec::new();
    let mut i: usize = 0;
    while i < ls.len()
        invariant
            i <= ls@.len(),
            opt_views(chunks@) == views(ls@).subrange(0, i as int).map_values(
                |l: Seq<char>| string_member(l, "response"@),
            ),
        decreases ls@.len() - i,
    {
        let c = text_member(ls[i].as_str(), "response");
        let ghost before = chunks@;
        chunks.push(c);
        assert(opt_views(chunks@) =~= views(ls@).subrange(0, i + 1).map_values(
            |l: Seq<char>| string_member(l, "response"@),
        )) by {
            assert(opt_views(chunks@) =~= opt_views(before).push(opt_view(c)));
        }
        i = i + 1;
    }
    assert(views(ls@).subrange(0, i as int) =~= views(ls@));
    let joined = join_texts(&chunks);
    let whole = if joined.as_str().is_empty() {
        text_member(body.as_str(), "response")
    } else {
        None
    };
    settle_reply(joined, whole, body)
}

/// The outcome of a model listing, for each way the exchange can go.
pub fn models_reply(e: &Exchange) -> (r: Result<Vec<String>, ClientError>)
    ensures
        match *e {
            Exchange::Unreachable(m) => r == Err::<Vec<String>, ClientError>(
                ClientError::Connection(m),
            ),
            Exchange::WriteFailed(m) => r == Err::<Vec<String>, ClientError>(
                ClientError::Transport(m),
            ),
            Exchange::ReadFailed(m) => r == Err::<Vec<String>, ClientError>(
                ClientError::Transport(m),
            ),
            Exchange::Received(resp) => match models_outcome(resp@) {
                Ok(names) => r matches Ok(v) && views(v@) == names,
                Err(m) => r matches Err(ClientError::Protocol(x)) && x@ == m,
            },
        },
{
    match e {
        Exchange::Unreachable(m) => Err(ClientError::Connection(m.clone())),
        Exchange::WriteFailed(m) => Err(ClientError::Transport(m.clone())),
        Exchange::ReadFailed(m) => Err(ClientError::Transport(m.clone())),
        Exchange::Received(resp) => models_of_response(resp.as_str()),
    }
}

/// The outcome of a prompt, for each way the exchange can go.
pub fn prompt_reply(e: &Exchange) -> (r: Result<String, ClientError>)
    ensures
        match *e {
            Exchange::Unreachable(m) => r == Err::<String, ClientError>(ClientError::Connection(m)),
            Exchange::WriteFailed(m) => r == Err::<String, ClientError>(ClientError::Transport(m)),
            Exchange::ReadFailed(m) => r == Err::<String, ClientError>(ClientError::Transport(m)),
            Exchange::Received(resp) => match body_of(resp@) {
                None => r matches Err(ClientError::Protocol(m)) && m@ == missing_body(),
                Some(b) => if generated_of(b).len() > 0 {
                    r matches Ok(t) && t@ == generated_of(b)
                } else {
                    r matches Err(ClientError::EmptyResponse(x)) && x@ == b
                },
            },
        },
{
    match e {
        Exchange::Unreachable(m) => Err(ClientError::Connection(m.clone())),
        Exchange::WriteFailed(m) => Err(ClientError::Transport(m.clone())),
        Exchange::ReadFailed(m) => Err(ClientError::Transport(m.clone())),
        Exchange::Received(resp) => reply_of_response(resp.as_str()),
    }
}

} // verus!
