//! What holds of the library whatever it is asked: statements about every
//! attempt, every token and every URL, proved from what the contracts of
//! the functions say.

use vstd::prelude::*;
use crate::auth::{Findings, Submission};
use crate::error::Error;
use crate::identity::{SessionKey, UserName};
use crate::info::Progress;
use crate::service::{recorded, session_key, with_session, State};
use crate::text::{
    all_white_space, ascii_space, drop_white_space, lemma_word_end, no_ascii_space,
    skip_white_space, trimmed, white_space, word_end, words, words_from,
};
use crate::tokens::{token_accepted, token_list};
use crate::flow::flow_satisfied;
use crate::preview::Rules;
use crate::stage::Stage;
use crate::verify::Verdict;

verus! {

/// `a` is the beginning of `b`.
pub open spec fn is_prefix<T>(a: Seq<T>, b: Seq<T>) -> bool {
    a.len() <= b.len() && b.take(a.len() as int) == a
}

/// Recording a ruling never takes a completed stage away: the stages
/// completed before are the beginning of those completed after, and flows
/// and session token are untouched.
pub proof fn law_recording_keeps_completed(p: Progress, v: Verdict)
    ensures
        is_prefix(p.completed, recorded(p, v).completed),
        p.completed_set().subset_of(recorded(p, v).completed_set()),
        recorded(p, v).flows == p.flows,
        recorded(p, v).session == p.session,
{
    let q = recorded(p, v);
    assert(q.completed.take(p.completed.len() as int) =~= p.completed);
    assert forall|s| p.completed_set().contains(s) implies q.completed_set().contains(s) by {
        let i = choose|i: int| 0 <= i < p.completed.len() && p.completed[i] == s;
        assert(q.completed[i] == s);
    }
}

/// Within one attempt the completed stages only grow: what the attempt
/// returns begins with what the session had completed when it started.
pub proof fn law_attempt_keeps_completed(
    before: State,
    user: UserName,
    device: Seq<char>,
    auth: Submission,
    fallback: Progress,
    found: Findings,
    done: bool,
    info: Progress,
    after: State,
)
    requires
        before.accepts(user, device, auth, fallback, found, done, info, after),
    ensures
        is_prefix(before.opened(user, device, auth, fallback)->0.completed, info.completed),
        info.flows == before.opened(user, device, auth, fallback)->0.flows,
{
    let start = before.opened(user, device, auth, fallback)->0;
    let ruled = before.ruled(user, auth, found)->Ok_0;
    law_recording_keeps_completed(with_session(start, info.session->0), ruled);
}

/// Filing a record under its own token, and dropping one, leave every
/// stored record under the token that it carries, if that held before.
pub proof fn law_filing_keeps_tokens_in_place(state: State, key: SessionKey, p: Progress)
    requires
        state.keyed_by_token(),
        p.session == Some(key.session),
    ensures
        (State { sessions: state.sessions.insert(key, p), ..state }).keyed_by_token(),
        (State { sessions: state.sessions.remove(key), ..state }).keyed_by_token(),
{
}

/// An attempt leaves every stored record under the token that it carries,
/// if that held before.
pub proof fn law_attempt_keeps_tokens_in_place(
    before: State,
    user: UserName,
    device: Seq<char>,
    auth: Submission,
    fallback: Progress,
    found: Findings,
    done: bool,
    info: Progress,
    after: State,
)
    requires
        before.keyed_by_token(),
        before.accepts(user, device, auth, fallback, found, done, info, after),
    ensures
        after.keyed_by_token(),
{
}

/// Across attempts the completed stages of a stored session only grow.
///
/// Take an engine in which each stored record carries the token that it is
/// stored under, and any attempt, by any user on any device. Every session
/// stored before it and after it has, after it, all the stages completed
/// that it had before, in the same order, and the same flows and token.
///
/// One case is left out. An attempt that names no session opens one, under
/// the token of the caller's record or under a new one. Where a session is
/// stored under that very key already, the new one takes its place, and
/// nothing holds of that key.
pub proof fn law_completed_monotonic(
    before: State,
    user: UserName,
    device: Seq<char>,
    auth: Submission,
    fallback: Progress,
    found: Findings,
    done: bool,
    info: Progress,
    after: State,
    key: SessionKey,
)
    requires
        before.keyed_by_token(),
        before.accepts(user, device, auth, fallback, found, done, info, after),
        auth.session() is Some || key != session_key(user, device, info.session->0),
        before.sessions.contains_key(key),
        after.sessions.contains_key(key),
    ensures
        is_prefix(before.sessions[key].completed, after.sessions[key].completed),
        after.sessions[key].flows == before.sessions[key].flows,
        after.sessions[key].session == before.sessions[key].session,
{
    let start = before.opened(user, device, auth, fallback)->0;
    law_attempt_keeps_completed(before, user, device, auth, fallback, found, done, info, after);
    if key == session_key(user, device, info.session->0) {
        let named = session_key(user, device, auth.session()->0);
        assert(before.sessions.contains_key(named));
        assert(start.session == Some(named.session));
        assert(after.sessions[key] == info);
    } else {
        assert(after.sessions[key] == before.sessions[key]);
        assert(before.sessions[key].completed.take(before.sessions[key].completed.len() as int)
            =~= before.sessions[key].completed);
    }
}

/// An attempt changes the stored progress of no session but its own, and
/// never a waiting request.
pub proof fn law_attempt_is_local(
    before: State,
    user: UserName,
    device: Seq<char>,
    auth: Submission,
    fallback: Progress,
    found: Findings,
    done: bool,
    info: Progress,
    after: State,
    key: SessionKey,
)
    requires
        before.accepts(user, device, auth, fallback, found, done, info, after),
        key != session_key(user, device, info.session->0),
    ensures
        after.sessions.contains_key(key) == before.sessions.contains_key(key),
        after.sessions.contains_key(key) ==> after.sessions[key] == before.sessions[key],
        after.requests == before.requests,
{
}

/// Once an attempt has concluded a session, its progress is no longer
/// stored, and whoever names that session again, with whatever proof, is
/// told that it does not exist.
pub proof fn law_concluded_session_is_gone(
    before: State,
    user: UserName,
    device: Seq<char>,
    auth: Submission,
    fallback: Progress,
    found: Findings,
    info: Progress,
    after: State,
    next_auth: Submission,
    next_fallback: Progress,
    next_found: Findings,
)
    requires
        before.accepts(user, device, auth, fallback, found, true, info, after),
        next_auth.session() == info.session,
    ensures
        !after.sessions.contains_key(session_key(user, device, info.session->0)),
        after.refusal(user, device, next_auth, next_fallback, next_found) == Some(
            Error::SessionNotFound,
        ),
{
}

/// An attempt that does not conclude its session leaves the returned
/// progress stored under the returned token, so that the next attempt
/// starts from it.
pub proof fn law_open_session_is_stored(
    before: State,
    user: UserName,
    device: Seq<char>,
    auth: Submission,
    fallback: Progress,
    found: Findings,
    info: Progress,
    after: State,
    next_auth: Submission,
    next_fallback: Progress,
)
    requires
        before.accepts(user, device, auth, fallback, found, false, info, after),
        next_auth.session() == info.session,
    ensures
        after.opened(user, device, next_auth, next_fallback) == Some(info),
{
}

/// A dummy proof concludes at once every session that has a flow asking for
/// nothing else, whatever else is declared or completed.
pub proof fn law_dummy_flow_concludes(
    before: State,
    user: UserName,
    device: Seq<char>,
    auth: Submission,
    fallback: Progress,
    found: Findings,
    done: bool,
    info: Progress,
    after: State,
    f: int,
)
    requires
        before.accepts(user, device, auth, fallback, found, done, info, after),
        auth is Dummy,
        0 <= f < info.flows.len(),
        info.flows[f] == seq![Stage::Dummy],
    ensures
        done,
        info.completed.contains(Stage::Dummy),
        !after.sessions.contains_key(session_key(user, device, info.session->0)),
{
    let start = before.opened(user, device, auth, fallback)->0;
    let p = with_session(start, info.session->0);
    if !p.completed.contains(Stage::Dummy) {
        assert(p.completed.push(Stage::Dummy).last() == Stage::Dummy);
    }
    assert(flow_satisfied(info.flows[f], info.completed_set())) by {
        assert forall|s: Stage| info.flows[f].to_set().contains(s) implies s == Stage::Dummy by {
            let k = choose|k: int| 0 <= k < info.flows[f].len() && info.flows[f][k] == s;
        }
    }
}

/// What the account service found matters to no attempt but one of which
/// `password_subject` names the identity: for every other attempt the
/// refusal and the ruling are the same whatever the finding.
pub proof fn law_finding_matters_to_its_subject_only(
    state: State,
    user: UserName,
    device: Seq<char>,
    auth: Submission,
    fallback: Progress,
    one: Findings,
    other: Findings,
)
    requires
        state.password_subject(user, device, auth, fallback) is None,
        one.token_file == other.token_file,
    ensures
        state.refusal(user, device, auth, fallback, one) == state.refusal(
            user,
            device,
            auth,
            fallback,
            other,
        ),
        state.opened(user, device, auth, fallback) is Some ==> state.ruled(user, auth, one)
            == state.ruled(user, auth, other),
{
}

/// A password proof for another user's name is refused outright, whatever
/// the account service found about the password.
///
/// Where the name in the proof resolves to an identity whose local part is
/// not the caller's, the attempt ends with an error for every finding: that
/// the session does not exist, if the proof names one that is not stored,
/// and that the user does not match otherwise. No such attempt is taken,
/// with whatever answer.
pub proof fn law_foreign_password_refused(
    state: State,
    user: UserName,
    device: Seq<char>,
    auth: Submission,
    fallback: Progress,
    found: Findings,
    done: bool,
    info: Progress,
    after: State,
)
    requires
        auth is Password,
        auth.username() is Some,
        state.resolved(auth) matches Some((localpart, _)) && localpart != user.localpart,
    ensures
        state.refusal(user, device, auth, fallback, found) == Some(
            if state.opened(user, device, auth, fallback) is None {
                Error::SessionNotFound
            } else {
                Error::UserMismatch
            },
        ),
        !state.accepts(user, device, auth, fallback, found, done, info, after),
{
}

proof fn lemma_skip_white_space(s: Seq<char>, i: int)
    requires
        0 <= i <= s.len(),
    ensures
        i <= skip_white_space(s, i) <= s.len(),
        forall|k: int| i <= k < skip_white_space(s, i) ==> white_space(#[trigger] s[k]),
        skip_white_space(s, i) < s.len() ==> !white_space(s[skip_white_space(s, i)]),
    decreases s.len() - i,
{
    if i < s.len() && white_space(s[i]) {
        lemma_skip_white_space(s, i + 1);
    }
}

proof fn lemma_drop_white_space(s: Seq<char>, lo: int, j: int)
    requires
        0 <= lo <= j <= s.len(),
    ensures
        lo <= drop_white_space(s, lo, j) <= j,
        forall|k: int| drop_white_space(s, lo, j) <= k < j ==> white_space(#[trigger] s[k]),
        lo < drop_white_space(s, lo, j) ==> !white_space(s[drop_white_space(s, lo, j) - 1]),
    decreases j,
{
    if lo < j && white_space(s[j - 1]) {
        lemma_drop_white_space(s, lo, j - 1);
    }
}

/// Whitespace skipped from a position is skipped from every position up to
/// the first character that is none.
proof fn lemma_skip_to(s: Seq<char>, i: int, stop: int)
    requires
        0 <= i <= stop <= s.len(),
        forall|k: int| i <= k < stop ==> white_space(#[trigger] s[k]),
        stop < s.len() ==> !white_space(s[stop]),
    ensures
        skip_white_space(s, i) == stop,
    decreases stop - i,
{
    if i < stop {
        lemma_skip_to(s, i + 1, stop);
    }
}

proof fn lemma_drop_to(s: Seq<char>, lo: int, j: int, stop: int)
    requires
        0 <= lo <= stop <= j <= s.len(),
        forall|k: int| stop <= k < j ==> white_space(#[trigger] s[k]),
        lo < stop ==> !white_space(s[stop - 1]),
    ensures
        drop_white_space(s, lo, j) == stop,
    decreases j - stop,
{
    if stop < j {
        lemma_drop_to(s, lo, j - 1, stop);
    }
}

/// What trimming leaves: a stretch of the string with only whitespace
/// before it and after it, which neither begins nor ends with whitespace.
pub proof fn law_trimmed_is_the_core(s: Seq<char>)
    ensures
        ({
            let lo = skip_white_space(s, 0);
            let hi = drop_white_space(s, lo, s.len() as int);
            &&& 0 <= lo <= hi <= s.len()
            &&& trimmed(s) == s.subrange(lo, hi)
            &&& all_white_space(s.subrange(0, lo))
            &&& all_white_space(s.subrange(hi, s.len() as int))
            &&& trimmed(s).len() > 0 ==> !white_space(trimmed(s).first()) && !white_space(
                trimmed(s).last(),
            )
        }),
{
    lemma_skip_white_space(s, 0);
    let lo = skip_white_space(s, 0);
    lemma_drop_white_space(s, lo, s.len() as int);
}

/// Whitespace around a string does not change what trimming leaves of it.
pub proof fn law_trim_ignores_padding(left: Seq<char>, s: Seq<char>, right: Seq<char>)
    requires
        all_white_space(left),
        all_white_space(right),
    ensures
        trimmed(left + s + right) == trimmed(s),
{
    let t = left + s + right;
    let n = left.len() as int;
    lemma_skip_white_space(s, 0);
    let lo = skip_white_space(s, 0);
    lemma_drop_white_space(s, lo, s.len() as int);
    let hi = drop_white_space(s, lo, s.len() as int);
    assert forall|k: int| 0 <= k < t.len() implies #[trigger] t[k] == (if k < n {
        left[k]
    } else if k < n + s.len() {
        s[k - n]
    } else {
        right[k - n - s.len()]
    }) by {}
    if lo == s.len() {
        // nothing but whitespace
        assert forall|k: int| 0 <= k < t.len() implies white_space(#[trigger] t[k]) by {
            if n <= k < n + s.len() {
                assert(white_space(s[k - n]));
            }
        }
        lemma_skip_to(t, 0, t.len() as int);
        assert(trimmed(t) =~= trimmed(s));
    } else {
        assert(!white_space(s[lo]));
        assert(lo < hi) by {
            if hi == lo {
                assert(white_space(s[lo]));
            }
        }
        assert forall|k: int| 0 <= k < n + lo implies white_space(#[trigger] t[k]) by {
            if n <= k {
                assert(white_space(s[k - n]));
            }
        }
        lemma_skip_to(t, 0, n + lo);
        assert forall|k: int| n + hi <= k < t.len() implies white_space(#[trigger] t[k]) by {
            if k < n + s.len() {
                assert(white_space(s[k - n]));
            }
        }
        assert(t[n + hi - 1] == s[hi - 1]);
        lemma_drop_to(t, n + lo, t.len() as int, n + hi);
        assert(trimmed(t) =~= trimmed(s));
    }
}

/// A submitted token is judged without the whitespace around it, and
/// character for character: it is accepted exactly when what trimming
/// leaves of it equals one of the tokens in force.
pub proof fn law_token_matching(
    tokens: Seq<Seq<char>>,
    left: Seq<char>,
    supplied: Seq<char>,
    right: Seq<char>,
)
    requires
        all_white_space(left),
        all_white_space(right),
    ensures
        token_accepted(tokens, left + supplied + right) == token_accepted(tokens, supplied),
        token_accepted(tokens, supplied) <==> exists|i: int|
            0 <= i < tokens.len() && #[trigger] tokens[i] == trimmed(supplied),
{
    law_trim_ignores_padding(left, supplied, right);
}

/// Every word of a text holds at least one character and no ASCII
/// whitespace.
pub proof fn law_words_hold_no_space(s: Seq<char>, k: int)
    requires
        0 <= k < words(s).len(),
    ensures
        words(s)[k].len() > 0,
        no_ascii_space(words(s)[k]),
{
    lemma_words_from_hold_no_space(s, 0, k);
}

proof fn lemma_words_from_hold_no_space(s: Seq<char>, i: int, k: int)
    requires
        0 <= i,
        0 <= k < words_from(s, i).len(),
    ensures
        words_from(s, i)[k].len() > 0,
        no_ascii_space(words_from(s, i)[k]),
    decreases s.len() - i,
{
    if i < s.len() {
        if ascii_space(s[i]) {
            lemma_words_from_hold_no_space(s, i + 1, k);
        } else {
            let j = word_end(s, i + 1);
            lemma_word_end(s, i + 1);
            if k == 0 {
                assert(words_from(s, i)[0] == s.subrange(i, j));
            } else {
                assert(words_from(s, i)[k] == words_from(s, j)[k - 1]);
                lemma_words_from_hold_no_space(s, j, k - 1);
            }
        }
    }
}

proof fn lemma_word_end_at(s: Seq<char>, i: int, stop: int)
    requires
        0 <= i <= stop <= s.len(),
        forall|k: int| i <= k < stop ==> !ascii_space(#[trigger] s[k]),
        stop < s.len() ==> ascii_space(s[stop]),
    ensures
        word_end(s, i) == stop,
    decreases stop - i,
{
    if i < stop {
        lemma_word_end_at(s, i + 1, stop);
    }
}

proof fn lemma_listed_from(s: Seq<char>, i: int, start: int, w: Seq<char>)
    requires
        0 <= i <= start,
        start + w.len() <= s.len(),
        w.len() > 0,
        s.subrange(start, start + w.len()) == w,
        no_ascii_space(w),
        start == 0 || ascii_space(s[start - 1]),
        start + w.len() == s.len() || ascii_space(s[start + w.len()]),
        i == 0 || ascii_space(s[i - 1]),
    ensures
        words_from(s, i).contains(w),
    decreases s.len() - i,
{
    if i == start {
        assert forall|k: int| start <= k < start + w.len() implies !ascii_space(#[trigger] s[k]) by {
            assert(s[k] == w[k - start]);
        }
        lemma_word_end_at(s, start + 1, start + w.len());
        assert(words_from(s, i)[0] == w);
    } else if ascii_space(s[i]) {
        lemma_listed_from(s, i + 1, start, w);
    } else {
        let j = word_end(s, i + 1);
        lemma_word_end(s, i + 1);
        // the word that begins at `i` ends before `start`: the character
        // before `start` is whitespace, and the word holds none
        assert(j < start) by {
            if j >= start {
                assert(!ascii_space(s[start - 1]));
            }
        }
        assert(ascii_space(s[j]));
        lemma_listed_from(s, j + 1, start, w);
        assert(words_from(s, j) == words_from(s, j + 1));
        let rest = words_from(s, j);
        let at = choose|at: int| 0 <= at < rest.len() && rest[at] == w;
        assert(words_from(s, i)[at + 1] == w);
    }
}

/// A stretch of a text that holds no ASCII whitespace and has whitespace,
/// or the text's end, on either side is one of the text's words.
pub proof fn law_delimited_word_is_listed(before: Seq<char>, w: Seq<char>, after: Seq<char>)
    requires
        w.len() > 0,
        no_ascii_space(w),
        before.len() == 0 || ascii_space(before.last()),
        after.len() == 0 || ascii_space(after.first()),
    ensures
        words(before + w + after).contains(w),
{
    let s = before + w + after;
    let start = before.len() as int;
    assert(s.subrange(start, start + w.len()) =~= w);
    if before.len() > 0 {
        assert(s[start - 1] == before.last());
    }
    if after.len() > 0 {
        assert(s[start + w.len()] == after.first());
    }
    lemma_listed_from(s, 0, start, w);
}

/// A token that stands in the token file is in force whatever token is
/// configured, or none: a submitted token that trims to a word of the file
/// is accepted.
pub proof fn law_file_token_accepted(
    file: Seq<char>,
    fixed: Option<Seq<char>>,
    supplied: Seq<char>,
)
    requires
        words(file).contains(trimmed(supplied)),
    ensures
        token_accepted(token_list(Some(file), fixed), supplied),
{
    let listed = words(file);
    let i = choose|i: int| 0 <= i < listed.len() && listed[i] == trimmed(supplied);
    match fixed {
        Some(token) => {
            assert(listed.push(token)[i] == trimmed(supplied));
        },
        None => {},
    }
}

/// A token that is written in the token file, set off by ASCII whitespace or
/// the file's ends, is accepted with or without a configured token, and with
/// whatever whitespace around it.
pub proof fn law_token_only_in_file(
    before: Seq<char>,
    token: Seq<char>,
    after: Seq<char>,
    fixed: Option<Seq<char>>,
    supplied: Seq<char>,
)
    requires
        token.len() > 0,
        no_ascii_space(token),
        before.len() == 0 || ascii_space(before.last()),
        after.len() == 0 || ascii_space(after.first()),
        trimmed(supplied) == token,
    ensures
        token_accepted(token_list(Some(before + token + after), fixed), supplied),
{
    law_delimited_word_is_listed(before, token, after);
    law_file_token_accepted(before + token + after, fixed, supplied);
}

/// The configured token is in force whatever the token file holds.
pub proof fn law_fixed_token_accepted(
    file: Option<Seq<char>>,
    fixed: Seq<char>,
    supplied: Seq<char>,
)
    requires
        trimmed(supplied) == fixed,
    ensures
        token_accepted(token_list(file, Some(fixed)), supplied),
{
    let all = token_list(file, Some(fixed));
    assert(all[all.len() - 1] == fixed);
}

/// A URL of another scheme than `http` and `https` is never previewed, nor
/// one without a host.
pub proof fn law_only_web_urls_are_previewed(
    rules: Rules,
    scheme: Seq<char>,
    host: Option<Seq<char>>,
    text: Seq<char>,
)
    requires
        (scheme != "http"@ && scheme != "https"@) || host is None,
    ensures
        !rules.allowed(scheme, host, text),
{
}

/// Unless an allow list holds `*`, a host on the deny list is never
/// previewed, whatever the allow lists say of it or of the URL.
pub proof fn law_denied_host_is_refused(
    rules: Rules,
    scheme: Seq<char>,
    host: Seq<char>,
    text: Seq<char>,
)
    requires
        !rules.allows_all(),
        rules.domain_explicit_denylist.contains(host),
    ensures
        !rules.allowed(scheme, Some(host), text),
{
}

/// With `*` on an allow list every `http` and `https` URL with a host is
/// previewed, whatever the deny list holds.
pub proof fn law_star_allows_all(rules: Rules, scheme: Seq<char>, host: Seq<char>, text: Seq<char>)
    requires
        scheme == "http"@ || scheme == "https"@,
        rules.allows_all(),
    ensures
        rules.allowed(scheme, Some(host), text),
{
}

} // verus!
