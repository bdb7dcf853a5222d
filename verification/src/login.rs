//! Login: the failed-attempt counter and the wipe it can trigger, the
//! reading of the server's answer, and the WebSocket address of a session.
use vstd::prelude::*;

use crate::api_error::{ApiError, ApiErrorView, LoginErrorBody, VersionOutdated};
use crate::text::{parse_u64, parse_u64_spec, push_str, str_eq};

verus! {

/// Failures allowed before a wipe when nothing was configured.
pub const DEFAULT_MAX_ATTEMPTS: u32 = 10;

/// Failed logins per user, and each user's wipe setting.
pub struct LoginAttempts {
    fail_counts: Vec<(String, u32)>,
    wipe_configs: Vec<(String, (bool, u32))>,
}

/// The keys of a list of entries.
pub open spec fn keys_of<V>(entries: Seq<(String, V)>) -> Seq<Seq<char>> {
    entries.map_values(|e: (String, V)| e.0@)
}

/// The map that a list of entries with distinct keys stands for.
pub open spec fn map_of<V>(entries: Seq<(String, V)>) -> Map<Seq<char>, V>
    decreases entries.len(),
{
    if entries.len() == 0 {
        Map::empty()
    } else {
        map_of(entries.drop_last()).insert(entries.last().0@, entries.last().1)
    }
}

proof fn lemma_map_of_contains<V>(entries: Seq<(String, V)>, k: Seq<char>)
    ensures
        map_of(entries).contains_key(k) <==> keys_of(entries).contains(k),
    decreases entries.len(),
{
    if entries.len() > 0 {
        let p = entries.drop_last();
        lemma_map_of_contains(p, k);
        assert(keys_of(entries)[entries.len() - 1] == entries.last().0@);
        if keys_of(p).contains(k) {
            let i = choose|i: int| 0 <= i < keys_of(p).len() && keys_of(p)[i] == k;
            assert(keys_of(entries)[i] == k);
        }
        if keys_of(entries).contains(k) {
            let i = choose|i: int| 0 <= i < keys_of(entries).len() && keys_of(entries)[i] == k;
            if i < p.len() {
                assert(keys_of(p)[i] == k);
            }
        }
    }
}

proof fn lemma_map_of_index<V>(entries: Seq<(String, V)>, i: int)
    requires
        0 <= i < entries.len(),
        keys_of(entries).no_duplicates(),
    ensures
        map_of(entries).contains_key(entries[i].0@),
        map_of(entries)[entries[i].0@] == entries[i].1,
    decreases entries.len(),
{
    let p = entries.drop_last();
    if i < entries.len() - 1 {
        assert(keys_of(p).no_duplicates()) by {
            assert forall|a: int, b: int| 0 <= a < b < keys_of(p).len() implies keys_of(p)[a]
                != keys_of(p)[b] by {
                assert(keys_of(p)[a] == keys_of(entries)[a]);
                assert(keys_of(p)[b] == keys_of(entries)[b]);
            }
        }
        lemma_map_of_index(p, i);
        assert(keys_of(entries)[i] != keys_of(entries)[entries.len() - 1]);
    }
}

proof fn lemma_map_of_set<V>(entries: Seq<(String, V)>, i: int, v: V)
    requires
        0 <= i < entries.len(),
        keys_of(entries).no_duplicates(),
    ensures
        map_of(entries.update(i, (entries[i].0, v))) == map_of(entries).insert(entries[i].0@, v),
        keys_of(entries.update(i, (entries[i].0, v))) == keys_of(entries),
    decreases entries.len(),
{
    let u = entries.update(i, (entries[i].0, v));
    assert(keys_of(u) =~= keys_of(entries));
    let p = entries.drop_last();
    if i == entries.len() - 1 {
        assert(u.drop_last() =~= p);
        lemma_map_of_contains(p, entries[i].0@);
        assert(!keys_of(p).contains(entries[i].0@)) by {
            if keys_of(p).contains(entries[i].0@) {
                let j = choose|j: int| 0 <= j < keys_of(p).len() && keys_of(p)[j] == entries[i].0@;
                assert(keys_of(entries)[j] == keys_of(entries)[i]);
            }
        }
        assert(map_of(u) =~= map_of(entries).insert(entries[i].0@, v));
    } else {
        assert(keys_of(p).no_duplicates()) by {
            assert forall|a: int, b: int| 0 <= a < b < keys_of(p).len() implies keys_of(p)[a]
                != keys_of(p)[b] by {
                assert(keys_of(p)[a] == keys_of(entries)[a]);
                assert(keys_of(p)[b] == keys_of(entries)[b]);
            }
        }
        lemma_map_of_set(p, i, v);
        assert(u.drop_last() =~= p.update(i, (entries[i].0, v)));
        assert(keys_of(entries)[i] != keys_of(entries)[entries.len() - 1]);
        assert(map_of(u) =~= map_of(entries).insert(entries[i].0@, v));
    }
}

proof fn lemma_map_of_remove<V>(entries: Seq<(String, V)>, i: int)
    requires
        0 <= i < entries.len(),
        keys_of(entries).no_duplicates(),
    ensures
        map_of(entries.remove(i)) == map_of(entries).remove(entries[i].0@),
        keys_of(entries.remove(i)).no_duplicates(),
    decreases entries.len(),
{
    let r = entries.remove(i);
    let k = entries[i].0@;
    assert(keys_of(r) =~= keys_of(entries).remove(i));
    assert(keys_of(r).no_duplicates()) by {
        assert forall|a: int, b: int| 0 <= a < b < keys_of(r).len() implies keys_of(r)[a]
            != keys_of(r)[b] by {
            let a2 = if a < i { a } else { a + 1 };
            let b2 = if b < i { b } else { b + 1 };
            assert(keys_of(r)[a] == keys_of(entries)[a2]);
            assert(keys_of(r)[b] == keys_of(entries)[b2]);
        }
    }
    let p = entries.drop_last();
    assert(keys_of(p).no_duplicates()) by {
        assert forall|a: int, b: int| 0 <= a < b < keys_of(p).len() implies keys_of(p)[a]
            != keys_of(p)[b] by {
            assert(keys_of(p)[a] == keys_of(entries)[a]);
            assert(keys_of(p)[b] == keys_of(entries)[b]);
        }
    }
    if i == entries.len() - 1 {
        assert(r =~= p);
        lemma_map_of_contains(p, k);
        assert(!keys_of(p).contains(k)) by {
            if keys_of(p).contains(k) {
                let j = choose|j: int| 0 <= j < keys_of(p).len() && keys_of(p)[j] == k;
                assert(keys_of(entries)[j] == keys_of(entries)[i]);
            }
        }
        assert(map_of(p) =~= map_of(entries).remove(k));
    } else {
        lemma_map_of_remove(p, i);
        assert(r.drop_last() =~= p.remove(i));
        assert(r.last() == entries.last());
        assert(keys_of(entries)[i] != keys_of(entries)[entries.len() - 1]);
        assert(map_of(r) =~= map_of(entries).remove(k));
    }
}

/// Position of the entry for `key`, if any.
fn find_entry<V>(entries: &Vec<(String, V)>, key: &str) -> (r: Option<usize>)
    ensures
        match r {
            Some(i) => i < entries@.len() && entries@[i as int].0@ == key@,
            None => !keys_of(entries@).contains(key@),
        },
{
    let mut i: usize = 0;
    while i < entries.len()
        invariant
            i <= entries@.len(),
            forall|j: int| 0 <= j < i ==> entries@[j].0@ != key@,
        decreases entries.len() - i,
    {
        if str_eq(entries[i].0.as_str(), key) {
            return Some(i);
        }
        i = i + 1;
    }
    proof {
        if keys_of(entries@).contains(key@) {
            let j = choose|j: int| 0 <= j < keys_of(entries@).len() && keys_of(entries@)[j] == key@;
            assert(entries@[j].0@ == key@);
        }
    }
    None
}

impl LoginAttempts {
    /// Failed attempts per user name.
    pub closed spec fn counts(&self) -> Map<Seq<char>, u32> {
        map_of(self.fail_counts@)
    }

    /// Wipe setting (enabled, maximum attempts) per user name.
    pub closed spec fn wipe_configs(&self) -> Map<Seq<char>, (bool, u32)> {
        map_of(self.wipe_configs@)
    }

    /// Each user name occurs once in each table.
    pub closed spec fn well_formed(&self) -> bool {
        &&& keys_of(self.fail_counts@).no_duplicates()
        &&& keys_of(self.wipe_configs@).no_duplicates()
    }

    /// The wipe setting of a user: the configured one, else disabled with 10
    /// attempts.
    pub open spec fn wipe_config_of(&self, username: Seq<char>) -> (bool, u32) {
        if self.wipe_configs().contains_key(username) {
            self.wipe_configs()[username]
        } else {
            (false, DEFAULT_MAX_ATTEMPTS)
        }
    }

    /// The failures counted for a user (0 when none).
    pub open spec fn count_of(&self, username: Seq<char>) -> u32 {
        if self.counts().contains_key(username) {
            self.counts()[username]
        } else {
            0
        }
    }

    /// No failures and no settings yet.
    pub fn new() -> (r: LoginAttempts)
        ensures
            r.well_formed(),
            r.counts() == Map::<Seq<char>, u32>::empty(),
            r.wipe_configs() == Map::<Seq<char>, (bool, u32)>::empty(),
    {
        LoginAttempts { fail_counts: Vec::new(), wipe_configs: Vec::new() }
    }

    /// Sets the wipe setting of a user.
    pub fn set_wipe_config(&mut self, username: &str, enabled: bool, max_attempts: u32)
        requires
            old(self).well_formed(),
        ensures
            final(self).well_formed(),
            final(self).counts() == old(self).counts(),
            final(self).wipe_configs() == old(self).wipe_configs().insert(
                username@,
                (enabled, max_attempts),
            ),
    {
        match find_entry(&self.wipe_configs, username) {
            Some(i) => {
                let ghost before = self.wipe_configs@;
                let key = self.wipe_configs[i].0.clone();
                proof {
                    lemma_map_of_set(before, i as int, (enabled, max_attempts));
                }
                self.wipe_configs.set(i, (key, (enabled, max_attempts)));
                assert(self.wipe_configs@ =~= before.update(i as int, (before[i as int].0, (enabled, max_attempts))));
            },
            None => {
                let ghost before = self.wipe_configs@;
                self.wipe_configs.push((username.to_owned(), (enabled, max_attempts)));
                proof {
                    assert(self.wipe_configs@.drop_last() =~= before);
                    assert(keys_of(self.wipe_configs@) =~= keys_of(before).push(username@));
                    assert forall|a: int, b: int|
                        0 <= a < b < keys_of(self.wipe_configs@).len() implies keys_of(
                        self.wipe_configs@,
                    )[a] != keys_of(self.wipe_configs@)[b] by {
                        if b == keys_of(before).len() {
                            assert(keys_of(before)[a] == keys_of(self.wipe_configs@)[a]);
                        }
                    }
                }
            },
        }
    }

    /// Counts a failed login. When the user's wipe is enabled and the count
    /// reaches the maximum, the counter is dropped and the answer is `true`:
    /// the caller wipes the user's data.
    pub fn record_failure(&mut self, username: &str) -> (wipe: bool)
        requires
            old(self).well_formed(),
            old(self).count_of(username@) < u32::MAX,
        ensures
            final(self).well_formed(),
            final(self).wipe_configs() == old(self).wipe_configs(),
            ({
                let n = old(self).count_of(username@) + 1;
                let (enabled, max) = old(self).wipe_config_of(username@);
                &&& wipe == (enabled && n >= max)
                &&& wipe ==> final(self).counts() == old(self).counts().remove(username@)
                &&& !wipe ==> final(self).counts() == old(self).counts().insert(username@, n as u32)
                &&& wipe ==> final(self).count_of(username@) == 0
                &&& !wipe ==> final(self).count_of(username@) == n
            }),
            forall|u: Seq<char>|
                u != username@ ==> #[trigger] final(self).count_of(u) == old(self).count_of(u),
    {
        let ghost before = self.fail_counts@;
        let count: u32 = match find_entry(&self.fail_counts, username) {
            Some(i) => {
                proof {
                    lemma_map_of_index(before, i as int);
                }
                let c = self.fail_counts[i].1 + 1;
                let key = self.fail_counts[i].0.clone();
                proof {
                    lemma_map_of_set(before, i as int, c);
                }
                self.fail_counts.set(i, (key, c));
                assert(self.fail_counts@ =~= before.update(i as int, (before[i as int].0, c)));
                c
            },
            None => {
                proof {
                    lemma_map_of_contains(before, username@);
                }
                self.fail_counts.push((username.to_owned(), 1));
                proof {
                    assert(self.fail_counts@.drop_last() =~= before);
                    assert(keys_of(self.fail_counts@) =~= keys_of(before).push(username@));
                    assert forall|a: int, b: int|
                        0 <= a < b < keys_of(self.fail_counts@).len() implies keys_of(
                        self.fail_counts@,
                    )[a] != keys_of(self.fail_counts@)[b] by {
                        if b == keys_of(before).len() {
                            assert(keys_of(before)[a] == keys_of(self.fail_counts@)[a]);
                        }
                    }
                }
                1
            },
        };
        let (enabled, max_attempts) = match find_entry(&self.wipe_configs, username) {
            Some(i) => {
                proof {
                    lemma_map_of_index(self.wipe_configs@, i as int);
                }
                self.wipe_configs[i].1
            },
            None => {
                proof {
                    lemma_map_of_contains(self.wipe_configs@, username@);
                }
                (false, DEFAULT_MAX_ATTEMPTS)
            },
        };
        if enabled && count >= max_attempts {
            self.reset_fail_counter(username);
            proof {
                assert(old(self).counts().insert(username@, count).remove(username@) =~= old(
                    self,
                ).counts().remove(username@));
            }
            true
        } else {
            false
        }
    }

    /// Forgets the failures of a user (after a successful login), whatever
    /// came before; the other users' counts are kept.
    pub fn reset_fail_counter(&mut self, username: &str)
        requires
            old(self).well_formed(),
        ensures
            final(self).well_formed(),
            final(self).wipe_configs() == old(self).wipe_configs(),
            final(self).counts() == old(self).counts().remove(username@),
            final(self).count_of(username@) == 0,
            forall|u: Seq<char>|
                u != username@ ==> #[trigger] final(self).count_of(u) == old(self).count_of(u),
    {
        match find_entry(&self.fail_counts, username) {
            Some(i) => {
                let ghost before = self.fail_counts@;
                proof {
                    lemma_map_of_remove(before, i as int);
                }
                self.fail_counts.remove(i);
            },
            None => {
                proof {
                    lemma_map_of_contains(self.fail_counts@, username@);
                    assert(self.counts().remove(username@) =~= self.counts());
                }
            },
        }
    }

    /// The failures counted for a user.
    pub fn fail_count(&self, username: &str) -> (r: u32)
        requires
            self.well_formed(),
        ensures
            r == self.count_of(username@),
    {
        match find_entry(&self.fail_counts, username) {
            Some(i) => {
                proof {
                    lemma_map_of_index(self.fail_counts@, i as int);
                }
                self.fail_counts[i].1
            },
            None => {
                proof {
                    lemma_map_of_contains(self.fail_counts@, username@);
                }
                0
            },
        }
    }
}

/// Whether the server's answer to a login proof lets the user in, or why not.
pub open spec fn login_answer_error(
    version_outdated: Option<(Seq<char>, Seq<char>)>,
    success: bool,
    error_message: Seq<char>,
) -> Option<Seq<char>> {
    match version_outdated {
        Some((min_v, latest_v)) => Some(
            "VERSION_OUTDATED:"@ + if min_v.len() > 0 {
                min_v
            } else {
                latest_v
            },
        ),
        None => if success {
            None
        } else {
            Some("Login failed: "@ + error_message)
        },
    }
}

/// Reads the server's answer to a login proof: an outdated client is refused
/// first (with the minimum version, or else the latest), then a failure.
pub fn check_login_answer(
    version_outdated: Option<(String, String)>,
    success: bool,
    error_message: &str,
) -> (r: Result<(), String>)
    ensures
        match r {
            Ok(()) => login_answer_error(
                match version_outdated {
                    Some((a, b)) => Some((a@, b@)),
                    None => None,
                },
                success,
                error_message@,
            ) is None,
            Err(m) => login_answer_error(
                match version_outdated {
                    Some((a, b)) => Some((a@, b@)),
                    None => None,
                },
                success,
                error_message@,
            ) == Some(m@),
        },
{
    match version_outdated {
        Some((min_v, latest_v)) => {
            let mut m = String::new();
            push_str(&mut m, "VERSION_OUTDATED:");
            if !min_v.as_str().is_empty() {
                push_str(&mut m, min_v.as_str());
            } else {
                push_str(&mut m, latest_v.as_str());
            }
            Err(m)
        },
        None => {
            if success {
                Ok(())
            } else {
                let mut m = String::new();
                push_str(&mut m, "Login failed: ");
                push_str(&mut m, error_message);
                Err(m)
            }
        },
    }
}

/// The version a refused client is told to reach: the minimum version when
/// the server gives one, else the latest.
pub open spec fn required_version(o: VersionOutdated) -> Seq<char> {
    if o.min_version@.len() > 0 {
        o.min_version@
    } else {
        o.latest_version@
    }
}

/// Refuses a login response that says the client is outdated.
pub fn check_version_outdated(outdated: &Option<VersionOutdated>) -> (r: Result<(), ApiError>)
    ensures
        r is Ok <==> outdated is None,
        r matches Err(e) ==> e@ == ApiErrorView::Server(
            400,
            "VERSION_OUTDATED:"@ + required_version(outdated->0),
        ),
{
    match outdated {
        Some(o) => {
            let mut m = String::new();
            push_str(&mut m, "VERSION_OUTDATED:");
            if !o.min_version.as_str().is_empty() {
                push_str(&mut m, o.min_version.as_str());
            } else {
                push_str(&mut m, o.latest_version.as_str());
            }
            Err(ApiError::Server(400, m))
        },
        None => Ok(()),
    }
}

/// The two requests of a login: the challenge, then the proof.
#[derive(Debug, Clone, Copy, PartialEq, Eq, Structural)]
pub enum LoginStep {
    Challenge,
    Proof,
}

/// Reads a login response of the API: an outdated client is refused first;
/// then a failed challenge is a server error 400 and a failed proof an
/// authentication failure, both with the server's message.
pub fn check_login_response(
    outdated: &Option<VersionOutdated>,
    success: bool,
    error_message: &str,
    step: LoginStep,
) -> (r: Result<(), ApiError>)
    ensures
        outdated matches Some(o) ==> (r matches Err(e) && e@ == ApiErrorView::Server(
            400,
            "VERSION_OUTDATED:"@ + required_version(*o),
        )),
        outdated is None && success ==> r is Ok,
        outdated is None && !success && step == LoginStep::Challenge ==> (r matches Err(e) && e@
            == ApiErrorView::Server(400, error_message@)),
        outdated is None && !success && step == LoginStep::Proof ==> (r matches Err(e) && e@
            == ApiErrorView::AuthenticationFailed(error_message@)),
{
    match check_version_outdated(outdated) {
        Err(e) => Err(e),
        Ok(()) => {
            if success {
                Ok(())
            } else {
                match step {
                    LoginStep::Challenge => Err(ApiError::Server(400, error_message.to_owned())),
                    LoginStep::Proof => Err(ApiError::AuthenticationFailed(error_message.to_owned())),
                }
            }
        },
    }
}

/// The error of a login request that the DHT answered with a failure: when
/// its payload held a login response, an outdated client is refused first
/// (as a server error 400), else the response's message is reported with the
/// HTTP status; otherwise the DHT's own message is.
pub fn login_dht_failure(status: u16, dht_error_message: String, login: Option<LoginErrorBody>) -> (r:
    ApiError)
    ensures
        match login {
            Some(l) => match l.version_outdated {
                Some(o) => r@ == ApiErrorView::Server(400, "VERSION_OUTDATED:"@ + required_version(o)),
                None => r@ == ApiErrorView::Server(status, l.error_message@),
            },
            None => r@ == ApiErrorView::Server(status, dht_error_message@),
        },
{
    match login {
        Some(l) => match check_version_outdated(&l.version_outdated) {
            Err(e) => e,
            Ok(()) => ApiError::Server(status, l.error_message),
        },
        None => ApiError::Server(status, dht_error_message),
    }
}

/// Whether a failed server authentication still lets the user in: only a
/// device paired to another one logs in locally (its server account is gone).
pub fn local_login_allowed(paired_devices: usize) -> (r: bool)
    ensures
        r == (paired_devices > 0),
{
    paired_devices > 0
}

/// What a WebSocket connection needs.
#[derive(Debug, Clone)]
pub struct WsAuthData {
    pub user_hash: String,
    pub session_token: String,
    pub ws_url: String,
}

/// Every non-overlapping occurrence of `from` (scanned from the left)
/// replaced by `to`.
pub open spec fn replace_all(s: Seq<char>, from: Seq<char>, to: Seq<char>) -> Seq<char>
    recommends
        from.len() > 0,
    decreases s.len(),
{
    if from.len() == 0 || s.len() < from.len() {
        s
    } else if s.take(from.len() as int) == from {
        to + replace_all(s.skip(from.len() as int), from, to)
    } else {
        seq![s[0]] + replace_all(s.drop_first(), from, to)
    }
}

fn chars_of(s: &str) -> (r: Vec<char>)
    ensures
        r@ == s@,
{
    let mut out: Vec<char> = Vec::new();
    for c in it: s.chars()
        invariant
            it.seq() == s@,
            out@ == s@.take(it.index()),
    {
        out.push(c);
        assert(s@.take(it.index() + 1) =~= s@.take(it.index()).push(c));
    }
    assert(s@.take(s@.len() as int) =~= s@);
    out
}

/// `s` with every occurrence of `from` replaced by `to` (as `str::replace`
/// does for a non-empty pattern).
pub fn replace_text(s: &str, from: &str, to: &str) -> (r: String)
    requires
        from@.len() > 0,
    ensures
        r@ == replace_all(s@, from@, to@),
{
    let sc = chars_of(s);
    let fc = chars_of(from);
    let mut out = String::new();
    let mut i: usize = 0;
    assert(sc@.skip(0) =~= sc@);
    assert(out@ + replace_all(sc@, fc@, to@) =~= replace_all(sc@, fc@, to@));
    while i < sc.len()
        invariant
            i <= sc@.len(),
            sc@ == s@,
            fc@ == from@,
            fc@.len() > 0,
            out@ + replace_all(sc@.skip(i as int), fc@, to@) == replace_all(s@, from@, to@),
        decreases sc.len() - i,
    {
        let ghost rest = sc@.skip(i as int);
        let mut matched = sc.len() - i >= fc.len();
        if matched {
            let mut j: usize = 0;
            while j < fc.len()
                invariant
                    j <= fc.len(),
                    i + fc.len() <= sc.len(),
                    matched == (forall|t: int| 0 <= t < j ==> sc@[i + t] == fc@[t]),
                decreases fc.len() - j,
            {
                if sc[i + j] != fc[j] {
                    matched = false;
                }
                j = j + 1;
            }
        }
        if matched {
            assert(rest.take(fc@.len() as int) =~= fc@);
            assert(rest.skip(fc@.len() as int) =~= sc@.skip(i + fc@.len()));
            push_str(&mut out, to);
            i = i + fc.len();
        } else {
            proof {
                if rest.len() >= fc@.len() && rest.take(fc@.len() as int) == fc@ {
                    let t = choose|t: int| 0 <= t < fc@.len() && sc@[i + t] != fc@[t];
                    assert(rest.take(fc@.len() as int)[t] == sc@[i + t]);
                }
                assert(rest.drop_first() =~= sc@.skip(i + 1));
                assert(out@.push(sc@[i as int]) + replace_all(sc@.skip(i + 1), fc@, to@) =~= out@
                    + (seq![rest[0]] + replace_all(rest.drop_first(), fc@, to@)));
            }
            crate::text::push_char(&mut out, sc[i]);
            i = i + 1;
        }
    }
    proof {
        assert(sc@.skip(i as int).len() == 0);
        assert(out@ + Seq::<char>::empty() =~= out@);
    }
    out
}

/// The WebSocket address of the API: `https://` becomes `wss://`, else
/// `http://` becomes `ws://` (every occurrence, as a text replacement).
pub open spec fn ws_url_spec(base_url: Seq<char>) -> Seq<char> {
    if crate::messages::text_starts_with(base_url, "https://"@) {
        replace_all(base_url, "https://"@, "wss://"@)
    } else {
        replace_all(base_url, "http://"@, "ws://"@)
    }
}

/// The WebSocket address of the API.
pub fn ws_url_for(base_url: &str) -> (r: String)
    ensures
        r@ == ws_url_spec(base_url@),
{
    proof {
        reveal_strlit("https://");
        reveal_strlit("http://");
    }
    if crate::messages::starts_with(base_url, "https://") {
        replace_text(base_url, "https://", "wss://")
    } else {
        replace_text(base_url, "http://", "ws://")
    }
}

/// Checks the stored session expiry: a stored expiry that reads as a number
/// and lies before `now` means the session has expired.
pub fn check_session_expiry(expiry: Option<String>, now: u64) -> (r: Result<(), String>)
    ensures
        match expiry {
            Some(e) => match parse_u64_spec(e@) {
                Some(t) => (r is Ok <==> now <= t),
                None => r is Ok,
            },
            None => r is Ok,
        },
        r matches Err(m) ==> m@ == "Session expired. Please login again."@,
{
    match expiry {
        Some(e) => match parse_u64(e.as_str()) {
            Some(t) => {
                if now > t {
                    Err("Session expired. Please login again.".to_owned())
                } else {
                    Ok(())
                }
            },
            None => Ok(()),
        },
        None => Ok(()),
    }
}

/// The message of a local login whose database could not be opened: an
/// unknown user and a wrong password get the same answer, so that the answer
/// does not tell which user names exist.
pub open spec fn local_open_message(e: crate::db::DbError) -> Seq<char> {
    match e {
        crate::db::DbError::UserNotFound(_) => "Invalid username or password"@,
        crate::db::DbError::InvalidPassword => "Invalid username or password"@,
        _ => "Failed to open user database"@,
    }
}

/// The message of a local login whose database could not be opened.
pub fn local_open_error(e: &crate::db::DbError) -> (r: String)
    ensures
        r@ == local_open_message(*e),
{
    match e {
        crate::db::DbError::UserNotFound(_) => "Invalid username or password".to_owned(),
        crate::db::DbError::InvalidPassword => "Invalid username or password".to_owned(),
        _ => "Failed to open user database".to_owned(),
    }
}

/// The bytes a login proof signs: the server's nonce, the user hash and the
/// time stamp (little-endian).
pub fn login_proof_message(nonce: &[u8], username_hash: &[u8], timestamp: u64) -> (r: Vec<u8>)
    ensures
        r@ == nonce@ + username_hash@ + crate::bytes::le64(timestamp),
{
    let mut v: Vec<u8> = Vec::new();
    crate::bytes::extend_bytes(&mut v, nonce);
    crate::bytes::extend_bytes(&mut v, username_hash);
    crate::bytes::extend_bytes(&mut v, &crate::bytes::u64_le(timestamp));
    v
}

} // verus!
