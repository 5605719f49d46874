//! Access control of the web server: failed-attempt rate limiting per client
//! address, session tokens, access-code hashing and verification, the checks on
//! request headers, and the routing and authentication decisions.

use vstd::prelude::*;
use vstd::string::StringSliceAdditionalSpecFns;
use crate::assoc::{entry_of, keys_unique, lemma_entry_at, lemma_entry_none, lemma_entry_push, lemma_entry_remove, lemma_entry_update};
use crate::text::{chars_eq, chars_eq_str, chars_of, extend_chars, extend_str, find_char, find_char_from, is_prefix, lemma_find_char_bounds, slice_chars, spec_decimal, decimal, starts_with, string_from_chars, trim, trim_chars};

verus! {

/// Maximum failed auth attempts per address before rate limiting kicks in.
pub const MAX_FAILED_ATTEMPTS: usize = 5;
/// Window for rate limiting, in nanoseconds: older failed attempts are forgotten.
pub const RATE_LIMIT_WINDOW_NS: u64 = 60_000_000_000;
/// Lockout duration after too many failed attempts, in nanoseconds.
pub const LOCKOUT_DURATION_NS: u64 = 30_000_000_000;
/// Sessions expire after 24 hours (in nanoseconds).
pub const SESSION_TTL_NS: u64 = 86_400_000_000_000;
/// Number of characters of a session token.
pub const TOKEN_LEN: usize = 32;
pub const NANOS_PER_SEC: u64 = 1_000_000_000;

/// A client address.
#[derive(Clone, Copy, Debug, PartialEq, Eq, Structural)]
pub enum IpKey {
    V4(u32),
    V6(u128),
}

/// Time from `t` to `now`, zero when `t` lies ahead (as `Instant::duration_since`).
pub open spec fn since(now: u64, t: u64) -> u64 {
    if now >= t { (now - t) as u64 } else { 0 }
}

/// The failed attempts still inside the rate-limit window at `now`, in order.
pub open spec fn recent(ts: Seq<u64>, now: u64) -> Seq<u64>
    decreases ts.len(),
{
    if ts.len() == 0 {
        seq![]
    } else {
        recent(ts.drop_last(), now) + if since(now, ts.last()) < RATE_LIMIT_WINDOW_NS {
            seq![ts.last()]
        } else {
            seq![]
        }
    }
}

/// The seconds an address with these failed attempts stays locked out at `now`:
/// with at least five recent attempts, the time left until thirty seconds after the
/// last one, in whole seconds but at least one; `None` when not locked out.
pub open spec fn spec_lockout(ts: Seq<u64>, now: u64) -> Option<u64> {
    let r = recent(ts, now);
    if r.len() >= MAX_FAILED_ATTEMPTS && since(now, r.last()) < LOCKOUT_DURATION_NS {
        let secs = ((LOCKOUT_DURATION_NS - since(now, r.last())) / NANOS_PER_SEC as int) as u64;
        Some(if secs < 1 { 1 } else { secs })
    } else {
        None
    }
}

proof fn lemma_recent_idempotent(s: Seq<u64>, now: u64)
    ensures
        recent(recent(s, now), now) == recent(s, now),
    decreases s.len(),
{
    if s.len() > 0 {
        lemma_recent_idempotent(s.drop_last(), now);
        let r0 = recent(s.drop_last(), now);
        if since(now, s.last()) < RATE_LIMIT_WINDOW_NS {
            assert(r0.push(s.last()).drop_last() =~= r0);
            assert(recent(s, now) =~= r0.push(s.last()));
        } else {
            assert(recent(s, now) =~= r0);
        }
    }
}

/// The attempts of an address after one more failure at `now`.
pub open spec fn after_failure(ts: Seq<u64>, now: u64) -> Seq<u64> {
    recent(ts, now).push(now)
}

/// Law: five failed attempts of an address at one instant lock it out at that instant
/// for the full thirty seconds, whatever it had failed before.
pub proof fn lemma_five_failures_lock_out(ts: Seq<u64>, now: u64)
    ensures
        spec_lockout(
            after_failure(after_failure(after_failure(after_failure(after_failure(ts, now), now), now), now), now),
            now,
        ) == Some(30u64),
{
    let a1 = after_failure(ts, now);
    let a2 = after_failure(a1, now);
    let a3 = after_failure(a2, now);
    let a4 = after_failure(a3, now);
    let a5 = after_failure(a4, now);
    assert forall|x: Seq<u64>| #[trigger] recent(x.push(now), now) == recent(x, now).push(now) by {
        assert(x.push(now).drop_last() =~= x);
    }
    lemma_recent_idempotent(ts, now);
    lemma_recent_idempotent(a1.drop_last(), now);
    assert(recent(a1, now) == a1);
    assert(recent(a2, now) == a2);
    assert(recent(a3, now) == a3);
    assert(recent(a4, now) == a4);
    assert(recent(a5, now) == a5);
    assert(a5.len() >= 5);
    assert(a5.last() == now);
}

/// Failed authentication attempts per client address.
pub struct RateLimiter {
    entries: Vec<(IpKey, Vec<u64>)>,
}


impl RateLimiter {
    pub closed spec fn entries_view(&self) -> Seq<(IpKey, Seq<u64>)> {
        self.entries@.map_values(|e: (IpKey, Vec<u64>)| (e.0, e.1@))
    }

    /// The failed attempts recorded for an address (empty when none).
    pub open spec fn attempts(&self, ip: IpKey) -> Seq<u64> {
        match entry_of(self.entries_view(), ip) {
            Some(ts) => ts,
            None => seq![],
        }
    }

    pub open spec fn has_entry(&self, ip: IpKey) -> bool {
        entry_of(self.entries_view(), ip) is Some
    }

    pub closed spec fn wf(&self) -> bool {
        keys_unique(self.entries_view())
    }

    pub fn new() -> (r: RateLimiter)
        ensures
            r.wf(),
            forall|ip: IpKey| !r.has_entry(ip),
    {
        let r = RateLimiter { entries: Vec::new() };
        assert(r.entries_view() =~= Seq::<(IpKey, Seq<u64>)>::empty());
        r
    }

    fn find(&self, ip: IpKey) -> (r: Option<usize>)
        requires
            self.wf(),
        ensures
            r matches Some(i) ==> i < self.entries@.len() && self.entries@[i as int].0 == ip
                && entry_of(self.entries_view(), ip) == Some(self.entries@[i as int].1@),
            r is None ==> entry_of(self.entries_view(), ip) is None,
    {
        let mut i: usize = 0;
        while i < self.entries.len()
            invariant
                i <= self.entries@.len(),
                self.wf(),
                forall|k: int| 0 <= k < i ==> self.entries_view()[k].0 != ip,
            decreases self.entries@.len() - i,
        {
            if self.entries[i].0 == ip {
                proof {
                    lemma_entry_at(self.entries_view(), ip, i as int);
                }
                return Some(i);
            }
            i = i + 1;
        }
        proof {
            lemma_entry_none(self.entries_view(), ip);
        }
        None
    }

    /// Stores `ts` as the attempts of `ip`, leaving every other address as it was.
    fn store(&mut self, ip: IpKey, ts: Vec<u64>)
        requires
            old(self).wf(),
        ensures
            final(self).wf(),
            final(self).attempts(ip) == ts@,
            final(self).has_entry(ip),
            forall|other: IpKey| other != ip ==> final(self).attempts(other) == old(self).attempts(other)
                && final(self).has_entry(other) == old(self).has_entry(other),
    {
        let ghost e0 = self.entries_view();
        match self.find(ip) {
            Some(i) => {
                self.entries.set(i, (ip, ts));
                proof {
                    assert(self.entries_view() =~= e0.update(i as int, (e0[i as int].0, ts@)));
                    assert forall|a: int| 0 <= a < e0.len() implies #[trigger] self.entries_view()[a].0 == e0[a].0 by {}
                    assert(keys_unique(self.entries_view()));
                    assert forall|other: IpKey| other != ip implies entry_of(self.entries_view(), other) == entry_of(e0, other) by {
                        lemma_entry_update(e0, i as int, ts@, other);
                    }
                    lemma_entry_at(self.entries_view(), ip, i as int);
                }
            },
            None => {
                let ghost ts_view = ts@;
                self.entries.push((ip, ts));
                proof {
                    lemma_entry_none(e0, ip);
                    assert(self.entries_view() =~= e0.push((ip, ts_view)));
                    assert forall|other: IpKey| true implies entry_of(self.entries_view(), other)
                        == if other == ip { Some(ts_view) } else { entry_of(e0, other) } by {
                        lemma_entry_push(e0, ip, ts_view, other);
                    }
                }
            },
        }
    }

    /// The recorded attempts of `ip` still inside the window at `now`.
    fn recent_of(&self, i: usize, now: u64) -> (r: Vec<u64>)
        requires
            i < self.entries@.len(),
        ensures
            r@ == recent(self.entries@[i as int].1@, now),
    {
        let ts = &self.entries[i].1;
        let mut out: Vec<u64> = Vec::new();
        let mut k: usize = 0;
        while k < ts.len()
            invariant
                k <= ts@.len(),
                ts@ == self.entries@[i as int].1@,
                out@ == recent(ts@.take(k as int), now),
            decreases ts@.len() - k,
        {
            let t = ts[k];
            let el: u64 = if now >= t { now - t } else { 0 };
            assert(ts@.take(k + 1).drop_last() == ts@.take(k as int));
            if el < RATE_LIMIT_WINDOW_NS {
                out.push(t);
            }
            k = k + 1;
        }
        assert(ts@.take(k as int) == ts@);
        out
    }

    /// Returns how many seconds `ip` stays locked out at `now`, if it is; forgets the
    /// attempts of `ip` that fell out of the window.
    pub fn lockout_remaining(&mut self, ip: IpKey, now: u64) -> (r: Option<u64>)
        requires
            old(self).wf(),
        ensures
            final(self).wf(),
            r == spec_lockout(old(self).attempts(ip), now),
            final(self).attempts(ip) == recent(old(self).attempts(ip), now),
            final(self).has_entry(ip) == old(self).has_entry(ip),
            forall|other: IpKey| other != ip ==> final(self).attempts(other) == old(self).attempts(other)
                && final(self).has_entry(other) == old(self).has_entry(other),
    {
        match self.find(ip) {
            None => {
                assert(recent(Seq::<u64>::empty(), now) =~= Seq::<u64>::empty());
                None
            },
            Some(i) => {
                let kept = self.recent_of(i, now);
                let n = kept.len();
                let result = if n >= MAX_FAILED_ATTEMPTS {
                    let last = kept[n - 1];
                    let el: u64 = if now >= last { now - last } else { 0 };
                    if el < LOCKOUT_DURATION_NS {
                        let secs = (LOCKOUT_DURATION_NS - el) / NANOS_PER_SEC;
                        Some(if secs < 1 { 1 } else { secs })
                    } else {
                        None
                    }
                } else {
                    None
                };
                self.store(ip, kept);
                result
            },
        }
    }

    /// Records a failed attempt of `ip` at `now`, forgetting its attempts that fell
    /// out of the window.
    pub fn record_failure(&mut self, ip: IpKey, now: u64)
        requires
            old(self).wf(),
        ensures
            final(self).wf(),
            final(self).attempts(ip) == recent(old(self).attempts(ip), now).push(now),
            final(self).has_entry(ip),
            forall|other: IpKey| other != ip ==> final(self).attempts(other) == old(self).attempts(other)
                && final(self).has_entry(other) == old(self).has_entry(other),
    {
        let mut kept = match self.find(ip) {
            None => {
                assert(recent(Seq::<u64>::empty(), now) =~= Seq::<u64>::empty());
                Vec::new()
            },
            Some(i) => self.recent_of(i, now),
        };
        kept.push(now);
        self.store(ip, kept);
    }

    /// Whether `ip` is locked out at `now`.
    pub fn is_locked_out(&mut self, ip: IpKey, now: u64) -> (r: bool)
        requires
            old(self).wf(),
        ensures
            final(self).wf(),
            r == spec_lockout(old(self).attempts(ip), now) is Some,
            forall|other: IpKey| other != ip ==> final(self).attempts(other) == old(self).attempts(other),
    {
        self.lockout_remaining(ip, now).is_some()
    }
}

#[verifier::external_type_specification]
#[verifier::external_body]
pub struct ExThreadRng(rand::rngs::ThreadRng);

/// The thread-local random number generator, by `rand::thread_rng`.
#[verifier::external_body]
fn thread_rng() -> rand::rngs::ThreadRng {
    rand::thread_rng()
}

/// A uniformly random number below `bound`, by `Rng::gen_range(0..bound)`; the
/// documentation promises a value in the range and panics on an empty range.
#[verifier::external_body]
fn gen_below(rng: &mut rand::rngs::ThreadRng, bound: u8) -> (r: u8)
    requires
        bound > 0,
    ensures
        r < bound,
{
    rand::Rng::gen_range(rng, 0..bound)
}

/// Whether a character belongs to the standard Base64 alphabet.
pub open spec fn is_b64_char(c: char) -> bool {
    ('A' <= c <= 'Z') || ('a' <= c <= 'z') || ('0' <= c <= '9') || c == '+' || c == '/'
}

/// Whether `s` has the shape of a salt that `SaltString::generate` makes: sixteen
/// bytes in unpadded standard Base64, that is 22 characters of the alphabet whose
/// last one carries two data bits and four zero bits (`A`, `Q`, `g` or `w`).
pub open spec fn is_generated_salt(s: Seq<char>) -> bool {
    &&& s.len() == 22
    &&& forall|i: int| 0 <= i < s.len() ==> is_b64_char(#[trigger] s[i])
    &&& (s[21] == 'A' || s[21] == 'Q' || s[21] == 'g' || s[21] == 'w')
}

/// A fresh random salt in its Base64 text form, by `SaltString::generate`, which
/// encodes sixteen random bytes with unpadded standard Base64. Claims the shape of
/// such an encoding; the bytes themselves are random.
#[verifier::external_body]
fn generate_salt(rng: &mut rand::rngs::ThreadRng) -> (r: String)
    ensures
        is_generated_salt(r@),
{
    argon2::password_hash::SaltString::generate(rng).as_str().to_owned()
}

/// Name for whether argon2 (default parameters) accepts `code` against the PHC
/// string `phc`, as `PasswordHash::new` and `PasswordVerifier::verify_password` decide.
pub uninterp spec fn phc_verifies(code: Seq<char>, phc: Seq<char>) -> bool;

/// Hashes `code` with argon2 (default parameters) and the Base64 salt `salt` (taken
/// as a `Salt` by `Salt::from_b64`), by `PasswordHasher::hash_password`, giving the
/// PHC string. Claims that the string it gives verifies `code` (verification
/// recomputes the hash with the parameters and salt the string carries), and that
/// hashing succeeds for a password of at most `MAX_PWD_LEN` (2^32 - 1) bytes with a
/// salt of the generated shape: such a salt passes `Salt::from_b64` (4 to 64
/// characters of the PHC salt alphabet) and decodes to sixteen bytes, within
/// argon2's salt limits, and argon2 refuses a password only above `MAX_PWD_LEN`.
#[verifier::external_body]
fn argon2_hash(code: &str, salt: &str) -> (r: Option<String>)
    ensures
        r matches Some(h) ==> phc_verifies(code@, h@),
        (code.spec_bytes().len() <= 0xFFFF_FFFF && is_generated_salt(salt@)) ==> r is Some,
{
    let salt = match argon2::password_hash::Salt::from_b64(salt) {
        Ok(s) => s,
        Err(_) => return None,
    };
    match argon2::PasswordHasher::hash_password(&argon2::Argon2::default(), code.as_bytes(), salt) {
        Ok(h) => Some(h.to_string()),
        Err(_) => None,
    }
}

/// Checks `code` against the PHC string `phc` with argon2 (default parameters), by
/// `PasswordHash::new` and `PasswordVerifier::verify_password`; a string that does
/// not parse verifies nothing. Claims the answer is the named function of both, and
/// that only a string starting with the PHC separator `$` can verify (`parse` refuses
/// an empty string and one whose first field before `$` is not empty).
#[verifier::external_body]
fn argon2_verify(code: &str, phc: &str) -> (r: bool)
    ensures
        r == phc_verifies(code@, phc@),
        r ==> phc@.len() > 0 && phc@[0] == '$',
{
    match argon2::PasswordHash::new(phc) {
        Ok(parsed) => argon2::PasswordVerifier::verify_password(&argon2::Argon2::default(), code.as_bytes(), &parsed).is_ok(),
        Err(_) => false,
    }
}

/// Hashes an access code with a random salt; `None` only for a code longer than
/// argon2 takes (more than 2^32 - 1 bytes).
pub fn hash_access_code(code: &str) -> (r: Option<String>)
    ensures
        r matches Some(h) ==> phc_verifies(code@, h@),
        code.spec_bytes().len() <= 0xFFFF_FFFF ==> r is Some,
{
    let mut rng = thread_rng();
    let salt = generate_salt(&mut rng);
    argon2_hash(code, salt.as_str())
}

/// Verifies an access code against its stored hash; a hash that does not start
/// with `$` (no PHC string) verifies nothing.
pub fn verify_access_code(code: &str, hash: &str) -> (r: bool)
    ensures
        r == phc_verifies(code@, hash@),
        r ==> hash@.len() > 0 && hash@[0] == '$',
{
    argon2_verify(code, hash)
}

/// The character of a token digit below 36: `0`-`9`, then `a`-`z`.
pub open spec fn spec_token_char(idx: nat) -> char {
    if idx < 10 {
        ((48 + idx) as u8) as char
    } else {
        ((97 + idx - 10) as u8) as char
    }
}

/// Whether a token is 32 lower-case letters and digits.
pub open spec fn is_token(t: Seq<char>) -> bool {
    &&& t.len() == TOKEN_LEN
    &&& forall|i: int| 0 <= i < t.len() ==> ('0' <= #[trigger] t[i] <= '9' || 'a' <= t[i] <= 'z')
}

/// Whether every draw is a token digit (below 36).
pub open spec fn draws_ok(d: Seq<u8>) -> bool {
    forall|i: int| 0 <= i < d.len() ==> #[trigger] d[i] < 36
}

/// The characters that draws stand for.
pub open spec fn token_of(d: Seq<u8>) -> Seq<char> {
    d.map_values(|x: u8| spec_token_char(x as nat))
}

/// The character of a token digit.
pub fn token_char(idx: u8) -> (c: char)
    requires
        idx < 36,
    ensures
        c == spec_token_char(idx as nat),
{
    if idx < 10 { (48 + idx) as char } else { (97 + idx - 10) as char }
}

/// Law: 32 token digits make a token.
pub proof fn lemma_token_of_is_token(d: Seq<u8>)
    requires
        d.len() == TOKEN_LEN,
        draws_ok(d),
    ensures
        is_token(token_of(d)),
{
    assert forall|i: int| 0 <= i < token_of(d).len() implies ('0' <= #[trigger] token_of(d)[i] <= '9'
        || 'a' <= token_of(d)[i] <= 'z') by {
        assert(d[i] < 36);
    }
}

/// The token that a sequence of draws stands for, one character per draw.
pub fn token_from_draws(d: &[u8]) -> (r: String)
    requires
        draws_ok(d@),
    ensures
        r@ == token_of(d@),
{
    let mut chars: Vec<char> = Vec::new();
    let mut i: usize = 0;
    while i < d.len()
        invariant
            i <= d@.len(),
            draws_ok(d@),
            chars@ == token_of(d@.take(i as int)),
        decreases d@.len() - i,
    {
        let c = token_char(d[i]);
        chars.push(c);
        assert(token_of(d@.take(i + 1)) =~= token_of(d@.take(i as int)).push(c));
        i = i + 1;
    }
    assert(d@.take(i as int) =~= d@);
    string_from_chars(chars.as_slice())
}

/// A random session token of 32 lower-case letters and digits: 32 draws below 36,
/// each made a character by `token_from_draws`.
pub fn random_token() -> (r: String)
    ensures
        is_token(r@),
        exists|d: Seq<u8>| d.len() == TOKEN_LEN && draws_ok(d) && r@ == token_of(d),
{
    let mut rng = thread_rng();
    let mut draws: Vec<u8> = Vec::new();
    let mut i: usize = 0;
    while i < TOKEN_LEN
        invariant
            i <= TOKEN_LEN,
            draws@.len() == i,
            draws_ok(draws@),
        decreases TOKEN_LEN - i,
    {
        let idx = gen_below(&mut rng, 36);
        draws.push(idx);
        i = i + 1;
    }
    let r = token_from_draws(draws.as_slice());
    proof {
        lemma_token_of_is_token(draws@);
    }
    r
}

/// Authenticated sessions: random tokens and when each was created (nanoseconds).
pub struct SessionStore {
    tokens: Vec<(String, u64)>,
}

/// Whether a session created at `created` is still valid at `now`.
pub open spec fn session_live(created: u64, now: u64) -> bool {
    since(now, created) < SESSION_TTL_NS
}

impl SessionStore {
    pub closed spec fn table(&self) -> Seq<(Seq<char>, u64)> {
        self.tokens@.map_values(|e: (String, u64)| (e.0@, e.1))
    }

    /// When the session with this token was created, if there is one.
    pub open spec fn created(&self, token: Seq<char>) -> Option<u64> {
        entry_of(self.table(), token)
    }

    pub closed spec fn wf(&self) -> bool {
        keys_unique(self.table())
    }

    pub fn new() -> (r: SessionStore)
        ensures
            r.wf(),
            forall|t: Seq<char>| r.created(t) is None,
    {
        let r = SessionStore { tokens: Vec::new() };
        assert(r.table() =~= Seq::<(Seq<char>, u64)>::empty());
        r
    }

    /// Invalidates every session.
    pub fn clear(&mut self)
        ensures
            final(self).wf(),
            forall|t: Seq<char>| final(self).created(t) is None,
    {
        self.tokens.clear();
        assert(self.table() =~= Seq::<(Seq<char>, u64)>::empty());
    }

    fn find(&self, token: &String) -> (r: Option<usize>)
        requires
            self.wf(),
        ensures
            r matches Some(i) ==> i < self.tokens@.len() && self.tokens@[i as int].0@ == token@
                && self.created(token@) == Some(self.tokens@[i as int].1),
            r is None ==> self.created(token@) is None,
    {
        let mut i: usize = 0;
        while i < self.tokens.len()
            invariant
                i <= self.tokens@.len(),
                self.wf(),
                forall|k: int| 0 <= k < i ==> self.table()[k].0 != token@,
            decreases self.tokens@.len() - i,
        {
            if self.tokens[i].0 == *token {
                proof {
                    lemma_entry_at(self.table(), token@, i as int);
                }
                return Some(i);
            }
            i = i + 1;
        }
        proof {
            lemma_entry_none(self.table(), token@);
        }
        None
    }

    /// Records a session with `token` created at `now`, replacing any with the same
    /// token.
    pub fn insert(&mut self, token: String, now: u64)
        requires
            old(self).wf(),
        ensures
            final(self).wf(),
            final(self).created(token@) == Some(now),
            forall|t: Seq<char>| t != token@ ==> final(self).created(t) == old(self).created(t),
    {
        let ghost e0 = self.table();
        let ghost tv = token@;
        match self.find(&token) {
            Some(i) => {
                self.tokens.set(i, (token, now));
                proof {
                    assert(self.table() =~= e0.update(i as int, (e0[i as int].0, now)));
                    assert forall|a: int| 0 <= a < e0.len() implies #[trigger] self.table()[a].0 == e0[a].0 by {}
                    assert forall|t: Seq<char>| t != tv implies entry_of(self.table(), t) == entry_of(e0, t) by {
                        lemma_entry_update(e0, i as int, now, t);
                    }
                    lemma_entry_at(self.table(), tv, i as int);
                }
            },
            None => {
                self.tokens.push((token, now));
                proof {
                    lemma_entry_none(e0, tv);
                    assert(self.table() =~= e0.push((tv, now)));
                    assert forall|t: Seq<char>| true implies entry_of(self.table(), t)
                        == if t == tv { Some(now) } else { entry_of(e0, t) } by {
                        lemma_entry_push(e0, tv, now, t);
                    }
                }
            },
        }
    }

    /// Creates a session at `now` with a fresh random token and returns the token.
    pub fn create_session(&mut self, now: u64) -> (r: String)
        requires
            old(self).wf(),
        ensures
            final(self).wf(),
            is_token(r@),
            final(self).created(r@) == Some(now),
            forall|t: Seq<char>| t != r@ ==> final(self).created(t) == old(self).created(t),
    {
        let token = random_token();
        let out = token.clone();
        self.insert(token, now);
        out
    }

    /// Whether `token` names a session still valid at `now`; an expired session is
    /// removed.
    pub fn is_valid(&mut self, token: &str, now: u64) -> (r: bool)
        requires
            old(self).wf(),
        ensures
            final(self).wf(),
            r == (old(self).created(token@) matches Some(c) && session_live(c, now)),
            final(self).created(token@) == if r { old(self).created(token@) } else { None },
            forall|t: Seq<char>| t != token@ ==> final(self).created(t) == old(self).created(t),
    {
        let key = token.to_owned();
        match self.find(&key) {
            None => false,
            Some(i) => {
                let created = self.tokens[i].1;
                let el: u64 = if now >= created { now - created } else { 0 };
                if el < SESSION_TTL_NS {
                    true
                } else {
                    let ghost e0 = self.table();
                    self.tokens.remove(i);
                    proof {
                        assert(self.table() =~= e0.remove(i as int));
                        assert forall|t: Seq<char>| true implies entry_of(self.table(), t)
                            == if t == e0[i as int].0 { None } else { entry_of(e0, t) } by {
                            lemma_entry_remove(e0, i as int, t);
                        }
                        lemma_entry_remove(e0, i as int, key@);
                    }
                    false
                }
            },
        }
    }
}

/// The characters of an optional string slice.
pub open spec fn str_opt(o: Option<&str>) -> Option<Seq<char>> {
    match o {
        Some(s) => Some(s@),
        None => None,
    }
}

/// The characters of an optional string.
pub open spec fn string_opt(o: Option<String>) -> Option<Seq<char>> {
    match o {
        Some(s) => Some(s@),
        None => None,
    }
}

/// Whether `s` holds "://" at `i`.
pub open spec fn scheme_sep_at(s: Seq<char>, i: int) -> bool {
    0 <= i && i + 3 <= s.len() && s[i] == ':' && s[i + 1] == '/' && s[i + 2] == '/'
}

/// The index of the first "://" of `s` at or after `i`.
pub open spec fn scheme_sep_from(s: Seq<char>, i: int) -> Option<int>
    decreases s.len() - i,
{
    if i < 0 || i + 3 > s.len() {
        None
    } else if scheme_sep_at(s, i) {
        Some(i)
    } else {
        scheme_sep_from(s, i + 1)
    }
}

proof fn lemma_scheme_sep_bounds(s: Seq<char>, i: int)
    requires
        0 <= i,
    ensures
        scheme_sep_from(s, i) matches Some(k) ==> i <= k && k + 3 <= s.len(),
    decreases s.len() - i,
{
    if i + 3 <= s.len() && !scheme_sep_at(s, i) {
        lemma_scheme_sep_bounds(s, i + 1);
    }
}

/// The authority of an Origin header value: what follows the first "://" (the whole
/// value when there is none), up to the first '/'.
pub open spec fn origin_authority(origin: Seq<char>) -> Seq<char> {
    let rest = match scheme_sep_from(origin, 0) {
        Some(i) => origin.skip(i + 3),
        None => origin,
    };
    rest.take(find_char_from(rest, '/', 0))
}

/// Whether a WebSocket upgrade with these Origin and Host header values is accepted:
/// always without an Origin (or with an empty one), else exactly when the origin's
/// authority is non-empty and equals a non-empty Host.
pub open spec fn spec_origin_matches_host(origin: Option<Seq<char>>, host: Option<Seq<char>>) -> bool {
    match origin {
        None => true,
        Some(o) => if o.len() == 0 {
            true
        } else {
            let h = match host {
                Some(h) => h,
                None => Seq::<char>::empty(),
            };
            h.len() > 0 && origin_authority(o).len() > 0 && origin_authority(o) == h
        },
    }
}

fn find_scheme_sep(s: &[char]) -> (r: Option<usize>)
    ensures
        match r {
            Some(i) => scheme_sep_from(s@, 0) == Some(i as int),
            None => scheme_sep_from(s@, 0) is None,
        },
{
    let mut i: usize = 0;
    while i < s.len() && s.len() - i >= 3
        invariant
            i <= s@.len(),
            scheme_sep_from(s@, 0) == scheme_sep_from(s@, i as int),
        decreases s@.len() - i,
    {
        if s[i] == ':' && s[i + 1] == '/' && s[i + 2] == '/' {
            return Some(i);
        }
        i = i + 1;
    }
    None
}

/// Compares a WebSocket upgrade's Origin and Host header values (`None` for a header
/// that is missing or not visible ASCII).
pub fn ws_origin_matches_host(origin: Option<&str>, host: Option<&str>) -> (r: bool)
    ensures
        r == spec_origin_matches_host(str_opt(origin), str_opt(host)),
{
    let o = match origin {
        None => return true,
        Some(o) => o,
    };
    let oc = chars_of(o);
    if oc.len() == 0 {
        return true;
    }
    let hc = match host {
        Some(h) => chars_of(h),
        None => Vec::new(),
    };
    let rest = match find_scheme_sep(oc.as_slice()) {
        Some(i) => {
            proof {
                lemma_scheme_sep_bounds(oc@, 0);
            }
            let r = slice_chars(oc.as_slice(), i + 3, oc.len());
            assert(r@ =~= oc@.skip(i + 3));
            r
        },
        None => oc,
    };
    let end = find_char(rest.as_slice(), '/', 0);
    proof {
        lemma_find_char_bounds(rest@, '/', 0);
    }
    let auth = slice_chars(rest.as_slice(), 0, end);
    assert(auth@ =~= rest@.take(end as int));
    hc.len() > 0 && auth.len() > 0 && chars_eq(auth.as_slice(), hc.as_slice())
}

/// The name of the session cookie followed by '='.
pub open spec fn session_cookie_prefix() -> Seq<char> {
    seq!['r', 'y', 'l', 'u', 's', '_', 's', 'e', 's', 's', 'i', 'o', 'n', '=']
}

/// The session token of a Cookie header value, looking at its ';'-separated parts
/// from `start` on: the value of the first trimmed part that starts with
/// `rylus_session=`.
pub open spec fn cookie_token_from(s: Seq<char>, start: int) -> Option<Seq<char>>
    decreases s.len() - start,
{
    if start < 0 || start > s.len() {
        None
    } else {
        let end = find_char_from(s, ';', start);
        let part = trim(s.subrange(start, end));
        if is_prefix(session_cookie_prefix(), part) {
            Some(part.skip(session_cookie_prefix().len() as int))
        } else if end < s.len() {
            proof {
                lemma_find_char_bounds(s, ';', start);
            }
            cookie_token_from(s, end + 1)
        } else {
            None
        }
    }
}

/// The session token of an optional Cookie header value.
pub open spec fn spec_session_token(cookie: Option<Seq<char>>) -> Option<Seq<char>> {
    match cookie {
        Some(c) => cookie_token_from(c, 0),
        None => None,
    }
}

/// Extracts the session token from a Cookie header value (`None` for a header that
/// is missing or not visible ASCII).
pub fn extract_session_token(cookie: Option<&str>) -> (r: Option<String>)
    ensures
        string_opt(r) == spec_session_token(str_opt(cookie)),
{
    let c = match cookie {
        None => return None,
        Some(c) => c,
    };
    let cs = chars_of(c);
    let prefix = chars_of("rylus_session=");
    proof {
        reveal_strlit("rylus_session=");
        assert(prefix@ =~= session_cookie_prefix());
    }
    let mut start: usize = 0;
    loop
        invariant
            start <= cs@.len(),
            cs@ == c@,
            str_opt(cookie) == Some(cs@),
            prefix@ == session_cookie_prefix(),
            cookie_token_from(cs@, 0) == cookie_token_from(cs@, start as int),
        decreases cs@.len() - start,
    {
        let end = find_char(cs.as_slice(), ';', start);
        proof {
            lemma_find_char_bounds(cs@, ';', start as int);
        }
        let part = slice_chars(cs.as_slice(), start, end);
        let t = trim_chars(part.as_slice());
        assert(cookie_token_from(cs@, start as int) == if is_prefix(session_cookie_prefix(), t@) {
            Some(t@.skip(session_cookie_prefix().len() as int))
        } else if end < cs@.len() {
            cookie_token_from(cs@, end + 1)
        } else {
            None::<Seq<char>>
        });
        if starts_with(t.as_slice(), prefix.as_slice()) {
            let v = slice_chars(t.as_slice(), prefix.len(), t.len());
            assert(v@ =~= t@.skip(prefix@.len() as int));
            return Some(string_from_chars(v.as_slice()));
        }
        if end >= cs.len() {
            return None;
        }
        start = end + 1;
    }
}

/// Whether a request is authenticated: always when no access code is configured,
/// else when its cookie names a live session (an expired one is dropped).
pub fn request_authed(sessions: &mut SessionStore, access_code_set: bool, cookie: Option<&str>, now: u64) -> (r: bool)
    requires
        old(sessions).wf(),
    ensures
        final(sessions).wf(),
        r == (!access_code_set || (spec_session_token(str_opt(cookie)) matches Some(t)
            && old(sessions).created(t) matches Some(c) && session_live(c, now))),
        match spec_session_token(str_opt(cookie)) {
            Some(t) if access_code_set => final(sessions).created(t) == (if r { old(sessions).created(t) } else { None })
                && forall|u: Seq<char>| u != t ==> final(sessions).created(u) == old(sessions).created(u),
            _ => *final(sessions) == *old(sessions),
        },
{
    if !access_code_set {
        return true;
    }
    match extract_session_token(cookie) {
        Some(t) => sessions.is_valid(t.as_str(), now),
        None => false,
    }
}

/// The method of an HTTP request, as far as routing tells them apart.
#[derive(Clone, Copy, Debug, PartialEq, Eq, Structural)]
pub enum HttpMethod {
    Get,
    Post,
    Other,
}

/// What the web server answers a request with.
#[derive(Clone, Copy, Debug, PartialEq, Eq, Structural)]
pub enum Route {
    /// 401 with a plain-text body: the settings page or the config API without auth.
    Unauthorized,
    Settings,
    GetConfig,
    PostConfig,
    /// The access-code submission flow.
    Auth,
    NotFound,
    /// The access-code page, for `/` without auth.
    AccessPage,
    Index,
    /// 401 for a WebSocket upgrade without auth.
    WsUnauthorized,
    /// 403 for a WebSocket upgrade whose Origin does not match its Host.
    WsForbidden,
    WsUpgrade,
    StyleCss,
    LibJs,
    ServiceWorker,
    Manifest,
}

/// The routing decision of the web server.
pub open spec fn spec_route(method: HttpMethod, path: Seq<char>, access_code_set: bool, authed: bool, origin_ok: bool) -> Route {
    if method == HttpMethod::Get && path == "/settings"@ {
        if authed { Route::Settings } else { Route::Unauthorized }
    } else if method == HttpMethod::Get && path == "/api/config"@ {
        if authed { Route::GetConfig } else { Route::Unauthorized }
    } else if method == HttpMethod::Post && path == "/api/config"@ {
        if authed { Route::PostConfig } else { Route::Unauthorized }
    } else if method == HttpMethod::Post && path == "/auth"@ && access_code_set {
        Route::Auth
    } else if method != HttpMethod::Get {
        Route::NotFound
    } else if path == "/"@ {
        if authed { Route::Index } else { Route::AccessPage }
    } else if path == "/ws"@ {
        if !authed {
            Route::WsUnauthorized
        } else if !origin_ok {
            Route::WsForbidden
        } else {
            Route::WsUpgrade
        }
    } else if path == "/style.css"@ {
        Route::StyleCss
    } else if path == "/lib.js"@ {
        Route::LibJs
    } else if path == "/sw.js"@ {
        Route::ServiceWorker
    } else if path == "/manifest.webmanifest"@ {
        Route::Manifest
    } else {
        Route::NotFound
    }
}

/// Routes a request by method and path, given whether an access code is configured,
/// whether the request is authenticated and whether its Origin matches its Host.
pub fn route(method: HttpMethod, path: &str, access_code_set: bool, authed: bool, origin_ok: bool) -> (r: Route)
    ensures
        r == spec_route(method, path@, access_code_set, authed, origin_ok),
{
    let p = chars_of(path);
    let p = p.as_slice();
    let is_get = method == HttpMethod::Get;
    let is_post = method == HttpMethod::Post;
    if is_get && chars_eq_str(p, "/settings") {
        if authed { Route::Settings } else { Route::Unauthorized }
    } else if is_get && chars_eq_str(p, "/api/config") {
        if authed { Route::GetConfig } else { Route::Unauthorized }
    } else if is_post && chars_eq_str(p, "/api/config") {
        if authed { Route::PostConfig } else { Route::Unauthorized }
    } else if is_post && chars_eq_str(p, "/auth") && access_code_set {
        Route::Auth
    } else if !is_get {
        Route::NotFound
    } else if chars_eq_str(p, "/") {
        if authed { Route::Index } else { Route::AccessPage }
    } else if chars_eq_str(p, "/ws") {
        if !authed {
            Route::WsUnauthorized
        } else if !origin_ok {
            Route::WsForbidden
        } else {
            Route::WsUpgrade
        }
    } else if chars_eq_str(p, "/style.css") {
        Route::StyleCss
    } else if chars_eq_str(p, "/lib.js") {
        Route::LibJs
    } else if chars_eq_str(p, "/sw.js") {
        Route::ServiceWorker
    } else if chars_eq_str(p, "/manifest.webmanifest") {
        Route::Manifest
    } else {
        Route::NotFound
    }
}

/// The (name, value) pairs of decoded form data.
pub open spec fn pairs_view(p: Seq<(String, String)>) -> Seq<(Seq<char>, Seq<char>)> {
    p.map_values(|e: (String, String)| (e.0@, e.1@))
}

/// Name for the (name, value) pairs that `application/x-www-form-urlencoded` data
/// decodes to, as `form_urlencoded::parse` gives them, in order.
pub uninterp spec fn form_decode(body: Seq<u8>) -> Seq<(Seq<char>, Seq<char>)>;

/// Decodes form data, by `url::form_urlencoded::parse`; claims the pairs are the
/// named decoding of the bytes.
#[verifier::external_body]
fn form_pairs(body: &[u8]) -> (r: Vec<(String, String)>)
    ensures
        pairs_view(r@) == form_decode(body@),
{
    url::form_urlencoded::parse(body).into_owned().collect()
}

/// The value of the last pair named `key` (later pairs override earlier ones).
pub open spec fn last_value_of(pairs: Seq<(Seq<char>, Seq<char>)>, key: Seq<char>) -> Option<Seq<char>>
    decreases pairs.len(),
{
    if pairs.len() == 0 {
        None
    } else if pairs.last().0 == key {
        Some(pairs.last().1)
    } else {
        last_value_of(pairs.drop_last(), key)
    }
}

/// The value of the last pair named `key`.
pub fn form_value(pairs: &Vec<(String, String)>, key: &str) -> (r: Option<String>)
    ensures
        string_opt(r) == last_value_of(pairs_view(pairs@), key@),
{
    let k = key.to_owned();
    let mut i: usize = pairs.len();
    assert(pairs_view(pairs@).take(i as int) =~= pairs_view(pairs@));
    while i > 0
        invariant
            i <= pairs@.len(),
            k@ == key@,
            last_value_of(pairs_view(pairs@), key@) == last_value_of(pairs_view(pairs@).take(i as int), key@),
        decreases i,
    {
        let ghost pv = pairs_view(pairs@);
        assert(pv.take(i as int).drop_last() =~= pv.take(i - 1));
        if pairs[i - 1].0 == k {
            return Some(pairs[i - 1].1.clone());
        }
        i = i - 1;
    }
    None
}

/// The access code submitted in form data: the last `access_code` field.
pub fn form_access_code(body: &[u8]) -> (r: Option<String>)
    ensures
        string_opt(r) == last_value_of(form_decode(body@), "access_code"@),
{
    let pairs = form_pairs(body);
    form_value(&pairs, "access_code")
}

/// Whether a submitted access code is accepted against the stored hash: it is
/// present, non-empty and verifies.
pub open spec fn code_accepted(code: Option<Seq<char>>, hash: Seq<char>) -> bool {
    code matches Some(c) && c.len() > 0 && phc_verifies(c, hash)
}

/// How an access-code submission ends.
pub enum AuthOutcome {
    /// The code was accepted; a session was created with this token.
    Authenticated(String),
    /// The code was refused; with the lockout seconds when the address is now
    /// rate limited.
    Rejected(Option<u64>),
}

/// What a submission leaves behind, given whether its code was accepted: on
/// acceptance a new session (and the rate limiter untouched), else one more failure
/// of the address (and the sessions untouched).
pub open spec fn auth_concluded(
    l0: RateLimiter,
    l1: RateLimiter,
    s0: SessionStore,
    s1: SessionStore,
    ip: IpKey,
    now: u64,
    accepted: bool,
    r: AuthOutcome,
) -> bool {
    &&& l1.wf()
    &&& s1.wf()
    &&& accepted ==> {
        &&& r matches AuthOutcome::Authenticated(t) && is_token(t@) && s1.created(t@) == Some(now)
            && forall|u: Seq<char>| u != t@ ==> s1.created(u) == s0.created(u)
        &&& l1 == l0
    }
    &&& !accepted ==> {
        &&& r == AuthOutcome::Rejected(spec_lockout(after_failure(l0.attempts(ip), now), now))
        &&& l1.attempts(ip) == recent(after_failure(l0.attempts(ip), now), now)
        &&& l1.has_entry(ip)
        &&& forall|other: IpKey| other != ip ==> l1.attempts(other) == l0.attempts(other)
            && l1.has_entry(other) == l0.has_entry(other)
        &&& s1 == s0
    }
}

/// Concludes an access-code submission from `ip` at `now`, given whether the code was
/// accepted.
pub fn conclude_auth(limiter: &mut RateLimiter, sessions: &mut SessionStore, ip: IpKey, now: u64, accepted: bool) -> (r: AuthOutcome)
    requires
        old(limiter).wf(),
        old(sessions).wf(),
    ensures
        auth_concluded(*old(limiter), *final(limiter), *old(sessions), *final(sessions), ip, now, accepted, r),
{
    if accepted {
        let token = sessions.create_session(now);
        AuthOutcome::Authenticated(token)
    } else {
        limiter.record_failure(ip, now);
        let retry = limiter.lockout_remaining(ip, now);
        AuthOutcome::Rejected(retry)
    }
}

/// Handles the form data of an access-code submission from `ip` at `now` against the
/// stored hash (after the caller found the address not locked out).
pub fn authenticate(limiter: &mut RateLimiter, sessions: &mut SessionStore, ip: IpKey, now: u64, body: &[u8], hash: &str) -> (r: AuthOutcome)
    requires
        old(limiter).wf(),
        old(sessions).wf(),
    ensures
        auth_concluded(*old(limiter), *final(limiter), *old(sessions), *final(sessions), ip, now,
            code_accepted(last_value_of(form_decode(body@), "access_code"@), hash@), r),
{
    let code = form_access_code(body);
    let accepted = match &code {
        Some(c) => !c.as_str().is_empty() && verify_access_code(c.as_str(), hash),
        None => false,
    };
    conclude_auth(limiter, sessions, ip, now, accepted)
}

/// The redirect target for a rate-limited address.
pub fn rate_limited_location(retry: u64) -> (r: String)
    ensures
        r@ == "/?auth_error=rate_limited&retry="@ + spec_decimal(retry as nat),
{
    let mut v = chars_of("/?auth_error=rate_limited&retry=");
    let d = decimal(retry);
    extend_chars(&mut v, d.as_slice());
    string_from_chars(v.as_slice())
}

/// The redirect target after an access-code submission.
pub fn auth_location(outcome: &AuthOutcome) -> (r: String)
    ensures
        r@ == match outcome {
            AuthOutcome::Authenticated(_) => "/"@,
            AuthOutcome::Rejected(Some(retry)) => "/?auth_error=rate_limited&retry="@ + spec_decimal(*retry as nat),
            AuthOutcome::Rejected(None) => "/?auth_error=invalid"@,
        },
{
    match outcome {
        AuthOutcome::Authenticated(_) => "/".to_owned(),
        AuthOutcome::Rejected(Some(retry)) => rate_limited_location(*retry),
        AuthOutcome::Rejected(None) => "/?auth_error=invalid".to_owned(),
    }
}

/// The Set-Cookie value that carries a session token.
pub fn session_cookie(token: &str) -> (r: String)
    ensures
        r@ == "rylus_session="@ + token@ + "; HttpOnly; SameSite=Strict; Path=/; Max-Age=86400"@,
{
    let mut v = chars_of("rylus_session=");
    extend_str(&mut v, token);
    extend_str(&mut v, "; HttpOnly; SameSite=Strict; Path=/; Max-Age=86400");
    string_from_chars(v.as_slice())
}

/// Applies a submitted access-code change to the configured code: `None` leaves it,
/// `Some(c)` sets it to `c`. A code that differs from the current one invalidates
/// every session. Returns whether the code changed.
pub fn apply_access_code_update(current: &mut Option<String>, update: Option<Option<String>>, sessions: &mut SessionStore) -> (rotated: bool)
    requires
        old(sessions).wf(),
    ensures
        final(sessions).wf(),
        match update {
            None => !rotated && string_opt(*final(current)) == string_opt(*old(current)),
            Some(c) => string_opt(*final(current)) == string_opt(c)
                && rotated == (string_opt(*old(current)) != string_opt(c)),
        },
        rotated ==> forall|t: Seq<char>| final(sessions).created(t) is None,
        !rotated ==> *final(sessions) == *old(sessions),
{
    match update {
        None => false,
        Some(code) => {
            let same = match (&*current, &code) {
                (Some(a), Some(b)) => *a == *b,
                (None, None) => true,
                _ => false,
            };
            *current = code;
            if !same {
                sessions.clear();
            }
            !same
        },
    }
}

/// The settings that the settings page may change, as plain values (the bind
/// address aside, which the caller parses).
#[derive(Clone, Debug)]
pub struct ServerSettings {
    pub web_port: u16,
    pub access_code: Option<String>,
    pub try_vaapi: bool,
    pub try_nvenc: bool,
    pub wayland_support: bool,
}

/// A submitted change of the settings: `None` leaves a setting as it is. For the
/// access code, `Some(None)` clears it and `Some(Some(c))` sets it.
#[derive(Clone, Debug)]
pub struct SettingsUpdate {
    pub web_port: Option<u16>,
    pub access_code: Option<Option<String>>,
    pub try_vaapi: Option<bool>,
    pub try_nvenc: Option<bool>,
    pub wayland_support: Option<bool>,
}

/// The value an optional change leaves.
pub open spec fn updated<T>(current: T, change: Option<T>) -> T {
    match change {
        Some(v) => v,
        None => current,
    }
}

/// Merges a submitted change into the settings: each submitted setting replaces the
/// current one, the others stay. A new access code that differs from the current one
/// invalidates every session. Returns whether the access code changed.
pub fn apply_settings_update(settings: &mut ServerSettings, update: SettingsUpdate, sessions: &mut SessionStore) -> (rotated: bool)
    requires
        old(sessions).wf(),
    ensures
        final(sessions).wf(),
        final(settings).web_port == updated(old(settings).web_port, update.web_port),
        final(settings).try_vaapi == updated(old(settings).try_vaapi, update.try_vaapi),
        final(settings).try_nvenc == updated(old(settings).try_nvenc, update.try_nvenc),
        final(settings).wayland_support == updated(old(settings).wayland_support, update.wayland_support),
        match update.access_code {
            None => !rotated && string_opt(final(settings).access_code) == string_opt(old(settings).access_code),
            Some(c) => string_opt(final(settings).access_code) == string_opt(c)
                && rotated == (string_opt(old(settings).access_code) != string_opt(c)),
        },
        rotated ==> forall|t: Seq<char>| final(sessions).created(t) is None,
        !rotated ==> *final(sessions) == *old(sessions),
{
    if let Some(p) = update.web_port {
        settings.web_port = p;
    }
    if let Some(v) = update.try_vaapi {
        settings.try_vaapi = v;
    }
    if let Some(v) = update.try_nvenc {
        settings.try_nvenc = v;
    }
    if let Some(v) = update.wayland_support {
        settings.wayland_support = v;
    }
    apply_access_code_update(&mut settings.access_code, update.access_code, sessions)
}

/// How the web server's start went, as reported to whoever started it.
#[derive(Clone, Copy, Debug, PartialEq, Eq, Structural)]
pub enum WebStartUpMessage {
    Start,
    Error,
}

} // verus!
