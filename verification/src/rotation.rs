//! Round-robin rotation over the API keys of a pool of developer accounts.
//!
//! The manager owns the ordered account pool and the rotation cursor. Handing
//! out a token reads the key under the cursor and advances the cursor one
//! step in round-robin order, skipping accounts whose key list is empty, so
//! that consecutive requests spread evenly over every key of every account.
//!
//! The manager is a sequential state machine: concurrent callers share it
//! behind an exclusive lock, hold that lock only for the in-memory
//! operation, and never across network calls. A refresh replaces an
//! account's key list wholesale, so a token always comes from one complete
//! list, never from a mix of an old and a new one.

use vstd::prelude::*;

use crate::dev::{APIAccount, Credential, Key};
use crate::refresh::RefreshError;
use crate::validity::{filter_valid_keys, valid_filter};

verus! {

/// One account's failure inside a pool-wide refresh.
pub struct RefreshFailure {
    /// Position of the account in registration order.
    pub account: usize,
    pub error: RefreshError,
}

/// Outcome of a pool-wide refresh: every account is attempted independently
/// and failures are collected rather than aborting the rest.
pub struct RefreshReport {
    pub attempted: usize,
    pub succeeded: usize,
    pub failures: Vec<RefreshFailure>,
}

/// Number of successful outcomes among the first `n`.
pub open spec fn spec_succeeded(results: Seq<Result<Vec<Key>, RefreshError>>, n: int) -> int
    decreases n,
{
    if n <= 0 {
        0
    } else {
        spec_succeeded(results, n - 1) + if results[n - 1] is Ok {
            1int
        } else {
            0int
        }
    }
}

/// The failures among the first `n` outcomes, each with its account
/// position, in order.
pub open spec fn spec_failures(results: Seq<Result<Vec<Key>, RefreshError>>, n: int) -> Seq<
    RefreshFailure,
>
    decreases n,
{
    if n <= 0 {
        Seq::empty()
    } else {
        spec_failures(results, n - 1) + match results[n - 1] {
            Ok(_) => Seq::empty(),
            Err(e) => seq![RefreshFailure { account: (n - 1) as usize, error: e }],
        }
    }
}

/// Returned by `acquire_token` when no account currently holds any key: the
/// caller should trigger a refresh and retry.
#[derive(Debug, PartialEq, Eq, Structural)]
pub struct EmptyPoolError;

/// Returned by `register` when an account with the same email is already in
/// the pool.
#[derive(Debug, PartialEq, Eq, Structural)]
pub struct DuplicateAccountError;

/// Returned by `deregister` when no account has the given email.
#[derive(Debug, PartialEq, Eq, Structural)]
pub struct NotFoundError;

/// Cursor over the flattened (account, key) sequence: which account and which
/// of its keys the next token is taken from.
pub struct RotationIndex {
    pub account: usize,
    pub key: usize,
}

/// The secrets an account currently contributes to rotation, in list order.
pub open spec fn account_secrets(a: APIAccount) -> Seq<Seq<char>> {
    a.keys.keys@.map_values(|k: Key| k.key@)
}

/// All secrets of all accounts, flattened in registration order.
pub open spec fn flatten_secrets(accs: Seq<APIAccount>) -> Seq<Seq<char>>
    decreases accs.len(),
{
    if accs.len() == 0 {
        Seq::empty()
    } else {
        account_secrets(accs[0]) + flatten_secrets(accs.drop_first())
    }
}

/// Number of keys held by the accounts before position `i`.
pub open spec fn keys_before(accs: Seq<APIAccount>, i: int) -> int
    decreases i,
{
    if i <= 0 {
        0
    } else {
        keys_before(accs, i - 1) + account_secrets(accs[i - 1]).len()
    }
}

/// Total number of keys in the pool.
pub open spec fn total_keys(accs: Seq<APIAccount>) -> int {
    keys_before(accs, accs.len() as int)
}

/// No two registered accounts share an email.
pub open spec fn emails_unique(accs: Seq<APIAccount>) -> bool {
    forall|i: int, j: int|
        0 <= i < j < accs.len() ==> accs[i].credential.email@ != accs[j].credential.email@
}

/// Every registered account has a non-empty email.
pub open spec fn emails_nonempty(accs: Seq<APIAccount>) -> bool {
    forall|i: int| 0 <= i < accs.len() ==> (#[trigger] accs[i].credential.email@).len() > 0
}

/// Position of the first account whose email matches, or -1.
pub open spec fn find_account(accs: Seq<APIAccount>, email: Seq<char>) -> int
    decreases accs.len(),
{
    if accs.len() == 0 {
        -1
    } else if accs[0].credential.email@ == email {
        0
    } else {
        let r = find_account(accs.drop_first(), email);
        if r < 0 {
            -1
        } else {
            r + 1
        }
    }
}

proof fn lemma_keys_before_nonneg(accs: Seq<APIAccount>, i: int)
    ensures
        keys_before(accs, i) >= 0,
    decreases i,
{
    if i > 0 {
        lemma_keys_before_nonneg(accs, i - 1);
    }
}

proof fn lemma_keys_before_mono(accs: Seq<APIAccount>, i: int, j: int)
    requires
        i <= j,
    ensures
        keys_before(accs, i) <= keys_before(accs, j),
    decreases j - i,
{
    if i < j {
        lemma_keys_before_mono(accs, i, j - 1);
    }
}

proof fn lemma_keys_before_drop_first(accs: Seq<APIAccount>, i: int)
    requires
        accs.len() > 0,
        0 <= i,
        i + 1 <= accs.len(),
    ensures
        keys_before(accs, i + 1) == account_secrets(accs[0]).len() + keys_before(
            accs.drop_first(),
            i,
        ),
    decreases i,
{
    if i > 0 {
        lemma_keys_before_drop_first(accs, i - 1);
        assert(accs.drop_first()[i - 1] == accs[i]);
        assert(keys_before(accs, i + 1) == keys_before(accs, i) + account_secrets(accs[i]).len());
        assert(keys_before(accs.drop_first(), i) == keys_before(accs.drop_first(), i - 1)
            + account_secrets(accs.drop_first()[i - 1]).len());
    } else {
        assert(keys_before(accs, 1) == keys_before(accs, 0) + account_secrets(accs[0]).len());
    }
}

proof fn lemma_flatten_len(accs: Seq<APIAccount>)
    ensures
        flatten_secrets(accs).len() == total_keys(accs),
    decreases accs.len(),
{
    if accs.len() > 0 {
        lemma_flatten_len(accs.drop_first());
        lemma_keys_before_drop_first(accs, accs.len() - 1);
    }
}

/// The key at flattened position `keys_before(i) + k` is key `k` of account
/// `i`.
proof fn lemma_flatten_index(accs: Seq<APIAccount>, i: int, k: int)
    requires
        0 <= i < accs.len(),
        0 <= k < account_secrets(accs[i]).len(),
    ensures
        0 <= keys_before(accs, i) + k < flatten_secrets(accs).len(),
        flatten_secrets(accs)[keys_before(accs, i) + k] == account_secrets(accs[i])[k],
    decreases i,
{
    lemma_flatten_len(accs);
    lemma_keys_before_nonneg(accs, i);
    lemma_keys_before_mono(accs, i + 1, accs.len() as int);
    if i == 0 {
    } else {
        lemma_flatten_index(accs.drop_first(), i - 1, k);
        lemma_keys_before_drop_first(accs, i - 1);
        assert(accs.drop_first()[i - 1] == accs[i]);
    }
}

/// Accounts that hold no keys contribute nothing to the flattened count.
proof fn lemma_keys_before_empty_range(accs: Seq<APIAccount>, a: int, b: int)
    requires
        0 <= a <= b,
        forall|j: int| a <= j < b ==> account_secrets(#[trigger] accs[j]).len() == 0,
    ensures
        keys_before(accs, b) == keys_before(accs, a),
    decreases b - a,
{
    if a < b {
        lemma_keys_before_empty_range(accs, a, b - 1);
    }
}

/// Composes one account pool with the rotation cursor and hands out tokens
/// round-robin.
pub struct KeyRotationManager {
    pub accounts: Vec<APIAccount>,
    pub index: RotationIndex,
}

impl KeyRotationManager {
    /// Well-formedness: emails are non-empty and unique, and the cursor
    /// either rests at the origin (empty pool) or points at an existing key.
    pub open spec fn wf(self) -> bool {
        &&& emails_unique(self.accounts@)
        &&& emails_nonempty(self.accounts@)
        &&& if total_keys(self.accounts@) == 0 {
            self.index.account == 0 && self.index.key == 0
        } else {
            &&& (self.index.account as int) < self.accounts@.len()
            &&& (self.index.key as int) < account_secrets(
                self.accounts@[self.index.account as int],
            ).len()
        }
    }

    /// Flattened position of the cursor.
    pub open spec fn pos(self) -> int {
        keys_before(self.accounts@, self.index.account as int) + self.index.key
    }

    pub fn new() -> (r: Self)
        ensures
            r.wf(),
            r.accounts@.len() == 0,
            r.index.account == 0,
            r.index.key == 0,
    {
        Self { accounts: Vec::new(), index: RotationIndex { account: 0, key: 0 } }
    }

    /// Append a new account with an empty key list, unless an account with
    /// the same email is already registered.
    ///
    /// Fails with `DuplicateAccountError` exactly when the email is already
    /// present, and then changes nothing.
    #[verifier::loop_isolation(false)]
    pub fn register(&mut self, credential: Credential) -> (r: Result<(), DuplicateAccountError>)
        requires
            old(self).wf(),
            credential.email@.len() > 0,
        ensures
            final(self).wf(),
            find_account(old(self).accounts@, credential.email@) >= 0 ==> {
                &&& r is Err
                &&& *final(self) == *old(self)
            },
            find_account(old(self).accounts@, credential.email@) < 0 ==> {
                &&& r is Ok
                &&& final(self).accounts@.len() == old(self).accounts@.len() + 1
                &&& final(self).accounts@.subrange(0, old(self).accounts@.len() as int) == old(
                    self,
                ).accounts@
                &&& final(self).accounts@.last().credential == credential
                &&& final(self).accounts@.last().keys.keys@ == Seq::<Key>::empty()
                &&& final(self).accounts@.last().response.is_blank()
                &&& final(self).index == old(self).index
            },
    {
        let n = self.accounts.len();
        let mut i: usize = 0;
        while i < n
            invariant
                *self == *old(self),
                0 <= i <= n,
                forall|j: int|
                    0 <= j < i ==> (#[trigger] self.accounts@[j]).credential.email@
                        != credential.email@,
            decreases n - i,
        {
            if self.accounts[i].credential.email == credential.email {
                proof {
                    lemma_find_account_found(self.accounts@, credential.email@, i as int);
                }
                return Err(DuplicateAccountError);
            }
            i = i + 1;
        }
        proof {
            lemma_find_account_missing(self.accounts@, credential.email@);
        }
        let account = APIAccount::new(credential);
        self.accounts.push(account);
        proof {
            lemma_total_push_empty(old(self).accounts@, self.accounts@.last());
            assert(self.accounts@.subrange(0, old(self).accounts@.len() as int) =~= old(
                self,
            ).accounts@);
        }
        Ok(())
    }

    /// Hand out the key under the cursor and advance the cursor one
    /// round-robin step, skipping accounts whose key list is empty.
    ///
    /// Fails with `EmptyPoolError` exactly when no account holds any key,
    /// and then changes nothing.
    pub fn acquire_token(&mut self) -> (r: Result<String, EmptyPoolError>)
        requires
            old(self).wf(),
        ensures
            final(self).wf(),
            final(self).accounts == old(self).accounts,
            total_keys(old(self).accounts@) >= 0,
            total_keys(old(self).accounts@) == 0 ==> r is Err && *final(self) == *old(self),
            total_keys(old(self).accounts@) > 0 ==> {
                &&& r is Ok
                &&& 0 <= old(self).pos() < total_keys(old(self).accounts@)
                &&& r->Ok_0@ == flatten_secrets(old(self).accounts@)[old(self).pos()]
                &&& final(self).pos() == (old(self).pos() + 1) % total_keys(old(self).accounts@)
            },
    {
        let ghost accs = self.accounts@;
        let ghost total = total_keys(accs);
        let n = self.accounts.len();
        if n == 0 {
            return Err(EmptyPoolError);
        }
        let ai = self.index.account;
        let ki = self.index.key;
        if self.accounts[ai].keys.keys.len() == 0 {
            return Err(EmptyPoolError);
        }
        proof {
            if total == 0 {
                lemma_keys_before_nonneg(accs, ai as int);
                lemma_keys_before_mono(accs, ai as int + 1, n as int);
                assert(keys_before(accs, ai as int + 1) == keys_before(accs, ai as int)
                    + account_secrets(accs[ai as int]).len());
                assert(false);
            }
        }
        let secret = self.accounts[ai].keys.keys[ki].key.clone();
        proof {
            lemma_flatten_len(accs);
            lemma_flatten_index(accs, ai as int, ki as int);
            assert(account_secrets(accs[ai as int])[ki as int] == accs[ai as int].keys.keys@[ki
                as int].key@);
        }
        let len_ai = self.accounts[ai].keys.keys.len();
        if ki + 1 < len_ai {
            self.index.key = ki + 1;
            proof {
                lemma_keys_before_mono(accs, ai as int + 1, n as int);
                assert(keys_before(accs, ai as int + 1) == keys_before(accs, ai as int)
                    + account_secrets(accs[ai as int]).len());
                vstd::arithmetic::div_mod::lemma_small_mod(
                    (old(self).pos() + 1) as nat,
                    total as nat,
                );
            }
        } else {
            let next = seek_nonempty(&self.accounts, ai + 1);
            self.index.account = next;
            self.index.key = 0;
            proof {
                assert(keys_before(accs, ai as int + 1) == keys_before(accs, ai as int)
                    + account_secrets(accs[ai as int]).len());
                if next >= ai + 1 {
                    lemma_keys_before_empty_range(accs, ai as int + 1, next as int);
                    lemma_keys_before_mono(accs, next as int + 1, n as int);
                    assert(keys_before(accs, next as int + 1) == keys_before(accs, next as int)
                        + account_secrets(accs[next as int]).len());
                    vstd::arithmetic::div_mod::lemma_small_mod(
                        (old(self).pos() + 1) as nat,
                        total as nat,
                    );
                } else {
                    lemma_keys_before_empty_range(accs, ai as int + 1, n as int);
                    lemma_keys_before_empty_range(accs, 0, next as int);
                    vstd::arithmetic::div_mod::lemma_mod_self_0(total);
                }
            }
        }
        Ok(secret)
    }

    /// Remove the account with the given email; the cursor is clamped back
    /// into range when it pointed at or past the removed account.
    ///
    /// Fails with `NotFoundError` exactly when no account has the email, and
    /// then changes nothing.
    #[verifier::loop_isolation(false)]
    pub fn deregister(&mut self, email: &str) -> (r: Result<(), NotFoundError>)
        requires
            old(self).wf(),
        ensures
            final(self).wf(),
            find_account(old(self).accounts@, email@) < 0 ==> (r is Err && *final(self) == *old(
                self,
            )),
            find_account(old(self).accounts@, email@) >= 0 ==> (r is Ok && final(self).accounts@
                == old(self).accounts@.remove(find_account(old(self).accounts@, email@))),
            find_account(old(self).accounts@, email@) >= 0 && (old(self).index.account as int)
                < find_account(old(self).accounts@, email@) ==> final(self).index == old(
                self,
            ).index,
            find_account(old(self).accounts@, email@) >= 0 && (old(self).index.account as int)
                > find_account(old(self).accounts@, email@) ==> (final(self).index.account == old(
                self,
            ).index.account - 1 && final(self).index.key == old(self).index.key),
    {
        let email_owned: String = email.to_owned();
        let n = self.accounts.len();
        let mut i: usize = 0;
        while i < n
            invariant
                *self == *old(self),
                0 <= i <= n,
                forall|j: int|
                    0 <= j < i ==> (#[trigger] self.accounts@[j]).credential.email@ != email@,
            decreases n - i,
        {
            if self.accounts[i].credential.email == email_owned {
                proof {
                    lemma_find_account_first(self.accounts@, email@, i as int);
                }
                let ghost old_accs = self.accounts@;
                let oa = self.index.account;
                let ok_ = self.index.key;
                self.accounts.remove(i);
                let ghost new_accs = self.accounts@;
                proof {
                    assert forall|j: int| 0 <= j < new_accs.len() implies #[trigger] new_accs[j]
                        == (if j < i {
                        old_accs[j]
                    } else {
                        old_accs[j + 1]
                    }) by {}
                }
                if oa > i {
                    self.index.account = oa - 1;
                    proof {
                        lemma_total_lower(new_accs, oa - 1);
                    }
                } else if oa == i {
                    match try_seek(&self.accounts, oa) {
                        Some(p) => {
                            self.index.account = p;
                            self.index.key = 0;
                            proof {
                                lemma_total_lower(new_accs, p as int);
                            }
                        },
                        None => {
                            self.index.account = 0;
                            self.index.key = 0;
                            proof {
                                lemma_keys_before_empty_range(new_accs, 0, new_accs.len() as int);
                            }
                        },
                    }
                } else {
                    proof {
                        if total_keys(old_accs) == 0 {
                            lemma_total_zero_all_empty(old_accs);
                            lemma_keys_before_empty_range(new_accs, 0, new_accs.len() as int);
                        } else {
                            lemma_total_lower(new_accs, oa as int);
                        }
                    }
                }
                return Ok(());
            }
            i = i + 1;
        }
        proof {
            lemma_find_account_missing(self.accounts@, email@);
        }
        Err(NotFoundError)
    }

    /// Bring the cursor back into range after key lists changed: a cursor
    /// that still points at a key is kept; otherwise it moves to the first
    /// account with keys at or cyclically after it, or to the origin when
    /// the pool is empty.
    fn renormalize(&mut self)
        requires
            emails_unique(old(self).accounts@),
            emails_nonempty(old(self).accounts@),
        ensures
            final(self).accounts == old(self).accounts,
            final(self).wf(),
            ((old(self).index.account as int) < old(self).accounts@.len() && (old(
                self,
            ).index.key as int) < account_secrets(
                old(self).accounts@[old(self).index.account as int],
            ).len()) ==> final(self).index == old(self).index,
    {
        let n = self.accounts.len();
        let ai = self.index.account;
        if ai < n {
            if self.index.key < self.accounts[ai].keys.keys.len() {
                proof {
                    lemma_total_lower(self.accounts@, ai as int);
                }
                return ;
            }
        }
        let start = if ai < n {
            ai
        } else {
            0
        };
        match try_seek(&self.accounts, start) {
            Some(p) => {
                self.index.account = p;
                self.index.key = 0;
                proof {
                    lemma_total_lower(self.accounts@, p as int);
                }
            },
            None => {
                self.index.account = 0;
                self.index.key = 0;
                proof {
                    lemma_keys_before_empty_range(self.accounts@, 0, n as int);
                }
            },
        }
    }

    /// Install the valid subset of a freshly listed key set for one account:
    /// keys are filtered for the caller's current IP and the time `now`, and
    /// the account's key list is replaced wholesale — a reader of the pool
    /// sees either the old complete list or the new complete list.
    pub fn refresh_account(&mut self, account: usize, fetched: Vec<Key>, current_ip: u32, now: u64)
        requires
            old(self).wf(),
            (account as int) < old(self).accounts@.len(),
        ensures
            final(self).wf(),
            final(self).accounts@.len() == old(self).accounts@.len(),
            final(self).accounts@[account as int].keys.keys@ == valid_filter(
                fetched@,
                current_ip,
                now,
            ),
            final(self).accounts@[account as int].credential == old(self).accounts@[account
                as int].credential,
            final(self).accounts@[account as int].response == old(self).accounts@[account
                as int].response,
            final(self).accounts@[account as int].keys.status == old(self).accounts@[account
                as int].keys.status,
            final(self).accounts@[account as int].keys.session_expire == old(
                self,
            ).accounts@[account as int].keys.session_expire,
            forall|j: int|
                0 <= j < old(self).accounts@.len() && j != account ==> final(self).accounts@[j]
                    == old(self).accounts@[j],
            ((old(self).index.account as int) < old(self).accounts@.len() && (old(
                self,
            ).index.key as int) < account_secrets(
                final(self).accounts@[old(self).index.account as int],
            ).len()) ==> final(self).index == old(self).index,
    {
        let kept = filter_valid_keys(fetched, current_ip, now);
        let ghost mid = old(self).accounts@;
        self.accounts[account].keys.keys = kept;
        proof {
            assert forall|j: int|
                0 <= j < self.accounts@.len() implies (#[trigger] self.accounts@[j]).credential
                == mid[j].credential by {}
            assert(emails_unique(self.accounts@));
            assert(emails_nonempty(self.accounts@));
        }
        self.renormalize();
    }

    /// Apply the outcome of a pool-wide refresh, one entry per registered
    /// account in order: a successful listing replaces that account's keys
    /// with its valid subset, a failed one leaves the account untouched, and
    /// the failures are reported with their account positions. One account's
    /// failure never blocks another's refresh.
    #[verifier::loop_isolation(false)]
    pub fn apply_refresh_results(
        &mut self,
        results: Vec<Result<Vec<Key>, RefreshError>>,
        current_ip: u32,
        now: u64,
    ) -> (report: RefreshReport)
        requires
            old(self).wf(),
            results@.len() == old(self).accounts@.len(),
        ensures
            final(self).wf(),
            final(self).accounts@.len() == old(self).accounts@.len(),
            forall|i: int|
                0 <= i < results@.len() ==> match results@[i] {
                    Ok(ks) => {
                        &&& (#[trigger] final(self).accounts@[i]).keys.keys@ == valid_filter(
                            ks@,
                            current_ip,
                            now,
                        )
                        &&& final(self).accounts@[i].credential == old(self).accounts@[i].credential
                        &&& final(self).accounts@[i].response == old(self).accounts@[i].response
                        &&& final(self).accounts@[i].keys.status == old(
                            self,
                        ).accounts@[i].keys.status
                        &&& final(self).accounts@[i].keys.session_expire == old(
                            self,
                        ).accounts@[i].keys.session_expire
                    },
                    Err(_) => final(self).accounts@[i] == old(self).accounts@[i],
                },
            report.attempted == results@.len(),
            report.succeeded == spec_succeeded(results@, results@.len() as int),
            report.failures@ == spec_failures(results@, results@.len() as int),
            ((old(self).index.account as int) < old(self).accounts@.len() && (old(
                self,
            ).index.key as int) < account_secrets(
                final(self).accounts@[old(self).index.account as int],
            ).len()) ==> final(self).index == old(self).index,
    {
        let n = self.accounts.len();
        let ghost orig = results@;
        let mut rest = results;
        let mut report = RefreshReport { attempted: n, succeeded: 0, failures: Vec::new() };
        let mut idx: usize = 0;
        while idx < n
            invariant
                idx == orig.len() - rest@.len(),
                rest@.len() <= orig.len(),
                rest@ == orig.subrange(idx as int, orig.len() as int),
                self.accounts@.len() == old(self).accounts@.len(),
                self.index == old(self).index,
                forall|i: int|
                    0 <= i < idx ==> match orig[i] {
                        Ok(ks) => {
                            &&& (#[trigger] self.accounts@[i]).keys.keys@ == valid_filter(
                                ks@,
                                current_ip,
                                now,
                            )
                            &&& self.accounts@[i].credential == old(self).accounts@[i].credential
                            &&& self.accounts@[i].response == old(self).accounts@[i].response
                            &&& self.accounts@[i].keys.status == old(self).accounts@[i].keys.status
                            &&& self.accounts@[i].keys.session_expire == old(
                                self,
                            ).accounts@[i].keys.session_expire
                        },
                        Err(_) => self.accounts@[i] == old(self).accounts@[i],
                    },
                forall|i: int|
                    idx <= i < orig.len() ==> #[trigger] self.accounts@[i] == old(
                        self,
                    ).accounts@[i],
                report.attempted == n,
                0 <= report.succeeded <= idx,
                report.succeeded == spec_succeeded(orig, idx as int),
                report.failures@ == spec_failures(orig, idx as int),
            decreases n - idx,
        {
            let res = rest.remove(0);
            proof {
                assert(res == orig[idx as int]);
                assert(rest@ =~= orig.subrange(idx + 1, orig.len() as int));
            }
            match res {
                Ok(ks) => {
                    let kept = filter_valid_keys(ks, current_ip, now);
                    self.accounts[idx].keys.keys = kept;
                    report.succeeded = report.succeeded + 1;
                },
                Err(e) => {
                    report.failures.push(RefreshFailure { account: idx, error: e });
                },
            }
            idx = idx + 1;
        }
        proof {
            assert forall|j: int|
                0 <= j < self.accounts@.len() implies (#[trigger] self.accounts@[j]).credential
                == old(self).accounts@[j].credential by {
                match orig[j] {
                    Ok(_) => {},
                    Err(_) => {},
                }
            }
            assert(emails_unique(self.accounts@));
            assert(emails_nonempty(self.accounts@));
        }
        self.renormalize();
        report
    }
}

/// Find the first account, scanning cyclically from `start`, whose key list
/// is non-empty; `None` when every account's key list is empty.
#[verifier::loop_isolation(false)]
fn try_seek(accounts: &Vec<APIAccount>, start: usize) -> (res: Option<usize>)
    requires
        start <= accounts@.len(),
    ensures
        match res {
            Some(p) => {
                &&& (p as int) < accounts@.len()
                &&& account_secrets(accounts@[p as int]).len() > 0
                &&& p >= start ==> forall|j: int|
                    start <= j < p ==> account_secrets(#[trigger] accounts@[j]).len() == 0
                &&& p < start ==> (forall|j: int|
                    start <= j < accounts@.len() ==> account_secrets(
                        #[trigger] accounts@[j],
                    ).len() == 0) && (forall|j: int|
                    0 <= j < p ==> account_secrets(#[trigger] accounts@[j]).len() == 0)
            },
            None => forall|j: int|
                0 <= j < accounts@.len() ==> account_secrets(#[trigger] accounts@[j]).len() == 0,
        },
{
    let n = accounts.len();
    let mut i: usize = start;
    while i < n
        invariant
            start <= i <= n,
            forall|j: int| start <= j < i ==> account_secrets(#[trigger] accounts@[j]).len() == 0,
        decreases n - i,
    {
        if accounts[i].keys.keys.len() > 0 {
            return Some(i);
        }
        i = i + 1;
    }
    let mut i: usize = 0;
    while i < start
        invariant
            0 <= i <= start,
            forall|j: int| start <= j < n ==> account_secrets(#[trigger] accounts@[j]).len() == 0,
            forall|j: int| 0 <= j < i ==> account_secrets(#[trigger] accounts@[j]).len() == 0,
        decreases start - i,
    {
        if accounts[i].keys.keys.len() > 0 {
            return Some(i);
        }
        i = i + 1;
    }
    None
}

/// Find the first account, scanning cyclically from `start`, whose key list
/// is non-empty. Some account must hold a key.
fn seek_nonempty(accounts: &Vec<APIAccount>, start: usize) -> (res: usize)
    requires
        start <= accounts@.len(),
        total_keys(accounts@) > 0,
    ensures
        res < accounts@.len(),
        account_secrets(accounts@[res as int]).len() > 0,
        res >= start ==> forall|j: int|
            start <= j < res ==> account_secrets(#[trigger] accounts@[j]).len() == 0,
        res < start ==> (forall|j: int|
            start <= j < accounts@.len() ==> account_secrets(#[trigger] accounts@[j]).len() == 0)
            && (forall|j: int| 0 <= j < res ==> account_secrets(#[trigger] accounts@[j]).len() == 0),
{
    match try_seek(accounts, start) {
        Some(p) => p,
        None => {
            proof {
                lemma_keys_before_empty_range(accounts@, 0, accounts@.len() as int);
                assert(false);
            }
            0
        },
    }
}

/// The whole pool holds at least as many keys as any single account.
proof fn lemma_total_lower(accs: Seq<APIAccount>, idx: int)
    requires
        0 <= idx < accs.len(),
    ensures
        total_keys(accs) >= account_secrets(accs[idx]).len(),
{
    lemma_keys_before_nonneg(accs, idx);
    lemma_keys_before_mono(accs, idx + 1, accs.len() as int);
    assert(keys_before(accs, idx + 1) == keys_before(accs, idx) + account_secrets(
        accs[idx],
    ).len());
}

/// A pool with no keys at all has only empty accounts.
proof fn lemma_total_zero_all_empty(accs: Seq<APIAccount>)
    requires
        total_keys(accs) == 0,
    ensures
        forall|j: int| 0 <= j < accs.len() ==> account_secrets(#[trigger] accs[j]).len() == 0,
{
    assert forall|j: int|
        0 <= j < accs.len() implies account_secrets(#[trigger] accs[j]).len() == 0 by {
        lemma_total_lower(accs, j);
    }
}

/// If some position matches, `find_account` succeeds.
proof fn lemma_find_account_found(accs: Seq<APIAccount>, email: Seq<char>, i: int)
    requires
        0 <= i < accs.len(),
        accs[i].credential.email@ == email,
    ensures
        find_account(accs, email) >= 0,
    decreases accs.len(),
{
    if accs[0].credential.email@ != email {
        lemma_find_account_found(accs.drop_first(), email, i - 1);
    }
}

/// `find_account` returns the first matching position.
proof fn lemma_find_account_first(accs: Seq<APIAccount>, email: Seq<char>, i: int)
    requires
        0 <= i < accs.len(),
        accs[i].credential.email@ == email,
        forall|j: int| 0 <= j < i ==> (#[trigger] accs[j]).credential.email@ != email,
    ensures
        find_account(accs, email) == i,
    decreases i,
{
    if i > 0 {
        assert(accs[0].credential.email@ != email);
        assert forall|j: int|
            0 <= j < i - 1 implies (#[trigger] accs.drop_first()[j]).credential.email@
            != email by {
            assert(accs.drop_first()[j] == accs[j + 1]);
        }
        lemma_find_account_first(accs.drop_first(), email, i - 1);
    }
}

/// If no position matches, `find_account` fails.
proof fn lemma_find_account_missing(accs: Seq<APIAccount>, email: Seq<char>)
    requires
        forall|j: int| 0 <= j < accs.len() ==> (#[trigger] accs[j]).credential.email@ != email,
    ensures
        find_account(accs, email) < 0,
    decreases accs.len(),
{
    if accs.len() > 0 {
        assert(accs[0].credential.email@ != email);
        lemma_find_account_missing(accs.drop_first(), email);
    }
}

/// Round-robin completeness: starting from any cursor position over a pool
/// of `n` keys, `n` successive hand-outs return every key exactly once (the
/// window read is a permutation of the flattened pool), and the following
/// hand-out repeats the first.
///
/// `acquire_token` returns the key at the cursor's flattened position and
/// advances that position to its successor modulo the pool size, so the
/// `i`-th of a run of successive calls returns `secrets[(start + i) % n]`.
pub proof fn lemma_round_robin_completeness(secrets: Seq<Seq<char>>, start: int)
    requires
        secrets.len() > 0,
        0 <= start < secrets.len(),
    ensures
        Seq::new(secrets.len(), |i: int| secrets[(start + i) % (secrets.len() as int)])
            .to_multiset() == secrets.to_multiset(),
        secrets[(start + secrets.len()) % (secrets.len() as int)] == secrets[start],
{
    broadcast use vstd::multiset::group_multiset_axioms;

    let n = secrets.len() as int;
    let w = Seq::new(n as nat, |i: int| secrets[(start + i) % n]);
    let hi = secrets.subrange(start, n);
    let lo = secrets.subrange(0, start);
    assert forall|i: int| 0 <= i < n implies w[i] == (hi + lo)[i] by {
        if i < n - start {
            vstd::arithmetic::div_mod::lemma_small_mod((start + i) as nat, n as nat);
            assert((hi + lo)[i] == secrets[start + i]);
        } else {
            vstd::arithmetic::div_mod::lemma_mod_sub_multiples_vanish(start + i, n);
            vstd::arithmetic::div_mod::lemma_small_mod((start + i - n) as nat, n as nat);
            assert((hi + lo)[i] == secrets[i - (n - start)]);
        }
    }
    assert(w =~= hi + lo);
    assert(secrets =~= lo + hi);
    vstd::seq_lib::lemma_multiset_commutative(hi, lo);
    vstd::seq_lib::lemma_multiset_commutative(lo, hi);
    assert(hi.to_multiset().add(lo.to_multiset()) =~= lo.to_multiset().add(hi.to_multiset()));
    vstd::arithmetic::div_mod::lemma_mod_sub_multiples_vanish(start + n, n);
    vstd::arithmetic::div_mod::lemma_small_mod(start as nat, n as nat);
}

/// Every flattened position falls wholly inside one account's current key
/// list: a handed-out key always belongs to a single list generation, never
/// to a mix of an old and a new list.
pub proof fn lemma_token_one_generation(accs: Seq<APIAccount>, p: int)
    requires
        0 <= p < flatten_secrets(accs).len(),
    ensures
        exists|i: int, k: int|
            0 <= i < accs.len() && 0 <= k < account_secrets(accs[i]).len()
                && flatten_secrets(accs)[p] == #[trigger] account_secrets(accs[i])[k],
    decreases accs.len(),
{
    let head = account_secrets(accs[0]);
    if p < head.len() {
        assert(0 <= 0 < accs.len() && 0 <= p < account_secrets(accs[0]).len()
            && flatten_secrets(accs)[p] == account_secrets(accs[0])[p]);
    } else {
        lemma_token_one_generation(accs.drop_first(), p - head.len());
        let (i, k): (int, int) = choose|i: int, k: int|
            0 <= i < accs.drop_first().len() && 0 <= k < account_secrets(accs.drop_first()[i]).len()
                && flatten_secrets(accs.drop_first())[p - head.len()]
                == #[trigger] account_secrets(accs.drop_first()[i])[k];
        assert(accs.drop_first()[i] == accs[i + 1]);
        assert(0 <= i + 1 < accs.len() && 0 <= k < account_secrets(accs[i + 1]).len()
            && flatten_secrets(accs)[p] == account_secrets(accs[i + 1])[k]);
    }
}

/// After a refresh installed `valid_filter(fetched, ip, now)` for an
/// account, every secret that account can serve is the secret of a fetched
/// key that was valid for `ip` at `now`: a key whose origins exclude the
/// current IP, or whose expiry has passed, is never handed out.
pub proof fn lemma_refresh_serves_only_valid(
    m: KeyRotationManager,
    account: int,
    fetched: Seq<Key>,
    ip: u32,
    now: u64,
    j: int,
)
    requires
        0 <= account < m.accounts@.len(),
        m.accounts@[account].keys.keys@ == crate::validity::valid_filter(fetched, ip, now),
        0 <= j < account_secrets(m.accounts@[account]).len(),
    ensures
        exists|k: int|
            0 <= k < fetched.len() && crate::validity::spec_key_valid(#[trigger] fetched[k], ip, now)
                && fetched[k].key@ == account_secrets(m.accounts@[account])[j],
{
    let filtered = crate::validity::valid_filter(fetched, ip, now);
    crate::validity::lemma_valid_filter_sound(fetched, ip, now);
    crate::validity::lemma_valid_filter_subset(fetched, ip, now, j);
    let k = choose|k: int| 0 <= k < fetched.len() && #[trigger] fetched[k] == filtered[j];
    assert(account_secrets(m.accounts@[account])[j] == filtered[j].key@);
    assert(0 <= k < fetched.len() && crate::validity::spec_key_valid(fetched[k], ip, now)
        && fetched[k].key@ == account_secrets(m.accounts@[account])[j]);
}

/// Appending an account with no keys leaves the flattened count unchanged.
proof fn lemma_total_push_empty(accs: Seq<APIAccount>, a: APIAccount)
    requires
        account_secrets(a).len() == 0,
    ensures
        total_keys(accs.push(a)) == total_keys(accs),
{
    lemma_keys_before_push_prefix(accs, a, accs.len() as int);
    assert(accs.push(a)[accs.len() as int] == a);
}

/// `keys_before` over a pushed sequence agrees with the original on the
/// original's range.
proof fn lemma_keys_before_push_prefix(accs: Seq<APIAccount>, a: APIAccount, i: int)
    requires
        0 <= i <= accs.len(),
    ensures
        keys_before(accs.push(a), i) == keys_before(accs, i),
    decreases i,
{
    if i > 0 {
        lemma_keys_before_push_prefix(accs, a, i - 1);
        assert(accs.push(a)[i - 1] == accs[i - 1]);
    }
}

} // verus!
