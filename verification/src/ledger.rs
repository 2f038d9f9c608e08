//! A model of the external token service's state: the token accounts and
//! mints the pool's requests touch, with each operation's exact verdict and
//! effect. The transition function only issues requests; this model is what
//! the conservation properties of those requests are stated and proved
//! against, and what the tests run them on.

use vstd::prelude::*;

use crate::addr::{address_eq, Address};
use crate::error::PoolError;
use crate::processor::{
    InitializeAccountRequest, InitializeMintRequest, MintToRequest, TransferRequest, Transition,
};

verus! {

/// One token account of the service: a balance of one mint's tokens, movable
/// only with its owner's authority.
#[derive(Clone, Copy, Debug, PartialEq, Eq)]
pub struct TokenAccount {
    /// The account's address.
    pub key: Address,
    /// The mint whose tokens the account holds.
    pub mint: Address,
    /// The authority that may move the balance.
    pub owner: Address,
    /// The balance.
    pub amount: u64,
}

/// One mint of the service: a token kind with a total supply and the sole
/// authority allowed to mint.
#[derive(Clone, Copy, Debug, PartialEq, Eq)]
pub struct TokenMint {
    /// The mint's address.
    pub key: Address,
    /// The authority that may mint new tokens.
    pub mint_authority: Address,
    /// Decimal places of the mint.
    pub decimals: u8,
    /// Total supply over all accounts of this mint.
    pub supply: u64,
}

/// The first account in `s` stored under `key`.
pub open spec fn spec_find_account(s: Seq<TokenAccount>, key: Seq<u8>) -> Option<TokenAccount>
    decreases s.len(),
{
    if s.len() == 0 {
        None
    } else if s[0].key@ == key {
        Some(s[0])
    } else {
        spec_find_account(s.drop_first(), key)
    }
}

/// The first mint in `s` stored under `key`.
pub open spec fn spec_find_mint(s: Seq<TokenMint>, key: Seq<u8>) -> Option<TokenMint>
    decreases s.len(),
{
    if s.len() == 0 {
        None
    } else if s[0].key@ == key {
        Some(s[0])
    } else {
        spec_find_mint(s.drop_first(), key)
    }
}

/// Keys no account of the first `i` entries holds do not change the lookup:
/// it equals the lookup in the rest.
proof fn lemma_find_account_skip(s: Seq<TokenAccount>, key: Seq<u8>, i: int)
    requires
        0 <= i <= s.len(),
        forall|j: int| 0 <= j < i ==> s[j].key@ != key,
    ensures
        spec_find_account(s, key) == spec_find_account(s.skip(i), key),
    decreases i,
{
    if i == 0 {
        assert(s.skip(0) =~= s);
    } else {
        assert(s[0].key@ != key);
        assert(s.drop_first() =~= s.skip(1));
        lemma_find_account_skip(s.skip(1), key, i - 1);
        assert(s.skip(1).skip(i - 1) =~= s.skip(i));
    }
}

/// As `lemma_find_account_skip`, for mints.
proof fn lemma_find_mint_skip(s: Seq<TokenMint>, key: Seq<u8>, i: int)
    requires
        0 <= i <= s.len(),
        forall|j: int| 0 <= j < i ==> s[j].key@ != key,
    ensures
        spec_find_mint(s, key) == spec_find_mint(s.skip(i), key),
    decreases i,
{
    if i == 0 {
        assert(s.skip(0) =~= s);
    } else {
        assert(s[0].key@ != key);
        assert(s.drop_first() =~= s.skip(1));
        lemma_find_mint_skip(s.skip(1), key, i - 1);
        assert(s.skip(1).skip(i - 1) =~= s.skip(i));
    }
}

/// A lookup misses exactly when no entry holds the key.
proof fn lemma_find_account_none(s: Seq<TokenAccount>, key: Seq<u8>)
    ensures
        spec_find_account(s, key) is None <==> (forall|j: int|
            0 <= j < s.len() ==> s[j].key@ != key),
    decreases s.len(),
{
    if s.len() > 0 && s[0].key@ != key {
        lemma_find_account_none(s.drop_first(), key);
        assert forall|j: int| 1 <= j < s.len() implies s.drop_first()[j - 1] == s[j] by {}
    }
}

/// As `lemma_find_account_none`, for mints.
proof fn lemma_find_mint_none(s: Seq<TokenMint>, key: Seq<u8>)
    ensures
        spec_find_mint(s, key) is None <==> (forall|j: int| 0 <= j < s.len() ==> s[j].key@ != key),
    decreases s.len(),
{
    if s.len() > 0 && s[0].key@ != key {
        lemma_find_mint_none(s.drop_first(), key);
        assert forall|j: int| 1 <= j < s.len() implies s.drop_first()[j - 1] == s[j] by {}
    }
}

/// Replacing the entry at `i` by one with the same key changes exactly that
/// key's lookup, when keys are unique.
proof fn lemma_find_account_update(s: Seq<TokenAccount>, i: int, a: TokenAccount)
    requires
        0 <= i < s.len(),
        a.key@ == s[i].key@,
        forall|p: int, q: int| 0 <= p < q < s.len() ==> s[p].key@ != s[q].key@,
    ensures
        spec_find_account(s.update(i, a), s[i].key@) == Some(a),
        forall|k: Seq<u8>|
            k != s[i].key@ ==> spec_find_account(s.update(i, a), k) == spec_find_account(s, k),
    decreases s.len(),
{
    let t = s.update(i, a);
    if i == 0 {
        assert(t[0] == a);
        assert forall|k: Seq<u8>| k != s[0].key@ implies spec_find_account(t, k)
            == spec_find_account(s, k) by {
            assert(t.drop_first() =~= s.drop_first());
        }
    } else {
        assert(t[0] == s[0]);
        let st = s.drop_first();
        let tt = t.drop_first();
        assert(tt =~= st.update(i - 1, a));
        assert forall|p: int, q: int| 0 <= p < q < st.len() implies st[p].key@ != st[q].key@ by {
            assert(st[p] == s[p + 1]);
            assert(st[q] == s[q + 1]);
        }
        assert(st[i - 1] == s[i]);
        lemma_find_account_update(st, i - 1, a);
        assert(s[0].key@ != s[i].key@);
        assert forall|k: Seq<u8>| k != s[i].key@ implies spec_find_account(t, k)
            == spec_find_account(s, k) by {
            if s[0].key@ != k {
                assert(spec_find_account(t, k) == spec_find_account(tt, k));
                assert(spec_find_account(s, k) == spec_find_account(st, k));
            }
        }
    }
}

/// As `lemma_find_account_update`, for mints.
proof fn lemma_find_mint_update(s: Seq<TokenMint>, i: int, m: TokenMint)
    requires
        0 <= i < s.len(),
        m.key@ == s[i].key@,
        forall|p: int, q: int| 0 <= p < q < s.len() ==> s[p].key@ != s[q].key@,
    ensures
        spec_find_mint(s.update(i, m), s[i].key@) == Some(m),
        forall|k: Seq<u8>|
            k != s[i].key@ ==> spec_find_mint(s.update(i, m), k) == spec_find_mint(s, k),
    decreases s.len(),
{
    let t = s.update(i, m);
    if i == 0 {
        assert(t[0] == m);
        assert forall|k: Seq<u8>| k != s[0].key@ implies spec_find_mint(t, k) == spec_find_mint(
            s,
            k,
        ) by {
            assert(t.drop_first() =~= s.drop_first());
        }
    } else {
        assert(t[0] == s[0]);
        let st = s.drop_first();
        let tt = t.drop_first();
        assert(tt =~= st.update(i - 1, m));
        assert forall|p: int, q: int| 0 <= p < q < st.len() implies st[p].key@ != st[q].key@ by {
            assert(st[p] == s[p + 1]);
            assert(st[q] == s[q + 1]);
        }
        assert(st[i - 1] == s[i]);
        lemma_find_mint_update(st, i - 1, m);
        assert(s[0].key@ != s[i].key@);
        assert forall|k: Seq<u8>| k != s[i].key@ implies spec_find_mint(t, k) == spec_find_mint(
            s,
            k,
        ) by {
            if s[0].key@ != k {
                assert(spec_find_mint(t, k) == spec_find_mint(tt, k));
                assert(spec_find_mint(s, k) == spec_find_mint(st, k));
            }
        }
    }
}

/// Appending an entry changes exactly the lookups that missed its key.
proof fn lemma_find_account_push(s: Seq<TokenAccount>, a: TokenAccount)
    ensures
        forall|k: Seq<u8>|
            spec_find_account(s.push(a), k) == (if spec_find_account(s, k) is Some {
                spec_find_account(s, k)
            } else if k == a.key@ {
                Some(a)
            } else {
                None::<TokenAccount>
            }),
    decreases s.len(),
{
    let t = s.push(a);
    if s.len() == 0 {
        assert forall|k: Seq<u8>|
            spec_find_account(t, k) == (if spec_find_account(s, k) is Some {
                spec_find_account(s, k)
            } else if k == a.key@ {
                Some(a)
            } else {
                None::<TokenAccount>
            }) by {
            assert(t[0] == a);
            assert(t.drop_first() =~= Seq::<TokenAccount>::empty());
            assert(spec_find_account(t.drop_first(), k) is None);
            assert(spec_find_account(s, k) is None);
        }
    } else {
        lemma_find_account_push(s.drop_first(), a);
        assert forall|k: Seq<u8>|
            spec_find_account(t, k) == (if spec_find_account(s, k) is Some {
                spec_find_account(s, k)
            } else if k == a.key@ {
                Some(a)
            } else {
                None::<TokenAccount>
            }) by {
            assert(t[0] == s[0]);
            if s[0].key@ != k {
                assert(t.drop_first() =~= s.drop_first().push(a));
                assert(spec_find_account(t, k) == spec_find_account(s.drop_first().push(a), k));
            }
        }
    }
}

/// As `lemma_find_account_push`, for mints.
proof fn lemma_find_mint_push(s: Seq<TokenMint>, m: TokenMint)
    ensures
        forall|k: Seq<u8>|
            spec_find_mint(s.push(m), k) == (if spec_find_mint(s, k) is Some {
                spec_find_mint(s, k)
            } else if k == m.key@ {
                Some(m)
            } else {
                None::<TokenMint>
            }),
    decreases s.len(),
{
    let t = s.push(m);
    if s.len() == 0 {
        assert forall|k: Seq<u8>|
            spec_find_mint(t, k) == (if spec_find_mint(s, k) is Some {
                spec_find_mint(s, k)
            } else if k == m.key@ {
                Some(m)
            } else {
                None::<TokenMint>
            }) by {
            assert(t[0] == m);
            assert(t.drop_first() =~= Seq::<TokenMint>::empty());
            assert(spec_find_mint(t.drop_first(), k) is None);
            assert(spec_find_mint(s, k) is None);
        }
    } else {
        lemma_find_mint_push(s.drop_first(), m);
        assert forall|k: Seq<u8>|
            spec_find_mint(t, k) == (if spec_find_mint(s, k) is Some {
                spec_find_mint(s, k)
            } else if k == m.key@ {
                Some(m)
            } else {
                None::<TokenMint>
            }) by {
            assert(t[0] == s[0]);
            if s[0].key@ != k {
                assert(t.drop_first() =~= s.drop_first().push(m));
                assert(spec_find_mint(t, k) == spec_find_mint(s.drop_first().push(m), k));
            }
        }
    }
}

/// Index of the first account stored under `key`.
fn find_account_index(accounts: &Vec<TokenAccount>, key: &Address) -> (r: Option<usize>)
    ensures
        r matches Some(i) ==> 0 <= i < accounts@.len() && accounts@[i as int].key@ == key@
            && spec_find_account(accounts@, key@) == Some(accounts@[i as int]) && (forall|j: int|
            0 <= j < i ==> accounts@[j].key@ != key@),
        r is None ==> spec_find_account(accounts@, key@) is None,
{
    let mut i: usize = 0;
    while i < accounts.len()
        invariant
            0 <= i <= accounts@.len(),
            forall|j: int| 0 <= j < i ==> accounts@[j].key@ != key@,
        decreases accounts@.len() - i,
    {
        if address_eq(&accounts[i].key, key) {
            proof {
                lemma_find_account_skip(accounts@, key@, i as int);
                assert(accounts@.skip(i as int)[0] == accounts@[i as int]);
            }
            return Some(i);
        }
        i += 1;
    }
    proof {
        lemma_find_account_skip(accounts@, key@, accounts@.len() as int);
        assert(accounts@.skip(accounts@.len() as int) =~= Seq::<TokenAccount>::empty());
    }
    None
}

/// Index of the first mint stored under `key`.
fn find_mint_index(mints: &Vec<TokenMint>, key: &Address) -> (r: Option<usize>)
    ensures
        r matches Some(i) ==> 0 <= i < mints@.len() && mints@[i as int].key@ == key@
            && spec_find_mint(mints@, key@) == Some(mints@[i as int]) && (forall|j: int|
            0 <= j < i ==> mints@[j].key@ != key@),
        r is None ==> spec_find_mint(mints@, key@) is None,
{
    let mut i: usize = 0;
    while i < mints.len()
        invariant
            0 <= i <= mints@.len(),
            forall|j: int| 0 <= j < i ==> mints@[j].key@ != key@,
        decreases mints@.len() - i,
    {
        if address_eq(&mints[i].key, key) {
            proof {
                lemma_find_mint_skip(mints@, key@, i as int);
                assert(mints@.skip(i as int)[0] == mints@[i as int]);
            }
            return Some(i);
        }
        i += 1;
    }
    proof {
        lemma_find_mint_skip(mints@, key@, mints@.len() as int);
        assert(mints@.skip(mints@.len() as int) =~= Seq::<TokenMint>::empty());
    }
    None
}

/// The token service's state: its accounts and its mints, each stored under
/// a unique address. Accounts and mints live in separate tables; the host's
/// single address space is not remodelled here.
#[derive(Clone, Debug, PartialEq, Eq)]
pub struct TokenLedger {
    /// The token accounts.
    pub accounts: Vec<TokenAccount>,
    /// The mints.
    pub mints: Vec<TokenMint>,
}

/// The verdict of a transfer request against a ledger: the error the token
/// service reports, or `Ok` when the transfer applies (a transfer of an
/// account onto itself validates and then moves nothing).
pub open spec fn spec_transfer_verdict(l: TokenLedger, req: TransferRequest) -> Result<
    (),
    PoolError,
> {
    match spec_find_account(l.accounts@, req.source@) {
        None => Err(PoolError::InvalidAccountData),
        Some(src) => match spec_find_account(l.accounts@, req.destination@) {
            None => Err(PoolError::InvalidAccountData),
            Some(dst) => {
                if src.amount < req.amount {
                    Err(PoolError::InsufficientFunds)
                } else if src.mint@ != dst.mint@ {
                    Err(PoolError::MintMismatch)
                } else if req.authority@ != src.owner@ {
                    Err(PoolError::OwnerMismatch)
                } else if req.source@ == req.destination@ {
                    Ok(())
                } else if dst.amount + req.amount > u64::MAX {
                    Err(PoolError::Overflow)
                } else {
                    Ok(())
                }
            },
        },
    }
}

/// The verdict of a mint request against a ledger.
pub open spec fn spec_mint_to_verdict(l: TokenLedger, req: MintToRequest) -> Result<(), PoolError> {
    match spec_find_account(l.accounts@, req.destination@) {
        None => Err(PoolError::InvalidAccountData),
        Some(dst) => {
            if req.mint@ != dst.mint@ {
                Err(PoolError::MintMismatch)
            } else {
                match spec_find_mint(l.mints@, req.mint@) {
                    None => Err(PoolError::InvalidAccountData),
                    Some(m) => {
                        if req.authority@ != m.mint_authority@ {
                            Err(PoolError::OwnerMismatch)
                        } else if dst.amount + req.amount > u64::MAX {
                            Err(PoolError::Overflow)
                        } else if m.supply + req.amount > u64::MAX {
                            Err(PoolError::Overflow)
                        } else {
                            Ok(())
                        }
                    },
                }
            }
        },
    }
}

/// The verdict of an account-creation request against a ledger.
pub open spec fn spec_initialize_account_verdict(
    l: TokenLedger,
    req: InitializeAccountRequest,
) -> Result<(), PoolError> {
    if spec_find_account(l.accounts@, req.account@) is Some {
        Err(PoolError::AlreadyInUse)
    } else if spec_find_mint(l.mints@, req.mint@) is None {
        Err(PoolError::InvalidMint)
    } else {
        Ok(())
    }
}

/// The verdict of a mint-creation request against a ledger.
pub open spec fn spec_initialize_mint_verdict(l: TokenLedger, req: InitializeMintRequest) -> Result<
    (),
    PoolError,
> {
    if spec_find_mint(l.mints@, req.mint@) is Some {
        Err(PoolError::AlreadyInUse)
    } else {
        Ok(())
    }
}

impl TokenLedger {
    /// Unique keys in both tables.
    pub open spec fn wf(&self) -> bool {
        &&& forall|p: int, q: int|
            0 <= p < q < self.accounts@.len() ==> self.accounts@[p].key@ != self.accounts@[q].key@
        &&& forall|p: int, q: int|
            0 <= p < q < self.mints@.len() ==> self.mints@[p].key@ != self.mints@[q].key@
    }

    /// The account stored under `key`.
    pub open spec fn spec_account(&self, key: Seq<u8>) -> Option<TokenAccount> {
        spec_find_account(self.accounts@, key)
    }

    /// The mint stored under `key`.
    pub open spec fn spec_mint(&self, key: Seq<u8>) -> Option<TokenMint> {
        spec_find_mint(self.mints@, key)
    }

    /// The balance of the account stored under `key`.
    pub open spec fn spec_balance(&self, key: Seq<u8>) -> Option<u64> {
        match self.spec_account(key) {
            Some(a) => Some(a.amount),
            None => None,
        }
    }

    /// The supply of the mint stored under `key`.
    pub open spec fn spec_supply(&self, key: Seq<u8>) -> Option<u64> {
        match self.spec_mint(key) {
            Some(m) => Some(m.supply),
            None => None,
        }
    }

    /// An empty service: no accounts, no mints.
    pub fn new() -> (r: TokenLedger)
        ensures
            r.wf(),
            r.accounts@.len() == 0,
            r.mints@.len() == 0,
    {
        TokenLedger { accounts: Vec::new(), mints: Vec::new() }
    }

    /// The balance of the account stored under `key`.
    pub fn balance_of(&self, key: &Address) -> (r: Option<u64>)
        ensures
            r == self.spec_balance(key@),
    {
        match find_account_index(&self.accounts, key) {
            Some(i) => Some(self.accounts[i].amount),
            None => None,
        }
    }

    /// The supply of the mint stored under `key`.
    pub fn supply_of(&self, key: &Address) -> (r: Option<u64>)
        ensures
            r == self.spec_supply(key@),
    {
        match find_mint_index(&self.mints, key) {
            Some(i) => Some(self.mints[i].supply),
            None => None,
        }
    }

    /// Creates a mint with supply zero, as the token service does on a
    /// mint-creation request.
    pub fn initialize_mint(&mut self, req: &InitializeMintRequest) -> (r: Result<(), PoolError>)
        requires
            old(self).wf(),
        ensures
            final(self).wf(),
            r == spec_initialize_mint_verdict(*old(self), *req),
            final(self).accounts@ == old(self).accounts@,
            r is Err ==> final(self).mints@ == old(self).mints@,
            r is Ok ==> final(self).mints@ == old(self).mints@.push(
                TokenMint {
                    key: req.mint,
                    mint_authority: req.mint_authority,
                    decimals: req.decimals,
                    supply: 0,
                },
            ),
    {
        match find_mint_index(&self.mints, &req.mint) {
            Some(_) => Err(PoolError::AlreadyInUse),
            None => {
                let m = TokenMint {
                    key: req.mint,
                    mint_authority: req.mint_authority,
                    decimals: req.decimals,
                    supply: 0,
                };
                proof {
                    lemma_find_mint_none(old(self).mints@, req.mint@);
                }
                self.mints.push(m);
                Ok(())
            },
        }
    }

    /// Creates a token account with balance zero, bound to an existing mint,
    /// as the token service does on an account-creation request.
    pub fn initialize_account(&mut self, req: &InitializeAccountRequest) -> (r: Result<
        (),
        PoolError,
    >)
        requires
            old(self).wf(),
        ensures
            final(self).wf(),
            r == spec_initialize_account_verdict(*old(self), *req),
            final(self).mints@ == old(self).mints@,
            r is Err ==> final(self).accounts@ == old(self).accounts@,
            r is Ok ==> final(self).accounts@ == old(self).accounts@.push(
                TokenAccount { key: req.account, mint: req.mint, owner: req.owner, amount: 0 },
            ),
    {
        match find_account_index(&self.accounts, &req.account) {
            Some(_) => Err(PoolError::AlreadyInUse),
            None => {
                match find_mint_index(&self.mints, &req.mint) {
                    None => Err(PoolError::InvalidMint),
                    Some(_) => {
                        let a = TokenAccount {
                            key: req.account,
                            mint: req.mint,
                            owner: req.owner,
                            amount: 0,
                        };
                        proof {
                            lemma_find_account_none(old(self).accounts@, req.account@);
                        }
                        self.accounts.push(a);
                        Ok(())
                    },
                }
            },
        }
    }

    /// Moves tokens between two accounts of one mint, with the source
    /// owner's authority; a rejection changes nothing, and a transfer of an
    /// account onto itself validates and moves nothing.
    pub fn transfer(&mut self, req: &TransferRequest) -> (r: Result<(), PoolError>)
        requires
            old(self).wf(),
        ensures
            final(self).wf(),
            r == spec_transfer_verdict(*old(self), *req),
            final(self).mints@ == old(self).mints@,
            r is Err || req.source@ == req.destination@ ==> final(self).accounts@ == old(
                self,
            ).accounts@,
            r is Ok && req.source@ != req.destination@ ==> {
                let src = spec_find_account(old(self).accounts@, req.source@)->Some_0;
                let dst = spec_find_account(old(self).accounts@, req.destination@)->Some_0;
                &&& final(self).spec_account(req.source@) == Some(
                    TokenAccount {
                        amount: (src.amount - req.amount) as u64,
                        ..src
                    },
                )
                &&& final(self).spec_account(req.destination@) == Some(
                    TokenAccount {
                        amount: (dst.amount + req.amount) as u64,
                        ..dst
                    },
                )
                &&& forall|k: Seq<u8>|
                    k != req.source@ && k != req.destination@ ==> final(self).spec_account(k) == old(
                        self,
                    ).spec_account(k)
            },
    {
        let si = match find_account_index(&self.accounts, &req.source) {
            None => {
                return Err(PoolError::InvalidAccountData);
            },
            Some(i) => i,
        };
        let di = match find_account_index(&self.accounts, &req.destination) {
            None => {
                return Err(PoolError::InvalidAccountData);
            },
            Some(i) => i,
        };
        let src = self.accounts[si];
        let dst = self.accounts[di];
        if src.amount < req.amount {
            return Err(PoolError::InsufficientFunds);
        }
        if !address_eq(&src.mint, &dst.mint) {
            return Err(PoolError::MintMismatch);
        }
        if !address_eq(&req.authority, &src.owner) {
            return Err(PoolError::OwnerMismatch);
        }
        if address_eq(&req.source, &req.destination) {
            return Ok(());
        }
        let new_dst_amount = match dst.amount.checked_add(req.amount) {
            None => {
                return Err(PoolError::Overflow);
            },
            Some(v) => v,
        };
        let new_src = TokenAccount { amount: src.amount - req.amount, ..src };
        let new_dst = TokenAccount { amount: new_dst_amount, ..dst };
        proof {
            lemma_find_account_update(self.accounts@, si as int, new_src);
        }
        let ghost mid = self.accounts@.update(si as int, new_src);
        self.accounts[si] = new_src;
        proof {
            assert(self.accounts@ == mid);
            assert(mid[di as int] == dst);
            assert forall|p: int, q: int| 0 <= p < q < mid.len() implies mid[p].key@
                != mid[q].key@ by {}
            lemma_find_account_update(mid, di as int, new_dst);
        }
        self.accounts[di] = new_dst;
        proof {
            assert(spec_find_account(mid, req.source@) == Some(new_src));
            assert(final(self).spec_account(req.source@) == Some(new_src));
        }
        Ok(())
    }

    /// Mints tokens to an account of the mint, with the mint authority; a
    /// rejection changes nothing.
    pub fn mint_to(&mut self, req: &MintToRequest) -> (r: Result<(), PoolError>)
        requires
            old(self).wf(),
        ensures
            final(self).wf(),
            r == spec_mint_to_verdict(*old(self), *req),
            r is Err ==> final(self).accounts@ == old(self).accounts@ && final(self).mints@ == old(
                self,
            ).mints@,
            r is Ok ==> {
                let dst = spec_find_account(old(self).accounts@, req.destination@)->Some_0;
                let m = spec_find_mint(old(self).mints@, req.mint@)->Some_0;
                &&& final(self).spec_account(req.destination@) == Some(
                    TokenAccount {
                        amount: (dst.amount + req.amount) as u64,
                        ..dst
                    },
                )
                &&& forall|k: Seq<u8>|
                    k != req.destination@ ==> final(self).spec_account(k) == old(
                        self,
                    ).spec_account(k)
                &&& final(self).spec_mint(req.mint@) == Some(
                    TokenMint {
                        supply: (m.supply + req.amount) as u64,
                        ..m
                    },
                )
                &&& forall|k: Seq<u8>|
                    k != req.mint@ ==> final(self).spec_mint(k) == old(self).spec_mint(k)
            },
    {
        let di = match find_account_index(&self.accounts, &req.destination) {
            None => {
                return Err(PoolError::InvalidAccountData);
            },
            Some(i) => i,
        };
        let dst = self.accounts[di];
        if !address_eq(&req.mint, &dst.mint) {
            return Err(PoolError::MintMismatch);
        }
        let mi = match find_mint_index(&self.mints, &req.mint) {
            None => {
                return Err(PoolError::InvalidAccountData);
            },
            Some(i) => i,
        };
        let m = self.mints[mi];
        if !address_eq(&req.authority, &m.mint_authority) {
            return Err(PoolError::OwnerMismatch);
        }
        let new_dst_amount = match dst.amount.checked_add(req.amount) {
            None => {
                return Err(PoolError::Overflow);
            },
            Some(v) => v,
        };
        let new_supply = match m.supply.checked_add(req.amount) {
            None => {
                return Err(PoolError::Overflow);
            },
            Some(v) => v,
        };
        let new_dst = TokenAccount { amount: new_dst_amount, ..dst };
        let new_mint = TokenMint { supply: new_supply, ..m };
        proof {
            lemma_find_account_update(self.accounts@, di as int, new_dst);
            lemma_find_mint_update(self.mints@, mi as int, new_mint);
        }
        self.accounts[di] = new_dst;
        self.mints[mi] = new_mint;
        Ok(())
    }

    /// A copy of the service state, entry for entry.
    fn snapshot(&self) -> (r: TokenLedger)
        ensures
            r.accounts@ == self.accounts@,
            r.mints@ == self.mints@,
    {
        let mut accounts: Vec<TokenAccount> = Vec::new();
        let mut i: usize = 0;
        while i < self.accounts.len()
            invariant
                0 <= i <= self.accounts@.len(),
                accounts@ == self.accounts@.subrange(0, i as int),
            decreases self.accounts@.len() - i,
        {
            accounts.push(self.accounts[i]);
            proof {
                assert(accounts@ =~= self.accounts@.subrange(0, i + 1));
            }
            i += 1;
        }
        let mut mints: Vec<TokenMint> = Vec::new();
        let mut j: usize = 0;
        while j < self.mints.len()
            invariant
                0 <= j <= self.mints@.len(),
                mints@ == self.mints@.subrange(0, j as int),
            decreases self.mints@.len() - j,
        {
            mints.push(self.mints[j]);
            proof {
                assert(mints@ =~= self.mints@.subrange(0, j + 1));
            }
            j += 1;
        }
        proof {
            assert(accounts@ =~= self.accounts@);
            assert(mints@ =~= self.mints@);
        }
        TokenLedger { accounts, mints }
    }

    /// Applies a transition's token-service requests as one indivisible
    /// unit: either every request applies, or the first rejection is
    /// returned and the service state stays exactly as it was.
    ///
    /// Conservation holds of every applied swap: when the three accounts a
    /// swap touches are pairwise distinct, the reserve gains exactly the
    /// transfer amount, the recipient gains exactly the minted amount, the
    /// sender loses exactly the transfer amount, the minted supply grows by
    /// exactly the minted amount, and no other balance or supply changes.
    pub fn execute_transition(&mut self, t: &Transition) -> (r: Result<(), PoolError>)
        requires
            old(self).wf(),
        ensures
            final(self).wf(),
            r is Err ==> final(self).accounts@ == old(self).accounts@ && final(self).mints@ == old(
                self,
            ).mints@,
            (*t) is Initialize ==> r == (match spec_initialize_account_verdict(
                *old(self),
                (*t)->Initialize_init_account,
            ) {
                Err(e) => Err::<(), PoolError>(e),
                Ok(()) => spec_initialize_mint_verdict(*old(self), (*t)->Initialize_init_mint),
            }),
            (*t) is Initialize && r is Ok ==> {
                let init_account = (*t)->Initialize_init_account;
                let init_mint = (*t)->Initialize_init_mint;
                &&& final(self).accounts@ == old(self).accounts@.push(
                    TokenAccount {
                        key: init_account.account,
                        mint: init_account.mint,
                        owner: init_account.owner,
                        amount: 0,
                    },
                )
                &&& final(self).mints@ == old(self).mints@.push(
                    TokenMint {
                        key: init_mint.mint,
                        mint_authority: init_mint.mint_authority,
                        decimals: init_mint.decimals,
                        supply: 0,
                    },
                )
            },
            (*t) is Swap && spec_transfer_verdict(*old(self), (*t)->Swap_transfer) is Err ==> r
                == Err::<(), PoolError>(
                spec_transfer_verdict(*old(self), (*t)->Swap_transfer)->Err_0,
            ),
            (*t) is Swap && r is Ok ==> spec_transfer_verdict(
                *old(self),
                (*t)->Swap_transfer,
            ) is Ok,
            (*t) is Swap && {
                let transfer = (*t)->Swap_transfer;
                let mint_to = (*t)->Swap_mint_to;
                transfer.source@ != transfer.destination@ && mint_to.destination@
                    != transfer.source@ && mint_to.destination@ != transfer.destination@
            } ==> r == (match spec_transfer_verdict(*old(self), (*t)->Swap_transfer) {
                Err(e) => Err::<(), PoolError>(e),
                Ok(()) => spec_mint_to_verdict(*old(self), (*t)->Swap_mint_to),
            }),
            (*t) is Swap && r is Ok && {
                let transfer = (*t)->Swap_transfer;
                let mint_to = (*t)->Swap_mint_to;
                transfer.source@ != transfer.destination@ && mint_to.destination@
                    != transfer.source@ && mint_to.destination@ != transfer.destination@
            } ==> {
                let transfer = (*t)->Swap_transfer;
                let mint_to = (*t)->Swap_mint_to;
                let src = spec_find_account(old(self).accounts@, transfer.source@)->Some_0;
                let dst = spec_find_account(old(self).accounts@, transfer.destination@)->Some_0;
                let rcpt = spec_find_account(old(self).accounts@, mint_to.destination@)->Some_0;
                let m = spec_find_mint(old(self).mints@, mint_to.mint@)->Some_0;
                &&& old(self).spec_account(mint_to.destination@) is Some
                &&& old(self).spec_mint(mint_to.mint@) is Some
                &&& final(self).spec_balance(transfer.source@) == Some(
                    (src.amount - transfer.amount) as u64,
                )
                &&& final(self).spec_balance(transfer.destination@) == Some(
                    (dst.amount + transfer.amount) as u64,
                )
                &&& final(self).spec_balance(mint_to.destination@) == Some(
                    (rcpt.amount + mint_to.amount) as u64,
                )
                &&& final(self).spec_supply(mint_to.mint@) == Some(
                    (m.supply + mint_to.amount) as u64,
                )
                &&& forall|k: Seq<u8>|
                    k != transfer.source@ && k != transfer.destination@ && k
                        != mint_to.destination@ ==> final(self).spec_account(k) == old(
                        self,
                    ).spec_account(k)
                &&& forall|k: Seq<u8>|
                    k != mint_to.mint@ ==> final(self).spec_mint(k) == old(self).spec_mint(k)
            },
    {
        let mut work = self.snapshot();
        match t {
            Transition::Initialize { init_account, init_mint, .. } => {
                match work.initialize_account(init_account) {
                    Err(e) => {
                        return Err(e);
                    },
                    Ok(()) => {},
                }
                match work.initialize_mint(init_mint) {
                    Err(e) => {
                        return Err(e);
                    },
                    Ok(()) => {},
                }
                *self = work;
                Ok(())
            },
            Transition::Swap { transfer, mint_to } => {
                let ghost w0 = work;
                match work.transfer(transfer) {
                    Err(e) => {
                        return Err(e);
                    },
                    Ok(()) => {},
                }
                let ghost w1 = work;
                proof {
                    if transfer.source@ != transfer.destination@ && mint_to.destination@
                        != transfer.source@ && mint_to.destination@ != transfer.destination@ {
                        assert(w1.spec_account(mint_to.destination@) == w0.spec_account(
                            mint_to.destination@,
                        ));
                        assert(w1.mints@ == w0.mints@);
                        assert(spec_mint_to_verdict(w1, *mint_to) == spec_mint_to_verdict(
                            w0,
                            *mint_to,
                        ));
                    }
                }
                match work.mint_to(mint_to) {
                    Err(e) => {
                        return Err(e);
                    },
                    Ok(()) => {},
                }
                let ghost w2 = work;
                proof {
                    if transfer.source@ != transfer.destination@ && mint_to.destination@
                        != transfer.source@ && mint_to.destination@ != transfer.destination@ {
                        let src = spec_find_account(w0.accounts@, transfer.source@)->Some_0;
                        let dst = spec_find_account(w0.accounts@, transfer.destination@)->Some_0;
                        assert(w1.spec_account(mint_to.destination@) == w0.spec_account(
                            mint_to.destination@,
                        ));
                        assert(w1.spec_mint(mint_to.mint@) == w0.spec_mint(mint_to.mint@));
                        assert(w2.spec_account(transfer.source@) == w1.spec_account(
                            transfer.source@,
                        ));
                        assert(w2.spec_account(transfer.destination@) == w1.spec_account(
                            transfer.destination@,
                        ));
                        assert(w1.spec_account(transfer.source@) == Some(
                            TokenAccount { amount: (src.amount - transfer.amount) as u64, ..src },
                        ));
                        assert(w1.spec_account(transfer.destination@) == Some(
                            TokenAccount { amount: (dst.amount + transfer.amount) as u64, ..dst },
                        ));
                        assert forall|k: Seq<u8>|
                            k != transfer.source@ && k != transfer.destination@ && k
                                != mint_to.destination@ implies w2.spec_account(k)
                            == w0.spec_account(k) by {
                            assert(w1.spec_account(k) == w0.spec_account(k));
                            assert(w2.spec_account(k) == w1.spec_account(k));
                        }
                        assert forall|k: Seq<u8>| k != mint_to.mint@ implies w2.spec_mint(k)
                            == w0.spec_mint(k) by {
                            assert(w1.spec_mint(k) == w0.spec_mint(k));
                            assert(w2.spec_mint(k) == w1.spec_mint(k));
                        }
                    }
                }
                *self = work;
                Ok(())
            },
        }
    }
}

/// Insufficient funds: a transfer of more than the source balance is
/// rejected with the insufficient-funds error; by the transfer contract a
/// rejection leaves every balance unchanged.
pub proof fn lemma_insufficient_funds_rejected(
    l: TokenLedger,
    req: TransferRequest,
    src: TokenAccount,
)
    requires
        spec_find_account(l.accounts@, req.source@) == Some(src),
        spec_find_account(l.accounts@, req.destination@) is Some,
        src.amount < req.amount,
    ensures
        spec_transfer_verdict(l, req) == Err::<(), PoolError>(PoolError::InsufficientFunds),
{
}

} // verus!
