use vstd::prelude::*;
use crate::calls::{
    may_sign_for, signs_for, CloseAccount, CpiContext, SetAuthority, TokenCall, Transfer,
};
use crate::error::EscrowError;
use crate::funds::{
    close_account_conserves_funds, funds_at, funds_in, lemma_total_after_insert, lemma_total_splits,
    set_authority_conserves_funds, total_funds, transfer_conserves_funds,
};
use crate::pubkey::Pubkey;
use crate::state::{
    escrow_of, settles, token_of, AccountData, Accounts, EscrowAccount, TokenAccount,
};

verus! {

/// One address and what it holds.
#[derive(Clone, Copy, Debug)]
struct Entry {
    key: Pubkey,
    data: AccountData,
}

/// No address occurs twice.
spec fn distinct_keys(entries: Seq<Entry>) -> bool {
    forall|i: int, j: int| 0 <= i < j < entries.len() ==> entries[i].key != entries[j].key
}

/// Some entry has the address `key`.
spec fn has_key(entries: Seq<Entry>, key: Pubkey) -> bool {
    exists|i: int| 0 <= i < entries.len() && #[trigger] entries[i].key == key
}

/// Where an entry with the address `key` stands, if there is one.
spec fn index_of(entries: Seq<Entry>, key: Pubkey) -> int {
    choose|i: int| 0 <= i < entries.len() && #[trigger] entries[i].key == key
}

/// The entries as a map from address to contents.
spec fn as_map(entries: Seq<Entry>) -> Accounts {
    Map::new(
        |key: Pubkey| has_key(entries, key),
        |key: Pubkey| entries[index_of(entries, key)].data,
    )
}

/// With distinct addresses, the map holds each entry under its address.
proof fn lemma_lookup(entries: Seq<Entry>, i: int)
    requires
        distinct_keys(entries),
        0 <= i < entries.len(),
    ensures
        as_map(entries).dom().contains(entries[i].key),
        as_map(entries)[entries[i].key] == entries[i].data,
{
    let key = entries[i].key;
    assert(has_key(entries, key));
    assert(index_of(entries, key) == i);
}

/// Appending an entry with a new address inserts it into the map.
proof fn lemma_push(entries: Seq<Entry>, entry: Entry)
    requires
        distinct_keys(entries),
        !has_key(entries, entry.key),
    ensures
        distinct_keys(entries.push(entry)),
        as_map(entries.push(entry)) == as_map(entries).insert(entry.key, entry.data),
{
    let grown = entries.push(entry);
    let target = as_map(entries).insert(entry.key, entry.data);
    assert forall|i: int, j: int| 0 <= i < j < grown.len() implies grown[i].key != grown[j].key by {
        if j == entries.len() {
            assert(entries[i].key != entry.key);
        }
    }
    assert forall|key: Pubkey| has_key(grown, key) <==> target.dom().contains(key) by {
        if has_key(grown, key) {
            let i = index_of(grown, key);
            if i < entries.len() {
                assert(entries[i].key == key);
            }
        }
        if key == entry.key {
            assert(grown[entries.len() as int].key == key);
        }
        if has_key(entries, key) {
            assert(grown[index_of(entries, key)].key == key);
        }
    }
    assert forall|key: Pubkey| has_key(grown, key) implies as_map(grown)[key] == target[key] by {
        let i = index_of(grown, key);
        lemma_lookup(grown, i);
        if i < entries.len() {
            assert(entries[i].key == key);
            lemma_lookup(entries, i);
        }
    }
    assert(as_map(grown) =~= target);
}

/// Replacing the contents of one entry replaces them in the map.
proof fn lemma_update(entries: Seq<Entry>, i: int, data: AccountData)
    requires
        distinct_keys(entries),
        0 <= i < entries.len(),
    ensures
        distinct_keys(entries.update(i, Entry { key: entries[i].key, data })),
        as_map(entries.update(i, Entry { key: entries[i].key, data })) == as_map(entries).insert(
            entries[i].key,
            data,
        ),
{
    let changed = entries.update(i, Entry { key: entries[i].key, data });
    let target = as_map(entries).insert(entries[i].key, data);
    assert forall|a: int| 0 <= a < changed.len() implies changed[a].key == entries[a].key by {}
    assert forall|key: Pubkey| has_key(changed, key) <==> has_key(entries, key) by {
        if has_key(changed, key) {
            assert(entries[index_of(changed, key)].key == key);
        }
        if has_key(entries, key) {
            assert(changed[index_of(entries, key)].key == key);
        }
    }
    lemma_lookup(entries, i);
    assert forall|key: Pubkey| has_key(changed, key) implies as_map(changed)[key]
        == target[key] by {
        let j = index_of(changed, key);
        lemma_lookup(changed, j);
        assert(entries[j].key == key);
        lemma_lookup(entries, j);
    }
    assert(as_map(changed) =~= target);
}

/// Taking one entry out removes its address from the map.
proof fn lemma_remove(entries: Seq<Entry>, i: int)
    requires
        distinct_keys(entries),
        0 <= i < entries.len(),
    ensures
        distinct_keys(entries.remove(i)),
        as_map(entries.remove(i)) == as_map(entries).remove(entries[i].key),
{
    let rest = entries.remove(i);
    let target = as_map(entries).remove(entries[i].key);
    assert forall|a: int| 0 <= a < rest.len() implies rest[a] == entries[if a < i {
        a
    } else {
        a + 1
    }] by {}
    assert forall|key: Pubkey| has_key(rest, key) <==> target.dom().contains(key) by {
        if has_key(rest, key) {
            let j = index_of(rest, key);
            let j0 = if j < i { j } else { j + 1 };
            assert(entries[j0].key == key);
        }
        if key != entries[i].key && has_key(entries, key) {
            let j = index_of(entries, key);
            let j1 = if j < i { j } else { j - 1 };
            assert(rest[j1] == entries[j]);
            assert(rest[j1].key == key);
        }
    }
    assert forall|key: Pubkey| has_key(rest, key) implies as_map(rest)[key] == target[key] by {
        let j = index_of(rest, key);
        lemma_lookup(rest, j);
        lemma_lookup(entries, if j < i { j } else { j + 1 });
    }
    assert(as_map(rest) =~= target);
}

/// The map of finitely many entries has finitely many addresses.
proof fn lemma_finite(entries: Seq<Entry>)
    ensures
        as_map(entries).dom().finite(),
    decreases entries.len(),
{
    if entries.len() == 0 {
        assert(as_map(entries).dom() =~= Set::<Pubkey>::empty());
    } else {
        let front = entries.drop_last();
        let last = entries.last();
        let target = as_map(front).dom().insert(last.key);
        lemma_finite(front);
        assert forall|key: Pubkey| has_key(entries, key) <==> target.contains(key) by {
            if has_key(entries, key) {
                let i = index_of(entries, key);
                if i < front.len() {
                    assert(front[i].key == key);
                }
            }
            if key == last.key {
                assert(entries[entries.len() - 1].key == key);
            }
            if has_key(front, key) {
                assert(entries[index_of(front, key)].key == key);
            }
        }
        assert(as_map(entries).dom() =~= target);
    }
}

/// What a transfer of `amount` does to the accounts.
///
/// It is refused, by the first of these that applies, as
/// - `AccountNotFound`, unless both ends are token accounts;
/// - `InsufficientFunds`, if the source holds less than the amount;
/// - `Unauthorized`, unless the authority named is the source's, and has
///   signed or is the address for which the program signs the call;
/// - `Overflow`, if the target would hold more than `u64::MAX`.
///
/// A transfer from an account to itself changes nothing.
pub open spec fn transfer_outcome(
    accounts: Accounts,
    context: CpiContext<Transfer>,
    amount: u64,
) -> Result<Accounts, EscrowError> {
    let call = context.accounts;
    match (token_of(accounts, call.from), token_of(accounts, call.to)) {
        (Some(source), Some(target)) => {
            if source.amount < amount {
                Err(EscrowError::InsufficientFunds)
            } else if !signs_for(call.authority, context.signer, source.authority) {
                Err(EscrowError::Unauthorized)
            } else if call.from == call.to {
                Ok(accounts)
            } else if target.amount + amount > u64::MAX {
                Err(EscrowError::Overflow)
            } else {
                Ok(
                    accounts.insert(
                        call.from,
                        AccountData::Token(
                            TokenAccount {
                                authority: source.authority,
                                amount: (source.amount - amount) as u64,
                            },
                        ),
                    ).insert(
                        call.to,
                        AccountData::Token(
                            TokenAccount {
                                authority: target.authority,
                                amount: (target.amount + amount) as u64,
                            },
                        ),
                    ),
                )
            }
        },
        _ => Err(EscrowError::AccountNotFound),
    }
}

/// What handing a token account to `new_authority` does to the accounts.
///
/// It is refused as `AccountNotFound` unless the account is a token
/// account, and as `Unauthorized` unless the authority named is the
/// account's, and has signed or is the address for which the program signs
/// the call.
pub open spec fn set_authority_outcome(
    accounts: Accounts,
    context: CpiContext<SetAuthority>,
    new_authority: Pubkey,
) -> Result<Accounts, EscrowError> {
    let call = context.accounts;
    match token_of(accounts, call.account_or_mint) {
        Some(token) => {
            if !signs_for(call.current_authority, context.signer, token.authority) {
                Err(EscrowError::Unauthorized)
            } else {
                Ok(
                    accounts.insert(
                        call.account_or_mint,
                        AccountData::Token(
                            TokenAccount { authority: new_authority, amount: token.amount },
                        ),
                    ),
                )
            }
        },
        None => Err(EscrowError::AccountNotFound),
    }
}

/// What closing a token account does to the accounts.
///
/// It is refused, by the first of these that applies, as
/// - `AccountNotFound`, unless the account is a token account;
/// - `AccountNotEmpty`, if it holds funds;
/// - `Unauthorized`, unless the authority named is the account's, and has
///   signed or is the address for which the program signs the call.
///
/// What the destination receives for the freed address is outside the
/// ledger, which keeps no other balances than those of the token accounts.
pub open spec fn close_account_outcome(
    accounts: Accounts,
    context: CpiContext<CloseAccount>,
) -> Result<Accounts, EscrowError> {
    let call = context.accounts;
    match token_of(accounts, call.account) {
        Some(token) => {
            if token.amount != 0 {
                Err(EscrowError::AccountNotEmpty)
            } else if !signs_for(call.authority, context.signer, token.authority) {
                Err(EscrowError::Unauthorized)
            } else {
                Ok(accounts.remove(call.account))
            }
        },
        None => Err(EscrowError::AccountNotFound),
    }
}

/// What one call does to the accounts.
pub open spec fn call_outcome(accounts: Accounts, call: TokenCall) -> Result<
    Accounts,
    EscrowError,
> {
    match call {
        TokenCall::Transfer(context, amount) => transfer_outcome(accounts, context, amount),
        TokenCall::SetAuthority(context, new_authority) => set_authority_outcome(
            accounts,
            context,
            new_authority,
        ),
        TokenCall::CloseAccount(context) => close_account_outcome(accounts, context),
    }
}

/// What a run of calls does to the accounts: each call works on what the
/// one before it left, and the first refusal ends the run.
pub open spec fn calls_outcome(accounts: Accounts, calls: Seq<TokenCall>) -> Result<
    Accounts,
    EscrowError,
>
    decreases calls.len(),
{
    if calls.len() == 0 {
        Ok(accounts)
    } else {
        match call_outcome(accounts, calls.first()) {
            Err(error) => Err(error),
            Ok(next) => calls_outcome(next, calls.drop_first()),
        }
    }
}

/// The accounts as a run of calls leaves them: after the last call, or,
/// where a call is refused, after the last call before that one.
pub open spec fn calls_progress(accounts: Accounts, calls: Seq<TokenCall>) -> Accounts
    decreases calls.len(),
{
    if calls.len() == 0 {
        accounts
    } else {
        match call_outcome(accounts, calls.first()) {
            Err(_) => accounts,
            Ok(next) => calls_progress(next, calls.drop_first()),
        }
    }
}

/// A run of two calls is the first call, then the second.
pub proof fn lemma_two_calls(accounts: Accounts, first: TokenCall, second: TokenCall)
    ensures
        calls_outcome(accounts, seq![first, second]) == match call_outcome(accounts, first) {
            Err(error) => Err(error),
            Ok(next) => call_outcome(next, second),
        },
{
    reveal_with_fuel(calls_outcome, 3);
    let calls = seq![first, second];
    assert(calls.first() == first);
    assert(calls.drop_first() =~= seq![second]);
    assert(seq![second].first() == second);
    assert(seq![second].drop_first() =~= Seq::<TokenCall>::empty());
}

/// A run of three calls is the first call, then the second, then the third.
pub proof fn lemma_three_calls(
    accounts: Accounts,
    first: TokenCall,
    second: TokenCall,
    third: TokenCall,
)
    ensures
        calls_outcome(accounts, seq![first, second, third]) == match call_outcome(accounts, first) {
            Err(error) => Err(error),
            Ok(next) => match call_outcome(next, second) {
                Err(error) => Err(error),
                Ok(last) => call_outcome(last, third),
            },
        },
{
    reveal_with_fuel(calls_outcome, 2);
    let calls = seq![first, second, third];
    assert(calls.first() == first);
    assert(calls.drop_first() =~= seq![second, third]);
    match call_outcome(accounts, first) {
        Ok(next) => {
            lemma_two_calls(next, second, third);
        },
        Err(_) => {},
    }
}

/// The accounts of the system: token accounts and escrow records, each
/// under its own address.
pub struct Ledger {
    entries: Vec<Entry>,
}

impl View for Ledger {
    type V = Accounts;

    /// The accounts that the ledger holds, by address.
    closed spec fn view(&self) -> Accounts {
        as_map(self.entries@)
    }
}

impl Ledger {
    /// No address is held twice.
    #[verifier::type_invariant]
    spec fn well_formed(self) -> bool {
        distinct_keys(self.entries@)
    }

    /// A ledger holds finitely many accounts.
    pub proof fn lemma_view_finite(&self)
        ensures
            self@.dom().finite(),
    {
        lemma_finite(self.entries@);
    }

    /// A ledger without accounts.
    pub fn new() -> (ledger: Ledger)
        ensures
            ledger@ == Map::<Pubkey, AccountData>::empty(),
    {
        let ledger = Ledger { entries: Vec::new() };
        assert(ledger@ =~= Map::<Pubkey, AccountData>::empty());
        ledger
    }

    /// Moves the entries out, to be changed and put back.
    fn take_entries(&mut self) -> (entries: Vec<Entry>)
        ensures
            entries@ == old(self).entries@,
            final(self).entries@.len() == 0,
    {
        let mut entries: Vec<Entry> = Vec::new();
        core::mem::swap(&mut self.entries, &mut entries);
        entries
    }

    /// Where the entry for `key` stands, if there is one.
    fn position(&self, key: &Pubkey) -> (found: Option<usize>)
        ensures
            match found {
                Some(i) => i < self.entries@.len() && self.entries@[i as int].key == *key,
                None => !has_key(self.entries@, *key),
            },
    {
        let mut i: usize = 0;
        while i < self.entries.len()
            invariant
                i <= self.entries@.len(),
                forall|j: int| 0 <= j < i ==> self.entries@[j].key != *key,
            decreases self.entries@.len() - i,
        {
            if self.entries[i].key == *key {
                return Some(i);
            }
            i += 1;
        }
        None
    }

    /// What the address `key` holds, if anything.
    pub fn get(&self, key: &Pubkey) -> (data: Option<AccountData>)
        ensures
            data == (if self@.dom().contains(*key) {
                Some(self@[*key])
            } else {
                None
            }),
    {
        proof {
            use_type_invariant(self);
        }
        match self.position(key) {
            Some(i) => {
                proof {
                    lemma_lookup(self.entries@, i as int);
                }
                Some(self.entries[i].data)
            },
            None => None,
        }
    }

    /// Whether the address `key` holds an account.
    pub fn contains(&self, key: &Pubkey) -> (held: bool)
        ensures
            held == self@.dom().contains(*key),
    {
        self.get(key).is_some()
    }

    /// The token account at `key`, if there is one.
    pub fn token_account(&self, key: &Pubkey) -> (token: Option<TokenAccount>)
        ensures
            token == token_of(self@, *key),
    {
        match self.get(key) {
            Some(AccountData::Token(token)) => Some(token),
            _ => None,
        }
    }

    /// Puts `data` at the unused address `key`.
    pub fn create_account(&mut self, key: Pubkey, data: AccountData) -> (result: Result<
        (),
        EscrowError,
    >)
        ensures
            old(self)@.dom().contains(key) ==> result == Err::<(), EscrowError>(
                EscrowError::AccountInUse,
            ) && final(self)@ == old(self)@,
            !old(self)@.dom().contains(key) ==> result is Ok && final(self)@ == old(self)@.insert(
                key,
                data,
            ),
            result is Ok ==> total_funds(final(self)@) == total_funds(old(self)@) + funds_in(data),
    {
        proof {
            use_type_invariant(&*self);
            self.lemma_view_finite();
            lemma_total_after_insert(self@, key, data);
        }
        match self.position(&key) {
            Some(i) => {
                proof {
                    lemma_lookup(self.entries@, i as int);
                }
                Err(EscrowError::AccountInUse)
            },
            None => {
                proof {
                    lemma_push(self.entries@, Entry { key, data });
                }
                let mut entries = self.take_entries();
                entries.push(Entry { key, data });
                self.entries = entries;
                Ok(())
            },
        }
    }

    /// Frees the address `key`, whatever it holds.
    pub fn remove_account(&mut self, key: &Pubkey)
        ensures
            final(self)@ == old(self)@.remove(*key),
            total_funds(final(self)@) + funds_at(old(self)@, *key) == total_funds(old(self)@),
    {
        proof {
            use_type_invariant(&*self);
            self.lemma_view_finite();
            lemma_total_splits(self@, *key);
        }
        match self.position(key) {
            Some(i) => {
                proof {
                    lemma_remove(self.entries@, i as int);
                }
                let mut entries = self.take_entries();
                entries.remove(i);
                self.entries = entries;
            },
            None => {
                assert(self@ =~= self@.remove(*key));
            },
        }
    }

    /// Replaces what the entry at `i` holds.
    fn put(&mut self, i: usize, data: AccountData)
        requires
            i < old(self).entries@.len(),
        ensures
            final(self)@ == old(self)@.insert(old(self).entries@[i as int].key, data),
            final(self).entries@.len() == old(self).entries@.len(),
            forall|j: int|
                0 <= j < old(self).entries@.len() ==> final(self).entries@[j].key == old(
                    self,
                ).entries@[j].key,
    {
        proof {
            use_type_invariant(&*self);
            lemma_update(self.entries@, i as int, data);
        }
        let mut entries = self.take_entries();
        let key = entries[i].key;
        entries.set(i, Entry { key, data });
        self.entries = entries;
    }

    /// The escrow record at `key`, if there is one.
    pub fn escrow_account(&self, key: &Pubkey) -> (record: Option<EscrowAccount>)
        ensures
            record == escrow_of(self@, *key),
    {
        match self.get(key) {
            Some(AccountData::Escrow(record)) => Some(record),
            _ => None,
        }
    }

    /// The token account at `key` and where its entry stands, if there is one.
    fn token_at(&self, key: &Pubkey) -> (found: Option<(usize, TokenAccount)>)
        ensures
            match found {
                Some((i, token)) => i < self.entries@.len() && self.entries@[i as int].key == *key
                    && token_of(self@, *key) == Some(token),
                None => token_of(self@, *key) is None,
            },
    {
        proof {
            use_type_invariant(self);
        }
        match self.position(key) {
            Some(i) => {
                proof {
                    lemma_lookup(self.entries@, i as int);
                }
                match self.entries[i].data {
                    AccountData::Token(token) => Some((i, token)),
                    AccountData::Escrow(_) => None,
                }
            },
            None => None,
        }
    }

    /// Moves `amount` from one token account to another, on the word of the
    /// source's authority.
    pub fn transfer(&mut self, context: &CpiContext<Transfer>, amount: u64) -> (result: Result<
        (),
        EscrowError,
    >)
        ensures
            settles(
                old(self)@,
                transfer_outcome(old(self)@, *context, amount),
                result,
                final(self)@,
            ),
            total_funds(final(self)@) == total_funds(old(self)@),
    {
        proof {
            self.lemma_view_finite();
            transfer_conserves_funds(self@, *context, amount);
        }
        let call = &context.accounts;
        let (i, source) = match self.token_at(&call.from) {
            Some(found) => found,
            None => { return Err(EscrowError::AccountNotFound); },
        };
        let (j, target) = match self.token_at(&call.to) {
            Some(found) => found,
            None => { return Err(EscrowError::AccountNotFound); },
        };
        if source.amount < amount {
            return Err(EscrowError::InsufficientFunds);
        }
        if !may_sign_for(&call.authority, &context.signer, &source.authority) {
            return Err(EscrowError::Unauthorized);
        }
        if call.from == call.to {
            return Ok(());
        }
        if target.amount > u64::MAX - amount {
            return Err(EscrowError::Overflow);
        }
        self.put(
            i,
            AccountData::Token(
                TokenAccount { authority: source.authority, amount: source.amount - amount },
            ),
        );
        self.put(
            j,
            AccountData::Token(
                TokenAccount { authority: target.authority, amount: target.amount + amount },
            ),
        );
        Ok(())
    }

    /// Hands a token account over to `new_authority`, on the word of its
    /// current authority.
    pub fn set_authority(
        &mut self,
        context: &CpiContext<SetAuthority>,
        new_authority: Pubkey,
    ) -> (result: Result<(), EscrowError>)
        ensures
            settles(
                old(self)@,
                set_authority_outcome(old(self)@, *context, new_authority),
                result,
                final(self)@,
            ),
            total_funds(final(self)@) == total_funds(old(self)@),
    {
        proof {
            self.lemma_view_finite();
            set_authority_conserves_funds(self@, *context, new_authority);
        }
        let call = &context.accounts;
        let (i, token) = match self.token_at(&call.account_or_mint) {
            Some(found) => found,
            None => { return Err(EscrowError::AccountNotFound); },
        };
        if !may_sign_for(&call.current_authority, &context.signer, &token.authority) {
            return Err(EscrowError::Unauthorized);
        }
        self.put(
            i,
            AccountData::Token(TokenAccount { authority: new_authority, amount: token.amount }),
        );
        Ok(())
    }

    /// Closes an empty token account, on the word of its authority.
    pub fn close_account(&mut self, context: &CpiContext<CloseAccount>) -> (result: Result<
        (),
        EscrowError,
    >)
        ensures
            settles(
                old(self)@,
                close_account_outcome(old(self)@, *context),
                result,
                final(self)@,
            ),
            total_funds(final(self)@) == total_funds(old(self)@),
    {
        proof {
            self.lemma_view_finite();
            close_account_conserves_funds(self@, *context);
        }
        let call = &context.accounts;
        let token = match self.token_account(&call.account) {
            Some(token) => token,
            None => { return Err(EscrowError::AccountNotFound); },
        };
        if token.amount != 0 {
            return Err(EscrowError::AccountNotEmpty);
        }
        if !may_sign_for(&call.authority, &context.signer, &token.authority) {
            return Err(EscrowError::Unauthorized);
        }
        self.remove_account(&call.account);
        Ok(())
    }

    /// Makes one call.
    pub fn invoke(&mut self, call: &TokenCall) -> (result: Result<(), EscrowError>)
        ensures
            settles(old(self)@, call_outcome(old(self)@, *call), result, final(self)@),
            total_funds(final(self)@) == total_funds(old(self)@),
    {
        match call {
            TokenCall::Transfer(context, amount) => self.transfer(context, *amount),
            TokenCall::SetAuthority(context, new_authority) => self.set_authority(
                context,
                *new_authority,
            ),
            TokenCall::CloseAccount(context) => self.close_account(context),
        }
    }

    /// Makes the calls in turn, up to the first that is refused. What the
    /// calls before that one did stays done.
    pub fn run(&mut self, calls: &Vec<TokenCall>) -> (result: Result<(), EscrowError>)
        ensures
            match calls_outcome(old(self)@, calls@) {
                Ok(accounts) => result is Ok && final(self)@ == accounts,
                Err(error) => result == Err::<(), EscrowError>(error),
            },
            final(self)@ == calls_progress(old(self)@, calls@),
            total_funds(final(self)@) == total_funds(old(self)@),
    {
        let mut i: usize = 0;
        assert(calls@.subrange(0, calls@.len() as int) =~= calls@);
        while i < calls.len()
            invariant
                i <= calls@.len(),
                calls_outcome(old(self)@, calls@) == calls_outcome(
                    self@,
                    calls@.subrange(i as int, calls@.len() as int),
                ),
                calls_progress(old(self)@, calls@) == calls_progress(
                    self@,
                    calls@.subrange(i as int, calls@.len() as int),
                ),
                total_funds(self@) == total_funds(old(self)@),
            decreases calls@.len() - i,
        {
            let ghost rest = calls@.subrange(i as int, calls@.len() as int);
            assert(rest.first() == calls@[i as int]);
            assert(rest.drop_first() =~= calls@.subrange(i + 1, calls@.len() as int));
            match self.invoke(&calls[i]) {
                Ok(()) => {},
                Err(error) => { return Err(error); },
            }
            i += 1;
        }
        Ok(())
    }

    /// Makes the calls in turn: all of them, or, where one is refused, none.
    pub fn invoke_all(&mut self, calls: &Vec<TokenCall>) -> (result: Result<(), EscrowError>)
        ensures
            settles(old(self)@, calls_outcome(old(self)@, calls@), result, final(self)@),
            total_funds(final(self)@) == total_funds(old(self)@),
    {
        let mut staged = self.clone();
        staged.run(calls)?;
        *self = staged;
        Ok(())
    }
}

impl Clone for Ledger {
    /// A second ledger with the same accounts.
    fn clone(&self) -> (copy: Ledger)
        ensures
            copy@ == self@,
    {
        proof {
            use_type_invariant(self);
        }
        let mut entries: Vec<Entry> = Vec::new();
        let mut i: usize = 0;
        while i < self.entries.len()
            invariant
                i <= self.entries@.len(),
                entries@ == self.entries@.subrange(0, i as int),
            decreases self.entries@.len() - i,
        {
            entries.push(self.entries[i]);
            assert(entries@ =~= self.entries@.subrange(0, i + 1));
            i += 1;
        }
        assert(entries@ =~= self.entries@);
        Ledger { entries }
    }
}

} // verus!
