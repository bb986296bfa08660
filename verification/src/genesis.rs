//! The ledger's first state.

use crate::arith::max_value;
use crate::encoding::{bounded, encode, lemma_utf8_length_bound, scale_encoded, truncate_from};
use crate::ledger::Ledger;
use crate::pallet::Pallet;
use crate::types::{AccountId, Balance, Config};
use vstd::prelude::*;
use vstd::utf8::encode_utf8;

verus! {

/// What the ledger starts from.
pub struct GenesisConfig {
    /// Balances by account. Of two entries for one account the later counts.
    pub balances: Vec<(AccountId, Balance)>,
    /// Allowances by owner, each with the spender and the amount. Of two
    /// entries for one pair the later counts.
    pub allowances: Vec<(AccountId, (AccountId, Balance))>,
    /// The reserve that can be issued.
    pub total_supply: Balance,
    pub name: String,
    pub symbol: String,
}

/// The balance store that a list of seed entries leaves behind.
pub open spec fn seeded_balances(entries: Seq<(AccountId, Balance)>) -> Map<AccountId, Balance>
    decreases entries.len(),
{
    if entries.len() == 0 {
        Map::empty()
    } else {
        seeded_balances(entries.drop_last()).insert(entries.last().0, entries.last().1)
    }
}

/// The allowance store that a list of seed entries leaves behind.
pub open spec fn seeded_allowances(entries: Seq<(AccountId, (AccountId, Balance))>) -> Map<
    (AccountId, AccountId),
    Balance,
>
    decreases entries.len(),
{
    if entries.len() == 0 {
        Map::empty()
    } else {
        seeded_allowances(entries.drop_last()).insert(
            (entries.last().0, entries.last().1.0),
            entries.last().1.1,
        )
    }
}

/// Of the seed entries for one account the last decides its balance.
pub proof fn lemma_seeded_balance_is_last_entry(entries: Seq<(AccountId, Balance)>, i: int)
    requires
        0 <= i < entries.len(),
        forall|j: int| i < j < entries.len() ==> entries[j].0 != entries[i].0,
    ensures
        seeded_balances(entries).contains_key(entries[i].0),
        seeded_balances(entries)[entries[i].0] == entries[i].1,
    decreases entries.len(),
{
    if i < entries.len() - 1 {
        lemma_seeded_balance_is_last_entry(entries.drop_last(), i);
    }
}

/// An account that no seed entry names has no entry in the store.
pub proof fn lemma_seeded_balance_absent(entries: Seq<(AccountId, Balance)>, who: AccountId)
    requires
        forall|j: int| 0 <= j < entries.len() ==> entries[j].0 != who,
    ensures
        !seeded_balances(entries).contains_key(who),
    decreases entries.len(),
{
    if entries.len() > 0 {
        lemma_seeded_balance_absent(entries.drop_last(), who);
    }
}

/// Of the seed entries for one owner and spender the last decides the
/// allowance.
pub proof fn lemma_seeded_allowance_is_last_entry(
    entries: Seq<(AccountId, (AccountId, Balance))>,
    i: int,
)
    requires
        0 <= i < entries.len(),
        forall|j: int|
            i < j < entries.len() ==> (entries[j].0, entries[j].1.0) != (
                entries[i].0,
                entries[i].1.0,
            ),
    ensures
        seeded_allowances(entries).contains_key((entries[i].0, entries[i].1.0)),
        seeded_allowances(entries)[(entries[i].0, entries[i].1.0)] == entries[i].1.1,
    decreases entries.len(),
{
    if i < entries.len() - 1 {
        lemma_seeded_allowance_is_last_entry(entries.drop_last(), i);
    }
}

/// A pair of owner and spender that no seed entry names has no entry in the
/// store.
pub proof fn lemma_seeded_allowance_absent(
    entries: Seq<(AccountId, (AccountId, Balance))>,
    owner: AccountId,
    spender: AccountId,
)
    requires
        forall|j: int|
            0 <= j < entries.len() ==> (entries[j].0, entries[j].1.0) != (owner, spender),
    ensures
        !seeded_allowances(entries).contains_key((owner, spender)),
    decreases entries.len(),
{
    if entries.len() > 0 {
        lemma_seeded_allowance_absent(entries.drop_last(), owner, spender);
    }
}

impl GenesisConfig {
    /// Whether name and symbol can be encoded: neither takes more than
    /// `u32::MAX` bytes of UTF-8.
    pub open spec fn encodable(&self) -> bool {
        encode_utf8(self.name@).len() <= u32::MAX && encode_utf8(self.symbol@).len() <= u32::MAX
    }

    /// Tells whether `build` can take this configuration.
    pub fn is_encodable(&self) -> (r: bool)
        ensures
            r == self.encodable(),
    {
        self.name.as_str().as_bytes().len() <= 0xffff_ffff
            && self.symbol.as_str().as_bytes().len() <= 0xffff_ffff
    }

    /// The ledger that `build` makes under `config`.
    pub open spec fn ledger(&self, config: Config) -> Ledger {
        Ledger {
            name: bounded(scale_encoded(self.name@), config.max_name_length),
            symbol: bounded(scale_encoded(self.symbol@), config.max_symbol_length),
            total_supply: self.total_supply,
            balances: seeded_balances(self.balances@),
            allowances: seeded_allowances(self.allowances@),
        }
    }

    /// Sets the ledger up: name and symbol are encoded and cut to the lengths
    /// that `config` allows, the reserve is taken as given, and the seed
    /// entries are written in order.
    pub fn build(&self, config: &Config) -> (r: Pallet)
        requires
            self.encodable(),
        ensures
            r@ == self.ledger(*config),
            r@.name.len() <= config.max_name_length,
            r@.symbol.len() <= config.max_symbol_length,
    {
        let name = truncate_from(encode(&self.name), config.max_name_length);
        let symbol = truncate_from(encode(&self.symbol), config.max_symbol_length);
        let mut pallet = Pallet::new(name, symbol, self.total_supply);
        let mut i: usize = 0;
        while i < self.balances.len()
            invariant
                i <= self.balances.len(),
                pallet@ == (Ledger {
                    balances: seeded_balances(self.balances@.take(i as int)),
                    allowances: Map::empty(),
                    ..self.ledger(*config)
                }),
            decreases self.balances.len() - i,
        {
            let entry = &self.balances[i];
            pallet.update_balance(&entry.0, entry.1);
            assert(self.balances@.take(i + 1).drop_last() == self.balances@.take(i as int));
            i += 1;
        }
        assert(self.balances@.take(i as int) == self.balances@);
        let mut j: usize = 0;
        while j < self.allowances.len()
            invariant
                j <= self.allowances.len(),
                pallet@ == (Ledger {
                    allowances: seeded_allowances(self.allowances@.take(j as int)),
                    ..self.ledger(*config)
                }),
            decreases self.allowances.len() - j,
        {
            let entry = &self.allowances[j];
            pallet.set_allowance(&entry.0, &entry.1.0, entry.1.1);
            assert(self.allowances@.take(j + 1).drop_last() == self.allowances@.take(j as int));
            j += 1;
        }
        assert(self.allowances@.take(j as int) == self.allowances@);
        pallet
    }
}

impl Default for GenesisConfig {
    /// No seed entries, the largest reserve, and placeholder metadata.
    fn default() -> (r: Self)
        ensures
            r.balances@.len() == 0,
            r.allowances@.len() == 0,
            r.total_supply == Balance::MAX,
            r.name@ == "DEFAULT"@,
            r.symbol@ == "DEF"@,
            r.encodable(),
    {
        proof {
            reveal_strlit("DEFAULT");
            reveal_strlit("DEF");
            lemma_utf8_length_bound("DEFAULT"@);
            lemma_utf8_length_bound("DEF"@);
        }
        GenesisConfig {
            balances: Vec::new(),
            allowances: Vec::new(),
            total_supply: max_value(),
            name: "DEFAULT".to_owned(),
            symbol: "DEF".to_owned(),
        }
    }
}

} // verus!
