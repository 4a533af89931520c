use vstd::prelude::*;
use crate::errors::TransactionError;
use crate::events::Event;
use crate::invariants::records_at_their_addresses;
use crate::states::{derive_address, Address, ParticipantVault, PaymentVault, Pubkey, Seed};
use crate::table::Table;
use crate::utils::{encode_participant_vault, participant_vault_image, AccountData};

verus! {

/// The derivation proof that this ledger gives every derived address: here
/// each seed tuple is valid at the highest bump.
pub const CANONICAL_BUMP: u8 = 255;

/// Whether `k` is the all-zero key, which owns plain wallets and the custody
/// addresses.
pub open spec fn is_system_program(k: Pubkey) -> bool {
    forall|i: int| 0 <= i < 32 ==> k.bytes@[i] == 0
}

/// The all-zero key, which owns plain wallets and the custody addresses.
pub fn system_program_id() -> (r: Pubkey)
    ensures
        is_system_program(r),
{
    Pubkey { bytes: [0u8; 32] }
}

pub open spec fn vault_address(issuer: Pubkey, payment_id: u32) -> Address {
    Address::Derived(Seed::Vault, issuer, payment_id)
}

pub open spec fn vault_authority_address(issuer: Pubkey, payment_id: u32) -> Address {
    Address::Derived(Seed::VaultAuthority, issuer, payment_id)
}

pub open spec fn participant_vault_address(participant: Pubkey, payment_id: u32) -> Address {
    Address::Derived(Seed::ParticipantVault, participant, payment_id)
}

pub open spec fn participant_vault_authority_address(participant: Pubkey, payment_id: u32) -> Address {
    Address::Derived(Seed::ParticipantVaultAuthority, participant, payment_id)
}

/// What the ledger holds: balances, the program's records keyed by their
/// addresses, and the event log.
pub struct LedgerView {
    pub program_id: Pubkey,
    pub minimum_reserve: u64,
    pub balances: Map<Address, u64>,
    pub vaults: Map<Address, PaymentVault>,
    pub participant_vaults: Map<Address, ParticipantVault>,
    pub events: Seq<Event>,
}

impl LedgerView {
    /// The balance of `a`; an address that never held funds holds none.
    pub open spec fn balance(self, a: Address) -> u64 {
        if self.balances.contains_key(a) {
            self.balances[a]
        } else {
            0
        }
    }
}

/// A ledger that holds the escrow program's records and the balances of
/// wallets and custody addresses, and applies each operation of the program
/// as one atomic transaction.
pub struct Ledger {
    pub(crate) program_id: Pubkey,
    pub(crate) minimum_reserve: u64,
    pub(crate) balances: Table<u64>,
    pub(crate) vaults: Table<PaymentVault>,
    pub(crate) participant_vaults: Table<ParticipantVault>,
    pub(crate) events: Vec<Event>,
}

impl View for Ledger {
    type V = LedgerView;

    open(crate) spec fn view(&self) -> LedgerView {
        LedgerView {
            program_id: self.program_id,
            minimum_reserve: self.minimum_reserve,
            balances: self.balances@,
            vaults: self.vaults@,
            participant_vaults: self.participant_vaults@,
            events: self.events@,
        }
    }
}

impl Ledger {
    pub open(crate) spec fn wf(&self) -> bool {
        &&& self.balances.wf()
        &&& self.vaults.wf()
        &&& self.participant_vaults.wf()
    }

    /// An empty ledger for the program `program_id`, where a custody address
    /// must keep `minimum_reserve` lamports.
    pub fn new(program_id: Pubkey, minimum_reserve: u64) -> (r: Ledger)
        ensures
            r.wf(),
            records_at_their_addresses(r@),
            r@ == (LedgerView {
                program_id,
                minimum_reserve,
                balances: Map::empty(),
                vaults: Map::empty(),
                participant_vaults: Map::empty(),
                events: Seq::empty(),
            }),
    {
        Ledger {
            program_id,
            minimum_reserve,
            balances: Table::new(),
            vaults: Table::new(),
            participant_vaults: Table::new(),
            events: Vec::new(),
        }
    }

    /// Credits `lamports` to the wallet of `owner`. Fails, changing nothing,
    /// where the balance would pass the largest amount.
    pub fn airdrop(&mut self, owner: Pubkey, lamports: u64) -> (r: Result<(), TransactionError>)
        requires
            old(self).wf(),
        ensures
            final(self).wf(),
            if old(self)@.balance(Address::Key(owner)) + lamports > u64::MAX {
                r == Err::<(), TransactionError>(TransactionError::ArithmeticOverflow) && final(self)@ == old(self)@
            } else {
                r is Ok && final(self)@ == (LedgerView {
                    balances: old(self)@.balances.insert(
                        Address::Key(owner),
                        (old(self)@.balance(Address::Key(owner)) + lamports) as u64,
                    ),
                    ..old(self)@
                })
            },
    {
        let a = Address::Key(owner);
        let held = self.balance(&a);
        if held > u64::MAX - lamports {
            return Err(TransactionError::ArithmeticOverflow);
        }
        self.balances.insert(a, held + lamports);
        Ok(())
    }

    pub fn program_id(&self) -> (r: Pubkey)
        ensures
            r == self@.program_id,
    {
        self.program_id
    }

    pub fn minimum_reserve(&self) -> (r: u64)
        ensures
            r == self@.minimum_reserve,
    {
        self.minimum_reserve
    }

    /// The balance of `a`.
    pub fn balance(&self, a: &Address) -> (r: u64)
        requires
            self.wf(),
        ensures
            r == self@.balance(*a),
    {
        match self.balances.get(a) {
            Some(v) => v,
            None => 0,
        }
    }

    /// The vault record of `issuer`'s payment `payment_id`, if it exists.
    pub fn vault(&self, issuer: Pubkey, payment_id: u32) -> (r: Option<PaymentVault>)
        requires
            self.wf(),
        ensures
            r == (if self@.vaults.contains_key(vault_address(issuer, payment_id)) {
                Some(self@.vaults[vault_address(issuer, payment_id)])
            } else {
                None::<PaymentVault>
            }),
    {
        self.vaults.get(&derive_address(Seed::Vault, issuer, payment_id))
    }

    /// The participant vault record of `participant` for `payment_id`, if it exists.
    pub fn participant_vault(&self, participant: Pubkey, payment_id: u32) -> (r: Option<ParticipantVault>)
        requires
            self.wf(),
        ensures
            r == (if self@.participant_vaults.contains_key(participant_vault_address(participant, payment_id)) {
                Some(self@.participant_vaults[participant_vault_address(participant, payment_id)])
            } else {
                None::<ParticipantVault>
            }),
    {
        self.participant_vaults.get(&derive_address(Seed::ParticipantVault, participant, payment_id))
    }

    /// The account at the participant vault address of `participant` for
    /// `payment_id`, as the program would be handed it: the stored record,
    /// owned by the program, where it exists, else an empty account.
    pub fn participant_vault_account(&self, participant: Pubkey, payment_id: u32) -> (r: AccountData)
        requires
            self.wf(),
        ensures
            if self@.participant_vaults.contains_key(participant_vault_address(participant, payment_id)) {
                r.owner == self@.program_id && r.data@ == participant_vault_image(
                    self@.participant_vaults[participant_vault_address(participant, payment_id)],
                )
            } else {
                is_system_program(r.owner) && r.data@.len() == 0
            },
    {
        match self.participant_vault(participant, payment_id) {
            Some(record) => AccountData { owner: self.program_id, data: encode_participant_vault(&record) },
            None => AccountData { owner: system_program_id(), data: Vec::new() },
        }
    }

    /// The event log, oldest first.
    pub fn events(&self) -> (r: &Vec<Event>)
        ensures
            r@ == self@.events,
    {
        &self.events
    }

    pub(crate) fn log(&mut self, events: Vec<Event>)
        ensures
            final(self)@ == (LedgerView { events: old(self)@.events + events@, ..old(self)@ }),
            final(self).wf() == old(self).wf(),
    {
        let mut events = events;
        self.events.append(&mut events);
    }
}

} // verus!
