use vstd::prelude::*;
use crate::constants::ANCHOR_DISCRIMINATOR;
use crate::states::{ParticipantVault, Pubkey};

verus! {

/// An account as the program sees it: the program that owns it and its data.
pub struct AccountData {
    pub owner: Pubkey,
    pub data: Vec<u8>,
}

/// Type tag that precedes a stored participant vault record.
pub const PARTICIPANT_VAULT_DISCRIMINATOR: [u8; 8] = [73, 185, 15, 104, 93, 232, 88, 10];

/// Bytes of a participant vault record's fields, tag excluded.
pub const PARTICIPANT_VAULT_SPACE: usize = 77;

/// Where the payment id of a stored participant vault record starts.
pub const PARTICIPANT_VAULT_PAYMENT_ID_OFFSET: usize = 40;

pub open spec fn pow256(n: nat) -> nat
    decreases n,
{
    if n == 0 {
        1
    } else {
        256 * pow256((n - 1) as nat)
    }
}

/// The number that bytes stand for, least significant byte first.
pub open spec fn le_value(b: Seq<u8>) -> nat
    decreases b.len(),
{
    if b.len() == 0 {
        0
    } else {
        b[0] as nat + 256 * le_value(b.drop_first())
    }
}

/// The `n` lowest bytes of `v`, least significant first.
pub open spec fn le_bytes(v: nat, n: nat) -> Seq<u8>
    decreases n,
{
    if n == 0 {
        seq![]
    } else {
        seq![(v % 256) as u8] + le_bytes(v / 256, (n - 1) as nat)
    }
}

/// The stored form of a participant vault record: its tag, then its fields in
/// order, integers least significant byte first.
pub open spec fn participant_vault_image(v: ParticipantVault) -> Seq<u8> {
    PARTICIPANT_VAULT_DISCRIMINATOR@ + v.issuer.bytes@ + le_bytes(v.payment_id as nat, 4)
        + v.participant.bytes@ + le_bytes(v.amount as nat, 8) + seq![v.bump]
}

/// Whether an account holds a participant vault record of `payment_id`: it is
/// owned by the program, its data holds a tag and every field of the record,
/// and the stored payment id is `payment_id`. The tag itself is not read.
pub open spec fn holds_participant_vault_of(
    owner: Pubkey,
    data: Seq<u8>,
    payment_id: u32,
    program_id: Pubkey,
) -> bool {
    &&& owner == program_id
    &&& data.len() >= ANCHOR_DISCRIMINATOR + PARTICIPANT_VAULT_SPACE
    &&& le_value(
        data.subrange(
            PARTICIPANT_VAULT_PAYMENT_ID_OFFSET as int,
            PARTICIPANT_VAULT_PAYMENT_ID_OFFSET + 4,
        ),
    ) == payment_id
}

pub proof fn lemma_le_bytes_len(v: nat, n: nat)
    ensures
        le_bytes(v, n).len() == n,
    decreases n,
{
    if n > 0 {
        lemma_le_bytes_len(v / 256, (n - 1) as nat);
    }
}

/// Reading back the `n` lowest bytes of a number below `256^n` gives the number.
pub proof fn lemma_le_round_trip(v: nat, n: nat)
    requires
        v < pow256(n),
    ensures
        le_value(le_bytes(v, n)) == v,
    decreases n,
{
    if n > 0 {
        let rest = le_bytes(v / 256, (n - 1) as nat);
        assert(le_bytes(v, n).drop_first() =~= rest);
        assert(v / 256 < pow256((n - 1) as nat)) by (nonlinear_arith)
            requires
                v < 256 * pow256((n - 1) as nat),
        ;
        lemma_le_round_trip(v / 256, (n - 1) as nat);
    }
}

/// The stored form of a record holds a participant vault record of exactly the
/// record's own payment id.
pub proof fn lemma_image_holds_its_payment_id(v: ParticipantVault, payment_id: u32, program_id: Pubkey)
    ensures
        holds_participant_vault_of(program_id, participant_vault_image(v), payment_id, program_id) <==> v.payment_id
            == payment_id,
{
    let image = participant_vault_image(v);
    lemma_le_bytes_len(v.payment_id as nat, 4);
    lemma_le_bytes_len(v.amount as nat, 8);
    assert(image.subrange(40, 44) =~= le_bytes(v.payment_id as nat, 4));
    reveal_with_fuel(pow256, 5);
    assert(pow256(4) == 4294967296);
    lemma_le_round_trip(v.payment_id as nat, 4);
}

/// Reads `n` bytes of `data` from `start` as a number, least significant first.
fn read_le(data: &[u8], start: usize, n: usize) -> (r: u64)
    requires
        n <= 8,
        start + n <= data@.len(),
    ensures
        r == le_value(data@.subrange(start as int, start + n)),
{
    let len = data.len();
    let mut v: u64 = 0;
    let mut i: usize = n;
    proof {
        reveal_with_fuel(pow256, 9);
    }
    assert(pow256(8) == 18446744073709551616);
    while i > 0
        invariant
            n <= 8,
            i <= n,
            start + n <= data@.len(),
            data@.len() == len,
            pow256(8) == 18446744073709551616,
            v == le_value(data@.subrange(start + i, start + n)),
            v < pow256((n - i) as nat),
        decreases i,
    {
        let k: Ghost<nat> = Ghost((n - i) as nat);
        proof {
            lemma_pow256_monotone((k@ + 1) as nat, 8);
        }
        let b = data[start + i - 1];
        assert(v * 256 + b < pow256(k@) * 256) by (nonlinear_arith)
            requires
                v < pow256(k@),
                b < 256,
        ;
        assert(data@.subrange(start + i - 1, start + n).drop_first() =~= data@.subrange(
            start + i,
            start + n,
        ));
        v = v * 256 + b as u64;
        i = i - 1;
    }
    v
}

proof fn lemma_pow256_monotone(a: nat, b: nat)
    requires
        a <= b,
    ensures
        pow256(a) <= pow256(b),
    decreases b,
{
    if a < b {
        lemma_pow256_monotone(a, (b - 1) as nat);
    }
}

/// Appends the `n` lowest bytes of `v`, least significant first.
fn push_le(out: &mut Vec<u8>, v: u64, n: usize)
    ensures
        final(out)@ == old(out)@ + le_bytes(v as nat, n as nat),
{
    let mut x: u64 = v;
    let mut i: usize = 0;
    while i < n
        invariant
            i <= n,
            out@ + le_bytes(x as nat, (n - i) as nat) == old(out)@ + le_bytes(v as nat, n as nat),
        decreases n - i,
    {
        let ghost before = out@;
        let ghost k = (n - i) as nat;
        assert(le_bytes(x as nat, k) == seq![(x as nat % 256) as u8] + le_bytes(x as nat / 256, (k - 1) as nat));
        out.push((x % 256) as u8);
        assert(before + le_bytes(x as nat, k) =~= out@ + le_bytes((x / 256) as nat, (k - 1) as nat));
        x = x / 256;
        i = i + 1;
    }
    assert(le_bytes(x as nat, 0) =~= seq![]);
    assert(out@ =~= out@ + le_bytes(x as nat, 0));
}

fn push_key(out: &mut Vec<u8>, key: &Pubkey)
    ensures
        final(out)@ == old(out)@ + key.bytes@,
{
    let mut i: usize = 0;
    while i < 32
        invariant
            i <= 32,
            out@ == old(out)@ + key.bytes@.subrange(0, i as int),
        decreases 32 - i,
    {
        out.push(key.bytes[i]);
        assert(key.bytes@.subrange(0, i + 1) =~= key.bytes@.subrange(0, i as int).push(key.bytes@[i as int]));
        i = i + 1;
    }
    assert(key.bytes@.subrange(0, 32) =~= key.bytes@);
}

/// The stored form of a participant vault record.
pub fn encode_participant_vault(v: &ParticipantVault) -> (r: Vec<u8>)
    ensures
        r@ == participant_vault_image(*v),
{
    let mut out: Vec<u8> = Vec::new();
    let mut i: usize = 0;
    while i < 8
        invariant
            i <= 8,
            out@ == PARTICIPANT_VAULT_DISCRIMINATOR@.subrange(0, i as int),
        decreases 8 - i,
    {
        out.push(PARTICIPANT_VAULT_DISCRIMINATOR[i]);
        assert(PARTICIPANT_VAULT_DISCRIMINATOR@.subrange(0, i + 1) =~= PARTICIPANT_VAULT_DISCRIMINATOR@.subrange(
            0,
            i as int,
        ).push(PARTICIPANT_VAULT_DISCRIMINATOR@[i as int]));
        i = i + 1;
    }
    assert(PARTICIPANT_VAULT_DISCRIMINATOR@.subrange(0, 8) =~= PARTICIPANT_VAULT_DISCRIMINATOR@);
    push_key(&mut out, &v.issuer);
    push_le(&mut out, v.payment_id as u64, 4);
    push_key(&mut out, &v.participant);
    push_le(&mut out, v.amount, 8);
    out.push(v.bump);
    out
}

/// Whether `account` holds a participant vault record of `payment_id`. Any
/// other account, malformed ones included, gives `false`, never a failure.
pub fn is_valid_participant_vault(account: &AccountData, payment_id: u32, program_id: &Pubkey) -> (r: bool)
    ensures
        r == holds_participant_vault_of(account.owner, account.data@, payment_id, *program_id),
{
    if !account.owner.same_as(program_id) {
        return false;
    }
    let data = account.data.as_slice();
    if data.len() <= ANCHOR_DISCRIMINATOR {
        return false;
    }
    if data.len() - ANCHOR_DISCRIMINATOR < PARTICIPANT_VAULT_SPACE {
        return false;
    }
    let stored = read_le(data, PARTICIPANT_VAULT_PAYMENT_ID_OFFSET, 4);
    stored == payment_id as u64
}

} // verus!
