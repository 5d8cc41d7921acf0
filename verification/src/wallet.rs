//! The player's wallet-side bookkeeping: the greeting the player signs, the
//! on-chain player record, and the results of background wallet tasks.
//!
//! The cryptography itself — Ed25519 signing and verification, the base58
//! form of a public key, and program-derived addresses — is done by the
//! solana crates behind trusted wrappers; each result that is a pure
//! function of its inputs is given a name, and the library's own logic is
//! verified over those names.

use vstd::bytes::{spec_u64_from_le_bytes, u64_from_le_bytes};
use vstd::prelude::*;

use solana_sdk::signature::{Keypair, Signature};
use solana_sdk::signer::Signer;

verus! {

/// The greeting the player signs to start the game.
pub const MESSAGE: &'static str = "Sign this message to start the game, anon.";

/// The Ed25519 signature that the keypair of `secret` produces over
/// `message`.
pub uninterp spec fn spec_sig_of(secret: Seq<u8>, message: Seq<u8>) -> Seq<u8>;

/// The public key of the keypair built from `secret`.
pub uninterp spec fn spec_pubkey_of(secret: Seq<u8>) -> Seq<u8>;

/// Whether `sig` verifies as an Ed25519 signature over `message` under
/// `pubkey`.
pub uninterp spec fn spec_sig_valid(sig: Seq<u8>, pubkey: Seq<u8>, message: Seq<u8>) -> bool;

/// The base58 spelling of a 32-byte public key, as ASCII bytes.
pub uninterp spec fn spec_base58_of(pk: Seq<u8>) -> Seq<u8>;

/// The program-derived address for the seeds `(seed, signer)` under
/// `program_id`.
pub uninterp spec fn spec_pda_of(seed: Seq<u8>, signer: Seq<u8>, program_id: Seq<u8>) -> Seq<
    u8,
>;

/// The bump byte found alongside `spec_pda_of`.
pub uninterp spec fn spec_pda_bump(seed: Seq<u8>, signer: Seq<u8>, program_id: Seq<u8>) -> u8;

/// Whether the bump search succeeds for these seeds and program id — like
/// the address itself, a function of the arguments alone. It fails only in
/// the statistically improbable case that no bump yields a valid address.
pub uninterp spec fn spec_pda_found(seed: Seq<u8>, signer: Seq<u8>, program_id: Seq<u8>)
    -> bool;

/// Relies on solana_keypair::Keypair::sign_message: Ed25519 signing is
/// deterministic, so the 64-byte signature is a function of the secret and
/// the message alone; and a signature so produced verifies against the
/// keypair's own public key (Signature::verify accepts it).
#[verifier::external_body]
fn sign_message_bytes(secret: &Vec<u8>, message: &Vec<u8>) -> (sig: Vec<u8>)
    requires
        secret@.len() == 32,
    ensures
        sig@ == spec_sig_of(secret@, message@),
        sig@.len() == 64,
        spec_sig_valid(sig@, spec_pubkey_of(secret@), message@),
{
    let arr: [u8; 32] = secret.as_slice().try_into().unwrap();
    let keypair = Keypair::new_from_array(arr);
    keypair.sign_message(message.as_slice()).as_array().to_vec()
}

/// Relies on solana_signer::Signer::pubkey for solana_keypair::Keypair:
/// the 32-byte Ed25519 public key derived from the secret alone.
#[verifier::external_body]
fn keypair_pubkey(secret: &Vec<u8>) -> (pk: Vec<u8>)
    requires
        secret@.len() == 32,
    ensures
        pk@ == spec_pubkey_of(secret@),
        pk@.len() == 32,
{
    let arr: [u8; 32] = secret.as_slice().try_into().unwrap();
    let keypair = Keypair::new_from_array(arr);
    keypair.pubkey().to_bytes().to_vec()
}

/// Relies on solana_signature::Signature::verify: a deterministic check of
/// the signature bytes against the public key and message; a malformed
/// signature or key never verifies.
#[verifier::external_body]
fn verify_signature(sig: &Vec<u8>, pubkey: &Vec<u8>, message: &Vec<u8>) -> (ok: bool)
    ensures
        ok == spec_sig_valid(sig@, pubkey@, message@),
{
    match Signature::try_from(sig.as_slice()) {
        Ok(s) => s.verify(pubkey.as_slice(), message.as_slice()),
        Err(_) => false,
    }
}

/// Relies on the Display form of solana_pubkey::Pubkey: the base58 spelling
/// of the 32 key bytes, between 32 and 44 ASCII characters.
#[verifier::external_body]
fn pubkey_base58_bytes(pk: &Vec<u8>) -> (s: Vec<u8>)
    requires
        pk@.len() == 32,
    ensures
        s@ == spec_base58_of(pk@),
        32 <= s@.len() <= 44,
{
    let arr: [u8; 32] = pk.as_slice().try_into().unwrap();
    let address = solana_pubkey::Pubkey::new_from_array(arr);
    address.to_string().into_bytes()
}

/// Relies on solana_pubkey::Pubkey::try_find_program_address with the two
/// seeds `(seed, signer)`: the derived address and bump — and whether the
/// bump search succeeds at all — are functions of the seeds and program id
/// alone; `None` comes only in the statistically improbable case that no
/// bump yields a valid address.
#[verifier::external_body]
fn find_program_address(seed: &Vec<u8>, signer: &Vec<u8>, program_id: &Vec<u8>) -> (r: Option<
    (Vec<u8>, u8),
>)
    requires
        seed@.len() <= 32,
        signer@.len() == 32,
        program_id@.len() == 32,
    ensures
        (r is Some) == spec_pda_found(seed@, signer@, program_id@),
        r matches Some(ab) ==> {
            &&& ab.0@ == spec_pda_of(seed@, signer@, program_id@)
            &&& ab.0@.len() == 32
            &&& ab.1 == spec_pda_bump(seed@, signer@, program_id@)
        },
{
    let arr: [u8; 32] = program_id.as_slice().try_into().unwrap();
    let program = solana_pubkey::Pubkey::new_from_array(arr);
    let seeds: [&[u8]; 2] = [seed.as_slice(), signer.as_slice()];
    solana_pubkey::Pubkey::try_find_program_address(&seeds, &program)
        .map(|(address, bump)| (address.to_bytes().to_vec(), bump))
}

/// Sign `message` with the keypair of `secret` and check the signature
/// against the keypair's own public key, as the start screen does. The
/// check always passes; the signature and the check's verdict are returned.
pub fn sign_message(secret: &Vec<u8>, message: &Vec<u8>) -> (r: (Vec<u8>, bool))
    requires
        secret@.len() == 32,
    ensures
        r.0@ == spec_sig_of(secret@, message@),
        r.1,
{
    let sig = sign_message_bytes(secret, message);
    let pk = keypair_pubkey(secret);
    let ok = verify_signature(&sig, &pk, message);
    (sig, ok)
}

/// Shorten a wallet address for display: its first four and last four
/// characters around a three-dot ellipsis.
pub fn shorten_address(addr: &Vec<u8>) -> (s: Vec<u8>)
    requires
        addr@.len() >= 8,
    ensures
        s@ == addr@.subrange(0, 4) + seq![46u8, 46u8, 46u8] + addr@.subrange(
            addr@.len() - 4, addr@.len() as int),
{
    let n: usize = addr.len();
    let mut s: Vec<u8> = Vec::new();
    s.push(addr[0]);
    s.push(addr[1]);
    s.push(addr[2]);
    s.push(addr[3]);
    s.push(46);
    s.push(46);
    s.push(46);
    s.push(addr[n - 4]);
    s.push(addr[n - 3]);
    s.push(addr[n - 2]);
    s.push(addr[n - 1]);
    proof {
        assert(s@ =~= addr@.subrange(0, 4) + seq![46u8, 46u8, 46u8] + addr@.subrange(
            addr@.len() - 4, addr@.len() as int));
    }
    s
}

/// The wallet line the game's side panel shows: the base58 spelling of the
/// public key, shortened to its first four and last four characters around
/// an ellipsis.
pub fn wallet_address_display(pubkey: &Vec<u8>) -> (s: Vec<u8>)
    requires
        pubkey@.len() == 32,
    ensures
        s@ == spec_base58_of(pubkey@).subrange(0, 4) + seq![46u8, 46u8, 46u8]
            + spec_base58_of(pubkey@).subrange(spec_base58_of(pubkey@).len() - 4,
            spec_base58_of(pubkey@).len() as int),
{
    let b58 = pubkey_base58_bytes(pubkey);
    shorten_address(&b58)
}

/// The on-chain player record: the furthest wave reached, the last time
/// played as eight little-endian bytes, and the owning key.
#[derive(Clone, Debug)]
pub struct PlayerAccount {
    pub wave_reached: u8,
    pub last_played: Vec<u8>,
    pub authority: Vec<u8>,
}

/// The record's byte fields have their fixed widths.
pub open spec fn player_account_wf(p: PlayerAccount) -> bool {
    &&& p.last_played@.len() == 8
    &&& p.authority@.len() == 32
}

/// The player's view of their on-chain account: the record and its derived
/// address.
#[derive(Clone, Debug)]
pub struct PlayerInfo {
    pub data: PlayerAccount,
    pub address: Vec<u8>,
}

impl PlayerInfo {
    /// An empty record under an all-zero address.
    pub fn new() -> (p: PlayerInfo)
        ensures
            p.data.wave_reached == 0,
            p.data.last_played@ =~= Seq::new(8, |i: int| 0u8),
            p.data.authority@ =~= Seq::new(32, |i: int| 0u8),
            p.address@ =~= Seq::new(32, |i: int| 0u8),
            player_account_wf(p.data),
    {
        let mut last_played: Vec<u8> = Vec::new();
        let mut i: usize = 0;
        while i < 8
            invariant
                last_played@.len() == i as int,
                0 <= i <= 8,
                forall|j: int| 0 <= j < i as int ==> last_played@[j] == 0u8,
            decreases 8 - i,
        {
            last_played.push(0);
            i = i + 1;
        }
        let mut zeros32: Vec<u8> = Vec::new();
        let mut k: usize = 0;
        while k < 32
            invariant
                zeros32@.len() == k as int,
                0 <= k <= 32,
                forall|j: int| 0 <= j < k as int ==> zeros32@[j] == 0u8,
            decreases 32 - k,
        {
            zeros32.push(0);
            k = k + 1;
        }
        let authority = zeros32.clone();
        let address = zeros32;
        proof {
            assert(last_played@ =~= Seq::new(8, |i: int| 0u8));
            assert(authority@ =~= Seq::new(32, |i: int| 0u8));
            assert(address@ =~= Seq::new(32, |i: int| 0u8));
        }
        PlayerInfo { data: PlayerAccount { wave_reached: 0, last_played, authority }, address }
    }

    /// Derive and store this player's account address from the program's
    /// seed, the signer's public key and the program id. Returns the
    /// address and bump, or `None` in the improbable case that none exists
    /// (the stored address is then untouched).
    pub fn set_address(&mut self, seed: &Vec<u8>, signer_pubkey: &Vec<u8>, program_id: &Vec<
        u8,
    >) -> (r: Option<(Vec<u8>, u8)>)
        requires
            seed@.len() <= 32,
            signer_pubkey@.len() == 32,
            program_id@.len() == 32,
        ensures
            final(self).data == old(self).data,
            (r is Some) == spec_pda_found(seed@, signer_pubkey@, program_id@),
            r matches Some(ab) ==> {
                &&& ab.0@ == spec_pda_of(seed@, signer_pubkey@, program_id@)
                &&& ab.1 == spec_pda_bump(seed@, signer_pubkey@, program_id@)
                &&& final(self).address@ == ab.0@
            },
            r is None ==> final(self).address == old(self).address,
    {
        match find_program_address(seed, signer_pubkey, program_id) {
            Some((address, bump)) => {
                self.address = address.clone();
                Some((address, bump))
            },
            None => None,
        }
    }

    /// The last time played, read from the record's little-endian bytes.
    pub fn last_played_time(&self) -> (t: u64)
        requires
            player_account_wf(self.data),
        ensures
            t == spec_u64_from_le_bytes(self.data.last_played@),
    {
        u64_from_le_bytes(self.data.last_played.as_slice())
    }
}

/// The player's wallet as the game tracks it: its lamport balance.
#[derive(Clone, Copy, Debug, PartialEq, Eq, Structural)]
pub struct Wallet {
    pub balance: u64,
}

/// What a finished background wallet task reports: a balance query's
/// result, a sent transaction, or the fetched player record.
#[derive(Clone, Debug)]
pub enum TaskResult {
    Balance(u64),
    SignatureDone,
    PlayerData(PlayerAccount),
}

/// Apply one finished task's result: a balance report updates the wallet, a
/// fetched record replaces the player's data, a sent transaction changes
/// nothing.
pub fn process_tx_tasks(wallet: &mut Wallet, player: &mut PlayerInfo, result: TaskResult)
    ensures
        final(player).address == old(player).address,
        match result {
            TaskResult::Balance(b) => final(wallet).balance == b && final(player).data
                == old(player).data,
            TaskResult::SignatureDone => *final(wallet) == *old(wallet) && final(player).data
                == old(player).data,
            TaskResult::PlayerData(p) => *final(wallet) == *old(wallet) && final(player).data
                == p,
        },
{
    match result {
        TaskResult::Balance(b) => {
            wallet.balance = b;
        },
        TaskResult::SignatureDone => {},
        TaskResult::PlayerData(p) => {
            player.data = p;
        },
    }
}

} // verus!
