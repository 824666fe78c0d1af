//! The wager state machine: a stake is collected and a signature is asked
//! for; the signature's digest then decides whether the pool is paid out.

use vstd::prelude::*;

use crate::digest::{favorable_digest, is_favorable, sha256, sha256_of, PREFIX_LEN};
use crate::hex_text::{decode_hex, encode_hex, hex_bytes, is_hex, lower_hex};

verus! {

/// The stake a wager must carry: 0.1 of the native currency, in its smallest
/// unit (10^-24).
pub const FLIP_COST: u128 = 100_000_000_000_000_000_000_000;

/// The part of each stake that goes into the pool; the rest is a fee.
pub const FLIP_KEEP: u128 = 95_000_000_000_000_000_000_000;

/// The counters of a contract, as a value.
#[derive(Clone, Copy, Debug, PartialEq, Eq, Structural)]
pub struct Totals {
    /// Wagers ever started.
    pub flips: u128,
    /// The balance held for the next winner.
    pub pool: u128,
    /// All that was ever paid out.
    pub paid: u128,
}

/// Why a wager could not be started. The state is left as it was.
#[derive(Clone, Copy, Debug, PartialEq, Eq, Structural)]
pub enum FlipError {
    /// The attached deposit is not exactly `FLIP_COST`.
    InvalidStakeAmount,
    /// Adding the stake's kept part would overflow the pool.
    PoolOverflow,
    /// The wager count would overflow.
    FlipsOverflow,
}

/// Why a resolution was aborted. The state is left as it was.
#[derive(Clone, Copy, Debug, PartialEq, Eq, Structural)]
pub enum ResolveError {
    /// A component of the signature is not hex text.
    MalformedSignatureEncoding,
    /// Adding the payout would overflow the total paid.
    PaidOverflow,
}

/// The signer's call did not produce a response.
#[derive(Clone, Copy, Debug, PartialEq, Eq, Structural)]
pub enum ExternalCallError {
    /// The call failed.
    Failed,
    /// The call succeeded but its result, of the given length, was too long.
    TooLong(usize),
}

/// A signature as the signer hands it back: two hex-encoded components.
#[derive(Clone, Debug, PartialEq, Eq)]
pub struct SignatureResponse {
    /// The affine point `R`, as hex.
    pub big_r: String,
    /// The scalar `s`, as hex.
    pub s: String,
}

/// The request for a signature that starting a wager issues.
#[derive(Clone, Debug, PartialEq, Eq)]
pub struct SignatureRequest {
    /// The wagering account, to which the resolution is bound.
    pub account_id: String,
    /// The random seed, as lower-case hex: the payload to sign.
    pub seed_hex: String,
    /// The signature scheme asked for.
    pub scheme: String,
}

/// A payment to make to a winner.
#[derive(Clone, Debug, PartialEq, Eq)]
pub struct Transfer {
    pub account_id: String,
    pub amount: u128,
}

/// How a wager ended.
#[derive(Clone, Debug, PartialEq, Eq)]
pub struct Resolution {
    /// Whether the wager was won.
    pub won: bool,
    /// The payout to make, present exactly when the wager was won.
    pub transfer: Option<Transfer>,
}

/// The contract's state: its three counters.
pub struct Contract {
    flips: u128,
    pool: u128,
    paid: u128,
}

impl View for Contract {
    type V = Totals;

    closed spec fn view(&self) -> Totals {
        Totals { flips: self.flips, pool: self.pool, paid: self.paid }
    }
}

/// The state with every counter at zero.
pub open spec fn zero_totals() -> Totals {
    Totals { flips: 0, pool: 0, paid: 0 }
}

/// Starting a wager with `deposit` attached: the next state, or why it is
/// refused.
pub open spec fn flip_step(t: Totals, deposit: u128) -> Result<Totals, FlipError> {
    if deposit != FLIP_COST {
        Err(FlipError::InvalidStakeAmount)
    } else if t.pool + FLIP_KEEP > u128::MAX {
        Err(FlipError::PoolOverflow)
    } else if t.flips + 1 > u128::MAX {
        Err(FlipError::FlipsOverflow)
    } else {
        Ok(Totals { flips: (t.flips + 1) as u128, pool: (t.pool + FLIP_KEEP) as u128, paid: t.paid })
    }
}

/// Settling a wager whose outcome is `won`: a win moves the whole pool into
/// `paid`; a loss leaves everything as it is.
pub open spec fn settle_step(t: Totals, won: bool) -> Result<Totals, ResolveError> {
    if !won {
        Ok(t)
    } else if t.paid + t.pool > u128::MAX {
        Err(ResolveError::PaidOverflow)
    } else {
        Ok(Totals { flips: t.flips, pool: 0, paid: (t.paid + t.pool) as u128 })
    }
}

/// The outcome that a decoded signature gives: the parity of the digest of
/// `R`'s bytes followed by `s`'s bytes.
pub open spec fn outcome_of(r_bytes: Seq<u8>, s_bytes: Seq<u8>) -> bool {
    favorable_digest(sha256_of(r_bytes + s_bytes))
}

/// The outcome of a response, or `None` where a component is not hex.
pub open spec fn response_outcome(resp: SignatureResponse) -> Option<bool> {
    if is_hex(resp.big_r@) && is_hex(resp.s@) {
        Some(outcome_of(hex_bytes(resp.big_r@), hex_bytes(resp.s@)))
    } else {
        None
    }
}

/// Whether the signer's call, as resolved, wins the wager. A failed call
/// loses.
pub open spec fn call_won(call: Result<SignatureResponse, ExternalCallError>) -> bool {
    match call {
        Ok(resp) => response_outcome(resp) == Some(true),
        Err(_) => false,
    }
}

/// Resolving a wager with the signer's call: a failed call changes nothing;
/// a malformed response aborts; otherwise the outcome is settled.
pub open spec fn resolve_step(
    t: Totals,
    call: Result<SignatureResponse, ExternalCallError>,
) -> Result<Totals, ResolveError> {
    match call {
        Err(_) => Ok(t),
        Ok(resp) => match response_outcome(resp) {
            None => Err(ResolveError::MalformedSignatureEncoding),
            Some(won) => settle_step(t, won),
        },
    }
}

/// `res` tells of outcome `won`, with a payout of `amount` to `account`
/// exactly when it was won.
pub open spec fn reports(res: Resolution, won: bool, amount: u128, account: Seq<char>) -> bool {
    &&& res.won == won
    &&& if won {
        &&& res.transfer is Some
        &&& res.transfer->Some_0.account_id@ == account
        &&& res.transfer->Some_0.amount == amount
    } else {
        res.transfer is None
    }
}

impl Default for Contract {
    fn default() -> (c: Self)
        ensures
            c@ == zero_totals(),
    {
        Contract { flips: 0, pool: 0, paid: 0 }
    }
}

impl Contract {
    /// A contract with every counter at zero.
    pub fn new() -> (c: Self)
        ensures
            c@ == zero_totals(),
    {
        Contract { flips: 0, pool: 0, paid: 0 }
    }

    /// A contract holding the given counters.
    pub fn from_stats(flips: u128, pool: u128, paid: u128) -> (c: Self)
        ensures
            c@ == (Totals { flips, pool, paid }),
    {
        Contract { flips, pool, paid }
    }

    /// The counters `(flips, pool, paid)`.
    pub fn stats(&self) -> (r: (u128, u128, u128))
        ensures
            r == (self@.flips, self@.pool, self@.paid),
    {
        (self.flips, self.pool, self.paid)
    }

    /// Starts a wager by `account_id` with `deposit` attached: the stake's
    /// kept part goes into the pool, the wager is counted, and the request
    /// for a signature over `random_seed` is returned.
    pub fn flip(&mut self, deposit: u128, account_id: String, random_seed: &[u8]) -> (r: Result<
        SignatureRequest,
        FlipError,
    >)
        ensures
            match flip_step(old(self)@, deposit) {
                Ok(t) => {
                    &&& final(self)@ == t
                    &&& r is Ok
                    &&& r->Ok_0.account_id@ == account_id@
                    &&& r->Ok_0.seed_hex@ == lower_hex(random_seed@)
                    &&& r->Ok_0.scheme@ == "Ecdsa"@
                },
                Err(e) => {
                    &&& final(self)@ == old(self)@
                    &&& r == Err::<SignatureRequest, FlipError>(e)
                },
            },
    {
        if deposit != FLIP_COST {
            return Err(FlipError::InvalidStakeAmount);
        }
        if self.pool > u128::MAX - FLIP_KEEP {
            return Err(FlipError::PoolOverflow);
        }
        if self.flips == u128::MAX {
            return Err(FlipError::FlipsOverflow);
        }
        self.pool = self.pool + FLIP_KEEP;
        self.flips = self.flips + 1;
        let seed_hex = encode_hex(random_seed);
        Ok(SignatureRequest { account_id, seed_hex, scheme: "Ecdsa".to_owned() })
    }

    /// Settles a wager by `account_id` whose signature hashed to `digest`.
    pub fn settle(&mut self, digest: &[u8], account_id: String) -> (r: Result<
        Resolution,
        ResolveError,
    >)
        requires
            digest@.len() >= PREFIX_LEN,
        ensures
            match settle_step(old(self)@, favorable_digest(digest@)) {
                Ok(t) => {
                    &&& final(self)@ == t
                    &&& r is Ok
                    &&& reports(r->Ok_0, favorable_digest(digest@), old(self)@.pool, account_id@)
                },
                Err(e) => {
                    &&& final(self)@ == old(self)@
                    &&& r == Err::<Resolution, ResolveError>(e)
                },
            },
    {
        let won = is_favorable(digest);
        if !won {
            return Ok(Resolution { won: false, transfer: None });
        }
        let payout = self.pool;
        if payout > u128::MAX - self.paid {
            return Err(ResolveError::PaidOverflow);
        }
        self.pool = 0;
        self.paid = self.paid + payout;
        Ok(Resolution { won: true, transfer: Some(Transfer { account_id, amount: payout }) })
    }

    /// Resolves the wager of `account_id` with the signer's call: a failed
    /// call loses and changes nothing; a response is decoded, hashed and
    /// settled.
    pub fn mpc_callback(
        &mut self,
        call_result: Result<SignatureResponse, ExternalCallError>,
        account_id: String,
    ) -> (r: Result<Resolution, ResolveError>)
        ensures
            match resolve_step(old(self)@, call_result) {
                Ok(t) => {
                    &&& final(self)@ == t
                    &&& r is Ok
                    &&& reports(r->Ok_0, call_won(call_result), old(self)@.pool, account_id@)
                },
                Err(e) => {
                    &&& final(self)@ == old(self)@
                    &&& r == Err::<Resolution, ResolveError>(e)
                },
            },
    {
        match call_result {
            Err(_) => Ok(Resolution { won: false, transfer: None }),
            Ok(resp) => {
                let mut joined = match decode_hex(&resp.big_r) {
                    Ok(bytes) => bytes,
                    Err(_) => return Err(ResolveError::MalformedSignatureEncoding),
                };
                let mut s_bytes = match decode_hex(&resp.s) {
                    Ok(bytes) => bytes,
                    Err(_) => return Err(ResolveError::MalformedSignatureEncoding),
                };
                joined.append(&mut s_bytes);
                let digest = sha256(joined.as_slice());
                self.settle(digest.as_slice(), account_id)
            },
        }
    }
}

} // verus!
