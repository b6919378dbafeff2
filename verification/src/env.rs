//! What a contract call sees of the ledger, and what it does to it.
//!
//! A call reads the ledger's sequence number and time, demands
//! authorizations, and records the effects that the host performs in order
//! once the call has succeeded.
use crate::address::Address;
use crate::address::BytesN;
use vstd::prelude::*;

verus! {

/// Instance storage is extended when fewer ledgers than this remain.
pub const INSTANCE_TTL_THRESHOLD: u32 = 100_000;

/// Ledgers to which the life of instance storage is extended.
pub const INSTANCE_TTL_EXTEND: u32 = 6_307_200;

/// A persistent entry is extended when fewer ledgers than this remain.
pub const PERSISTENT_TTL_THRESHOLD: u32 = 50_000;

/// Ledgers to which the life of a persistent entry is extended.
pub const PERSISTENT_TTL_EXTEND: u32 = 3_153_600;

/// One step that the host performs for a contract, with storage keys of type
/// `K` and events of type `E`.
pub enum Effect<K, E> {
    /// Sets the reentrancy guard in storage.
    Lock,
    /// Clears the reentrancy guard in storage.
    Unlock,
    /// Moves an amount of a token between two addresses.
    Transfer { token: Address, from: Address, to: Address, amount: i128 },
    /// Publishes an event.
    Event(E),
    /// Extends the life of the instance storage.
    ExtendInstance,
    /// Extends the life of the persistent entry under the key.
    ExtendEntry(K),
    /// Replaces the contract's code.
    Upgrade(BytesN<32>),
}

/// The surroundings of one contract call.
pub struct Env<K, E> {
    /// Sequence number of the current ledger.
    pub sequence: u32,
    /// Time of the current ledger in seconds.
    pub timestamp: u64,
    /// The contract's own address.
    pub contract: Address,
    /// Addresses whose authorization was demanded, in order.
    pub auths: Vec<Address>,
    /// Effects of the calls that succeeded, in order.
    pub log: Vec<Effect<K, E>>,
}

/// The mathematical value of an `Env`.
#[verifier::ext_equal]
pub struct EnvModel<K, E> {
    pub sequence: u32,
    pub timestamp: u64,
    pub contract: Address,
    pub auths: Seq<Address>,
    pub log: Seq<Effect<K, E>>,
}

impl<K, E> EnvModel<K, E> {
    /// The surroundings after the address's authorization was demanded.
    pub open spec fn auth(self, who: Address) -> EnvModel<K, E> {
        EnvModel { auths: self.auths.push(who), ..self }
    }

    /// The surroundings after the effect was recorded.
    pub open spec fn emit(self, effect: Effect<K, E>) -> EnvModel<K, E> {
        EnvModel { log: self.log.push(effect), ..self }
    }

    /// The surroundings after the event was recorded.
    pub open spec fn event(self, event: E) -> EnvModel<K, E> {
        self.emit(Effect::Event(event))
    }

    /// The surroundings after a transfer was recorded.
    pub open spec fn transfer(
        self,
        token: Address,
        from: Address,
        to: Address,
        amount: i128,
    ) -> EnvModel<K, E> {
        self.emit(Effect::Transfer { token, from, to, amount })
    }
}

impl<K, E> View for Env<K, E> {
    type V = EnvModel<K, E>;

    open spec fn view(&self) -> EnvModel<K, E> {
        EnvModel {
            sequence: self.sequence,
            timestamp: self.timestamp,
            contract: self.contract,
            auths: self.auths@,
            log: self.log@,
        }
    }
}

impl<K, E> Env<K, E> {
    /// The surroundings of a call at the given ledger, with nothing demanded
    /// and nothing recorded.
    pub fn new(sequence: u32, timestamp: u64, contract: Address) -> (r: Env<K, E>)
        ensures
            r@ == (EnvModel {
                sequence,
                timestamp,
                contract,
                auths: Seq::<Address>::empty(),
                log: Seq::<Effect<K, E>>::empty(),
            }),
    {
        Env { sequence, timestamp, contract, auths: Vec::new(), log: Vec::new() }
    }

    /// Demands the address's authorization.
    pub fn require_auth(&mut self, who: &Address)
        ensures
            final(self)@ == old(self)@.auth(*who),
    {
        self.auths.push(*who);
    }

    /// Records an effect.
    pub fn emit(&mut self, effect: Effect<K, E>)
        ensures
            final(self)@ == old(self)@.emit(effect),
    {
        self.log.push(effect);
    }

    /// Records an event.
    pub fn event(&mut self, event: E)
        ensures
            final(self)@ == old(self)@.event(event),
    {
        self.log.push(Effect::Event(event));
    }

    /// Records a transfer.
    pub fn transfer(&mut self, token: &Address, from: &Address, to: &Address, amount: i128)
        ensures
            final(self)@ == old(self)@.transfer(*token, *from, *to, amount),
    {
        self.log.push(Effect::Transfer { token: *token, from: *from, to: *to, amount });
    }
}

/// What the effects move out of an account in a token.
pub open spec fn sent<K, E>(log: Seq<Effect<K, E>>, token: Address, who: Address) -> int
    decreases log.len(),
{
    if log.len() == 0 {
        0
    } else {
        sent(log.drop_last(), token, who) + match log.last() {
            Effect::Transfer { token: t, from, to: _, amount } => if t == token && from == who {
                amount as int
            } else {
                0
            },
            _ => 0,
        }
    }
}

/// What the effects move into an account in a token.
pub open spec fn received<K, E>(log: Seq<Effect<K, E>>, token: Address, who: Address) -> int
    decreases log.len(),
{
    if log.len() == 0 {
        0
    } else {
        received(log.drop_last(), token, who) + match log.last() {
            Effect::Transfer { token: t, from: _, to, amount } => if t == token && to == who {
                amount as int
            } else {
                0
            },
            _ => 0,
        }
    }
}

/// Recording an effect adds what the effect moves.
pub proof fn lemma_moved<K, E>(
    log: Seq<Effect<K, E>>,
    effect: Effect<K, E>,
    token: Address,
    who: Address,
)
    ensures
        sent(log.push(effect), token, who) == sent(log, token, who) + match effect {
            Effect::Transfer { token: t, from, to: _, amount } => if t == token && from == who {
                amount as int
            } else {
                0
            },
            _ => 0,
        },
        received(log.push(effect), token, who) == received(log, token, who) + match effect {
            Effect::Transfer { token: t, from: _, to, amount } => if t == token && to == who {
                amount as int
            } else {
                0
            },
            _ => 0,
        },
{
    assert(log.push(effect).drop_last() =~= log);
}

/// A further effect adds to what an account has received exactly what the
/// effect transfers to it.
pub broadcast proof fn lemma_received_push<K, E>(
    log: Seq<Effect<K, E>>,
    effect: Effect<K, E>,
    token: Address,
    who: Address,
)
    ensures
        #[trigger] received(log.push(effect), token, who) == received(log, token, who)
            + match effect {
            Effect::Transfer { token: t, from: _, to, amount } => if t == token && to == who {
                amount as int
            } else {
                0
            },
            _ => 0,
        },
{
    lemma_moved(log, effect, token, who);
}

/// A further effect adds to what an account has sent exactly what the effect
/// transfers from it.
pub broadcast proof fn lemma_sent_push<K, E>(
    log: Seq<Effect<K, E>>,
    effect: Effect<K, E>,
    token: Address,
    who: Address,
)
    ensures
        #[trigger] sent(log.push(effect), token, who) == sent(log, token, who) + match effect {
            Effect::Transfer { token: t, from, to: _, amount } => if t == token && from == who {
                amount as int
            } else {
                0
            },
            _ => 0,
        },
{
    lemma_moved(log, effect, token, who);
}

/// Whether exactly one payment lies between the two surroundings: the
/// receiver has received the amount of the token more than before, the sender
/// has sent it, and no other account or token is touched.
pub open spec fn pays<K, E>(
    before: EnvModel<K, E>,
    after: EnvModel<K, E>,
    token: Address,
    from: Address,
    to: Address,
    amount: int,
) -> bool {
    &&& forall|t: Address, who: Address| #[trigger]
        received(after.log, t, who) == received(before.log, t, who) + if t == token && who == to {
            amount
        } else {
            0
        }
    &&& forall|t: Address, who: Address| #[trigger]
        sent(after.log, t, who) == sent(before.log, t, who) + if t == token && who == from {
            amount
        } else {
            0
        }
}

/// Whether no payment lies between the two surroundings.
pub open spec fn pays_nobody<K, E>(before: EnvModel<K, E>, after: EnvModel<K, E>) -> bool {
    &&& forall|t: Address, who: Address| #[trigger]
        received(after.log, t, who) == received(before.log, t, who)
    &&& forall|t: Address, who: Address| #[trigger]
        sent(after.log, t, who) == sent(before.log, t, who)
}

/// The result of a call that fails as given or else returns the value.
pub open spec fn outcome<T, E>(error: Option<E>, value: T) -> Result<T, E> {
    match error {
        Some(e) => Err(e),
        None => Ok(value),
    }
}

/// Whether the reentrancy guard is set after the effects.
pub open spec fn guard_set<K, E>(log: Seq<Effect<K, E>>) -> bool
    decreases log.len(),
{
    if log.len() == 0 {
        false
    } else {
        match log.last() {
            Effect::Lock => true,
            Effect::Unlock => false,
            _ => guard_set(log.drop_last()),
        }
    }
}

/// Whether every transfer among the effects happens while the guard is set.
pub open spec fn transfers_guarded<K, E>(log: Seq<Effect<K, E>>) -> bool
    decreases log.len(),
{
    if log.len() == 0 {
        true
    } else {
        transfers_guarded(log.drop_last()) && (log.last() is Transfer ==> guard_set(
            log.drop_last(),
        ))
    }
}

impl<K, E> EnvModel<K, E> {
    /// Whether every transfer so far was guarded and the guard is clear.
    pub open spec fn at_rest(self) -> bool {
        transfers_guarded(self.log) && !guard_set(self.log)
    }
}

/// How one more effect bears on the guard.
pub proof fn lemma_guard<K, E>(env: EnvModel<K, E>, effect: Effect<K, E>)
    ensures
        guard_set(env.emit(effect).log) == match effect {
            Effect::Lock => true,
            Effect::Unlock => false,
            _ => guard_set(env.log),
        },
        transfers_guarded(env.emit(effect).log) == (transfers_guarded(env.log) && (
        effect is Transfer ==> guard_set(env.log))),
{
    assert(env.log.push(effect).drop_last() =~= env.log);
}

/// A transfer between setting and clearing the guard is guarded, whatever
/// else is recorded that is no transfer and does not touch the guard.
pub proof fn lemma_guarded_transfer<K, E>(
    env: EnvModel<K, E>,
    token: Address,
    from: Address,
    to: Address,
    amount: i128,
    event: E,
)
    requires
        env.at_rest(),
    ensures
        env.emit(Effect::Lock).transfer(token, from, to, amount).event(event).emit(
            Effect::Unlock,
        ).at_rest(),
        env.emit(Effect::Lock).event(event).emit(Effect::Unlock).at_rest(),
{
    let locked = env.emit(Effect::Lock);
    let moved = locked.transfer(token, from, to, amount);
    lemma_guard(env, Effect::Lock);
    lemma_guard(locked, Effect::Transfer { token, from, to, amount });
    lemma_guard(moved, Effect::Event(event));
    lemma_guard(moved.event(event), Effect::Unlock);
    lemma_guard(locked, Effect::Event(event));
    lemma_guard(locked.event(event), Effect::Unlock);
}

} // verus!
