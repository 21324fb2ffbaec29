//! The transition engine: interprets operation requests, enforces
//! authorization, mutates the store, and produces an outcome record (for
//! writes) or a typed result (for reads).

use vstd::prelude::*;
use vstd::arithmetic::div_mod::{
    lemma_fundamental_div_mod,
    lemma_fundamental_div_mod_converse,
    lemma_mod_bound,
    lemma_mod_multiples_basic,
    lemma_small_mod,
};
use crate::dec::{dec_rep_i32, i32_to_dec};
use crate::error::{ContractError, StdError};
use crate::msg::{CountResponse, ExecuteMsg, InstantiateMsg, MessageInfo, QueryMsg};
use crate::response::Response;
use crate::state::{Addr, State, Store};

verus! {

/// The counter value after one increment: one more, wrapping at the width of
/// a 32-bit signed integer.
pub open spec fn wrap_inc(c: int) -> int {
    if c == i32::MAX {
        i32::MIN as int
    } else {
        c + 1
    }
}

/// The store after initialization: the counter slot holds the received count
/// with the caller as owner; the other slots are untouched.
pub open spec fn spec_instantiate(store: Store, sender: Addr, count: i32) -> Store {
    Store {
        state: Some(State { count, owner: sender }),
        config: store.config,
        entry_seq: store.entry_seq,
        entries: store.entries,
    }
}

/// The store after an increment: the count is one more (wrapping), the owner
/// and the other slots are untouched; an uninitialized store is unchanged.
pub open spec fn spec_try_increment(store: Store) -> Store {
    match store.state {
        Some(s) => Store {
            state: Some(State { count: wrap_inc(s.count as int) as i32, owner: s.owner }),
            config: store.config,
            entry_seq: store.entry_seq,
            entries: store.entries,
        },
        None => store,
    }
}

/// The store after a reset: when the caller equals the stored owner the count
/// is replaced and the owner kept; otherwise, and on an uninitialized store,
/// nothing changes.
pub open spec fn spec_try_reset(store: Store, sender: Addr, count: i32) -> Store {
    match store.state {
        Some(s) => if s.owner@ == sender@ {
            Store {
                state: Some(State { count, owner: s.owner }),
                config: store.config,
                entry_seq: store.entry_seq,
                entries: store.entries,
            }
        } else {
            store
        },
        None => store,
    }
}

/// The store after a write operation request.
pub open spec fn spec_execute(store: Store, sender: Addr, msg: ExecuteMsg) -> Store {
    match msg {
        ExecuteMsg::Increment {} => spec_try_increment(store),
        ExecuteMsg::Reset { count } => spec_try_reset(store, sender, count),
    }
}

/// What a count query returns: the current count of an initialized store,
/// `NotFound` otherwise.
pub open spec fn spec_query_count(store: Store) -> Result<CountResponse, StdError> {
    match store.state {
        Some(s) => Ok(CountResponse { count: s.count }),
        None => Err(StdError::NotFound),
    }
}

/// Initialize: constructs the counter record from the received count and the
/// caller identity, persists it, and acknowledges with the method name, the
/// owner, and the count in decimal. Always succeeds; the host guarantees the
/// operation runs exactly once per instance.
pub fn instantiate(store: &mut Store, info: MessageInfo, msg: InstantiateMsg) -> (r: Result<
    Response,
    ContractError,
>)
    ensures
        *final(store) == spec_instantiate(*old(store), info.sender, msg.count),
        r is Ok,
        r matches Ok(resp) ==> resp@ == seq![
            ("method"@, "instantiate"@),
            ("owner"@, info.sender@),
            ("count"@, dec_rep_i32(msg.count as int)),
        ],
{
    let count_str = i32_to_dec(msg.count);
    let owner_str = info.sender.0.clone();
    let ghost sender_view = info.sender@;
    store.state = Some(State { count: msg.count, owner: info.sender });
    let resp = Response::new()
        .add_attribute("method", "instantiate")
        .add_attribute("owner", owner_str.as_str())
        .add_attribute("count", count_str.as_str());
    proof {
        assert(resp@ =~= seq![
            ("method"@, "instantiate"@),
            ("owner"@, sender_view),
            ("count"@, dec_rep_i32(msg.count as int)),
        ]);
    }
    Ok(resp)
}

/// Dispatches a write operation request to its handler.
pub fn execute(store: &mut Store, info: MessageInfo, msg: ExecuteMsg) -> (r: Result<
    Response,
    ContractError,
>)
    ensures
        *final(store) == spec_execute(*old(store), info.sender, msg),
        msg matches ExecuteMsg::Increment {} ==> {
            &&& (r is Ok <==> old(store).state is Some)
            &&& (old(store).state is None ==> r == Err::<Response, ContractError>(
                ContractError::Std(StdError::NotFound),
            ))
            &&& (r matches Ok(resp) ==> resp@ == seq![("method"@, "try_increment"@)])
        },
        msg matches ExecuteMsg::Reset { count } ==> {
            &&& (r is Ok <==> (old(store).state matches Some(s) && s.owner@ == info.sender@))
            &&& (old(store).state is None ==> r == Err::<Response, ContractError>(
                ContractError::Std(StdError::NotFound),
            ))
            &&& (old(store).state matches Some(s) && s.owner@ != info.sender@ ==> r == Err::<
                Response,
                ContractError,
            >((ContractError::Unauthorized {})))
            &&& (r matches Ok(resp) ==> resp@ == seq![("method"@, "reset"@)])
        },
{
    match msg {
        ExecuteMsg::Increment {} => try_increment(store),
        ExecuteMsg::Reset { count } => try_reset(store, info, count),
    }
}

/// Increment: adds exactly 1 to the count, wrapping at the 32-bit signed
/// width, with no authorization check. Fails with `NotFound` iff the counter
/// was never initialized, and then changes nothing.
pub fn try_increment(store: &mut Store) -> (r: Result<Response, ContractError>)
    ensures
        *final(store) == spec_try_increment(*old(store)),
        r is Ok <==> old(store).state is Some,
        old(store).state is None ==> r == Err::<Response, ContractError>(
            ContractError::Std(StdError::NotFound),
        ),
        r matches Ok(resp) ==> resp@ == seq![("method"@, "try_increment"@)],
{
    match &mut store.state {
        Some(st) => {
            st.count = if st.count == i32::MAX {
                i32::MIN
            } else {
                st.count + 1
            };
            let resp = Response::new().add_attribute("method", "try_increment");
            proof {
                assert(resp@ =~= seq![("method"@, "try_increment"@)]);
            }
            Ok(resp)
        },
        None => Err(ContractError::Std(StdError::NotFound)),
    }
}

/// Reset: sets the count to the received value iff the caller equals the
/// stored owner; on any other caller fails with `Unauthorized` and changes
/// nothing. Fails with `NotFound` iff the counter was never initialized.
pub fn try_reset(store: &mut Store, info: MessageInfo, count: i32) -> (r: Result<
    Response,
    ContractError,
>)
    ensures
        *final(store) == spec_try_reset(*old(store), info.sender, count),
        r is Ok <==> (old(store).state matches Some(s) && s.owner@ == info.sender@),
        old(store).state is None ==> r == Err::<Response, ContractError>(
            ContractError::Std(StdError::NotFound),
        ),
        old(store).state matches Some(s) && s.owner@ != info.sender@ ==> r == Err::<
            Response,
            ContractError,
        >((ContractError::Unauthorized {})),
        r matches Ok(resp) ==> resp@ == seq![("method"@, "reset"@)],
{
    match &mut store.state {
        Some(st) => {
            if info.sender != st.owner {
                return Err(ContractError::Unauthorized {});
            }
            st.count = count;
            let resp = Response::new().add_attribute("method", "reset");
            proof {
                assert(resp@ =~= seq![("method"@, "reset"@)]);
            }
            Ok(resp)
        },
        None => Err(ContractError::Std(StdError::NotFound)),
    }
}

/// Dispatches a read operation request; the host binary-encodes the typed
/// result at the invocation boundary.
pub fn query(store: &Store, msg: QueryMsg) -> (r: Result<CountResponse, StdError>)
    ensures
        msg matches QueryMsg::GetCount {} ==> r == spec_query_count(*store),
{
    match msg {
        QueryMsg::GetCount {} => query_count(store),
    }
}

/// Read-only count query: returns the current count with no side effects.
/// Fails with `NotFound` iff the counter was never initialized.
pub fn query_count(store: &Store) -> (r: Result<CountResponse, StdError>)
    ensures
        r == spec_query_count(*store),
{
    match &store.state {
        Some(st) => Ok(CountResponse { count: st.count }),
        None => Err(StdError::NotFound),
    }
}

/// Initialization writes exactly the received inputs: afterwards the counter
/// slot holds the received count, and the caller as owner.
pub proof fn lemma_instantiate_sets_state(store: Store, sender: Addr, count: i32)
    ensures
        spec_instantiate(store, sender, count).state == Some((State { count, owner: sender })),
{
}

/// The counter value after `n` increments in a row, each one step of
/// `wrap_inc`.
pub open spec fn iter_inc(c: int, n: nat) -> int
    decreases n,
{
    if n == 0 {
        c
    } else {
        wrap_inc(iter_inc(c, (n - 1) as nat))
    }
}

/// The value `x` reduced to the range of a 32-bit signed integer, modulo the
/// width of that type.
pub open spec fn wrap_to_i32(x: int) -> int {
    ((x - i32::MIN) % 0x1_0000_0000) + i32::MIN
}

/// Increment is monotonic: `n` increments in a row starting from count `c`
/// yield `c + n`, modulo the 32-bit width, whoever the callers were (the step
/// takes no caller). `wrap_inc` is the step that `try_increment` applies to
/// the stored count.
pub proof fn lemma_increment_monotonic(c: int, n: nat)
    requires
        i32::MIN <= c <= i32::MAX,
    ensures
        iter_inc(c, n) == wrap_to_i32(c + n),
    decreases n,
{
    let m: int = 0x1_0000_0000;
    if n == 0 {
        lemma_small_mod((c - i32::MIN) as nat, m as nat);
    } else {
        lemma_increment_monotonic(c, (n - 1) as nat);
        let a = c + n - 1 - i32::MIN;
        lemma_fundamental_div_mod(a, m);
        if a % m == m - 1 {
            assert(a + 1 == (a / m + 1) * m) by {
                assert(a == m * (a / m) + (a % m));
                assert((a / m + 1) * m == m * (a / m) + m) by (nonlinear_arith);
            }
            lemma_mod_multiples_basic(a / m + 1, m);
            assert((a + 1) % m == 0);
        } else {
            assert(a + 1 == (a / m) * m + (a % m + 1)) by {
                assert(a == m * (a / m) + (a % m));
                assert((a / m) * m == m * (a / m)) by (nonlinear_arith);
            }
            lemma_fundamental_div_mod_converse(a + 1, m, a / m, a % m + 1);
            assert((a + 1) % m == a % m + 1);
        }
    }
}

/// The store after `n` increment operations in a row.
pub open spec fn iter_try_increment(store: Store, n: nat) -> Store
    decreases n,
{
    if n == 0 {
        store
    } else {
        spec_try_increment(iter_try_increment(store, (n - 1) as nat))
    }
}

/// Increment is monotonic at the store level: starting from an initialized
/// store with count `c`, `n` increment operations leave the count at `c + n`
/// modulo the 32-bit width, the owner and the other slots untouched.
pub proof fn lemma_increment_monotonic_store(store: Store, n: nat)
    requires
        store.state is Some,
    ensures
        store.state matches Some(s) ==> iter_try_increment(store, n) == (Store {
            state: Some((State { count: wrap_to_i32(s.count + n) as i32, owner: s.owner })),
            config: store.config,
            entry_seq: store.entry_seq,
            entries: store.entries,
        }),
    decreases n,
{
    let s = store.state.unwrap();
    let m: int = 0x1_0000_0000;
    lemma_mod_bound(s.count + n - i32::MIN, m);
    lemma_increment_monotonic(s.count as int, n);
    if n == 0 {
    } else {
        lemma_increment_monotonic_store(store, (n - 1) as nat);
        lemma_increment_monotonic(s.count as int, (n - 1) as nat);
        lemma_mod_bound(s.count + n - 1 - i32::MIN, m);
    }
}

/// Reset is owner-gated: with the stored owner as caller the count becomes
/// the received value and the owner is kept; with any other caller the store
/// is unchanged.
pub proof fn lemma_reset_authorization(store: Store, sender: Addr, count: i32)
    ensures
        store.state matches Some(s) ==> {
            &&& (s.owner@ == sender@ ==> spec_try_reset(store, sender, count).state == Some(
                (State { count, owner: s.owner }),
            ))
            &&& (s.owner@ != sender@ ==> spec_try_reset(store, sender, count) == store)
        },
{
}

/// A count query reflects the most recent successful write, with no
/// staleness: after an initialization, an increment, or an authorized reset,
/// the query returns exactly the count that write left in the store.
pub proof fn lemma_query_reflects_writes(store: Store, sender: Addr, count: i32)
    ensures
        spec_query_count(spec_instantiate(store, sender, count)) == Ok::<CountResponse, StdError>(
            (CountResponse { count }),
        ),
        store.state matches Some(s) ==> spec_query_count(spec_try_increment(store)) == Ok::<
            CountResponse,
            StdError,
        >((CountResponse { count: wrap_inc(s.count as int) as i32 })),
        store.state matches Some(s) ==> (s.owner@ == sender@ ==> spec_query_count(
            spec_try_reset(store, sender, count),
        ) == Ok::<CountResponse, StdError>((CountResponse { count }))),
{
}

/// Two consecutive count queries with no intervening write return identical
/// results: the query is a function of the store alone, and `query_count`
/// takes the store by shared reference and leaves it untouched.
pub proof fn lemma_query_count_idempotent(
    store: Store,
    r1: Result<CountResponse, StdError>,
    r2: Result<CountResponse, StdError>,
)
    requires
        r1 == spec_query_count(store),
        r2 == spec_query_count(store),
    ensures
        r1 == r2,
{
}

/// Once initialized, always initialized: initialization enters the
/// initialized state, and no later write operation leaves it.
pub proof fn lemma_initialized_is_preserved(
    store: Store,
    sender: Addr,
    count: i32,
    msg: ExecuteMsg,
)
    ensures
        spec_instantiate(store, sender, count).state is Some,
        store.state is Some ==> spec_execute(store, sender, msg).state is Some,
{
}

} // verus!
