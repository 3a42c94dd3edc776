//! Identifiers under which listeners, markers and pending callbacks are
//! registered.
//!
//! Each kind of identifier is a type of its own, so that one kind is never
//! taken for another. An identifier holds a random 128-bit token. A registry
//! keeps the tokens that it has issued and issues none of them again.

use std::collections::HashMap;
use vstd::prelude::*;
use vstd::set_lib::lemma_len_subset;

verus! {

/// Whether `token` carries the version and variant marks of a random token:
/// the four bits from bit 76 are `0100`, the two bits from bit 62 are `10`.
pub open spec fn is_random_token(token: u128) -> bool {
    token & 0x00000000_0000_f000_c000_000000000000 == 0x00000000_0000_4000_8000_000000000000
}

/// Draws a token with `uuid::Uuid::new_v4` and hands out its 128 bits
/// (`Uuid::as_u128`). The contract claims only the version and variant marks
/// that `new_v4` sets on every token; the other 122 bits are random. The call
/// panics if the operating system's source of randomness fails.
#[verifier::external_body]
fn random_token() -> (token: u128)
    ensures
        is_random_token(token),
{
    uuid::Uuid::new_v4().as_u128()
}

/// How far `token` lies behind `start`, where tokens are counted upwards from
/// `start` and from zero again behind the largest.
pub open spec fn distance(start: u128, token: u128) -> int {
    if token >= start {
        token - start
    } else {
        token + 0x1_0000_0000_0000_0000_0000_0000_0000_0000 - start
    }
}

/// Whether `token` is the first token from `start` on that `taken` does not
/// hold: it is free, and every token before it, counted from `start`, is
/// taken.
pub open spec fn is_first_free(start: u128, taken: Set<u128>, token: u128) -> bool {
    &&& !taken.contains(token)
    &&& forall|x: u128| distance(start, x) < distance(start, token) ==> taken.contains(x)
}

/// The first token from `start` on that `taken` does not hold: `start` itself
/// where it is free, and else the next free token behind it.
pub fn first_free_from<T>(start: u128, taken: &HashMap<u128, T>) -> (token: u128)
    ensures
        is_first_free(start, taken@.dom(), token),
{
    let size = taken.len();
    let mut token = start;
    let mut steps: usize = 0;
    let ghost mut probed: Set<u128> = Set::empty();
    while taken.contains_key(&token)
        invariant
            taken@.dom().len() == size,
            probed.finite(),
            probed.len() == steps,
            probed.subset_of(taken@.dom()),
            forall|x: u128| probed.contains(x) <==> distance(start, x) < steps,
            distance(start, token) == steps,
        decreases taken@.dom().len() - steps,
    {
        proof {
            let next = probed.insert(token);
            lemma_len_subset(next, taken@.dom());
            probed = next;
        }
        token = if token == u128::MAX {
            0
        } else {
            token + 1
        };
        steps = steps + 1;
    }
    token
}

/// A token under which `taken` holds nothing: the first free one from a
/// random token on.
pub fn fresh_token<T>(taken: &HashMap<u128, T>) -> (token: u128)
    ensures
        !taken@.contains_key(token),
        exists|start: u128|
            is_random_token(start) && #[trigger] is_first_free(start, taken@.dom(), token),
{
    let start = random_token();
    first_free_from(start, taken)
}

/// The tokens that a registry has issued, so that it issues none twice.
pub struct Issued {
    tokens: HashMap<u128, ()>,
}

impl View for Issued {
    type V = Set<u128>;

    /// The tokens that were issued so far.
    closed spec fn view(&self) -> Set<u128> {
        self.tokens@.dom()
    }
}

impl Issued {
    /// Nothing was issued yet.
    pub fn new() -> (res: Issued)
        ensures
            res@ == Set::<u128>::empty(),
    {
        Issued { tokens: HashMap::new() }
    }

    /// Whether `token` was issued.
    pub fn contains(&self, token: u128) -> (res: bool)
        ensures
            res == self@.contains(token),
    {
        self.tokens.contains_key(&token)
    }

    /// Counts `token` among the issued tokens.
    pub fn record(&mut self, token: u128)
        ensures
            final(self)@ == old(self)@.insert(token),
    {
        self.tokens.insert(token, ());
        assert(self.tokens@.dom() =~= old(self).tokens@.dom().insert(token));
    }

    /// Issues a token that was never issued before: the first such token
    /// from a random token on.
    pub fn issue(&mut self) -> (token: u128)
        ensures
            !old(self)@.contains(token),
            final(self)@ == old(self)@.insert(token),
            exists|start: u128|
                is_random_token(start) && #[trigger] is_first_free(start, old(self)@, token),
    {
        let token = fresh_token(&self.tokens);
        self.tokens.insert(token, ());
        assert(self.tokens@.dom() =~= old(self).tokens@.dom().insert(token));
        token
    }
}

/// Tokens that are issued one after another differ from one another and from
/// every token that was issued before the first of them: where `before[i]`
/// are the tokens issued when `tokens[i]` is issued, and each issue adds its
/// token to them.
pub proof fn law_issued_tokens_are_distinct(before: Seq<Set<u128>>, tokens: Seq<u128>)
    requires
        before.len() == tokens.len() + 1,
        forall|i: int|
            0 <= i < tokens.len() ==> !(#[trigger] before[i]).contains(tokens[i]) && before[i + 1]
                == before[i].insert(tokens[i]),
    ensures
        forall|i: int, j: int| 0 <= i < j < tokens.len() ==> tokens[i] != tokens[j],
        forall|i: int| 0 <= i < tokens.len() ==> !before[0].contains(#[trigger] tokens[i]),
{
    assert forall|i: int, j: int| 0 <= i < j < tokens.len() implies tokens[i] != tokens[j] by {
        lemma_issued_grow(before, tokens, i + 1, j);
        assert(before[i + 1] == before[i].insert(tokens[i]));
        assert(before[i + 1].contains(tokens[i]));
        assert(!before[j].contains(tokens[j]));
    }
    assert forall|i: int| 0 <= i < tokens.len() implies !before[0].contains(
        #[trigger] tokens[i],
    ) by {
        lemma_issued_grow(before, tokens, 0, i);
        assert(!before[i].contains(tokens[i]));
    }
}

/// What was issued at one time is still issued at every later time.
proof fn lemma_issued_grow(before: Seq<Set<u128>>, tokens: Seq<u128>, i: int, j: int)
    requires
        before.len() == tokens.len() + 1,
        forall|k: int|
            0 <= k < tokens.len() ==> !(#[trigger] before[k]).contains(tokens[k]) && before[k + 1]
                == before[k].insert(tokens[k]),
        0 <= i <= j <= tokens.len(),
    ensures
        before[i].subset_of(before[j]),
    decreases j - i,
{
    if i < j {
        lemma_issued_grow(before, tokens, i, j - 1);
        assert(before[j - 1 + 1] == before[j - 1].insert(tokens[j - 1]));
    }
}

/// Registrations that are made one after another, each under a token that is
/// issued for it, stand side by side. Here `issued[i]` are the tokens issued
/// and `held[i]` what the registry holds when `items[i]` is registered under
/// `tokens[i]`. The tokens differ from one another, each item is held under
/// its own token in the end, none has replaced another or anything that the
/// registry held before, and the registry holds nothing else.
pub proof fn law_registrations_stand_side_by_side<T>(
    issued: Seq<Set<u128>>,
    held: Seq<Map<u128, T>>,
    tokens: Seq<u128>,
    items: Seq<T>,
)
    requires
        issued.len() == tokens.len() + 1,
        held.len() == tokens.len() + 1,
        items.len() == tokens.len(),
        held[0].dom().subset_of(issued[0]),
        forall|i: int|
            0 <= i < tokens.len() ==> !(#[trigger] issued[i]).contains(tokens[i]) && issued[i + 1]
                == issued[i].insert(tokens[i]),
        forall|i: int|
            0 <= i < tokens.len() ==> held[i + 1] == (#[trigger] held[i]).insert(
                tokens[i],
                items[i],
            ),
    ensures
        forall|i: int, j: int| 0 <= i < j < tokens.len() ==> tokens[i] != tokens[j],
        forall|i: int| 0 <= i < tokens.len() ==> !held[0].contains_key(#[trigger] tokens[i]),
        forall|i: int|
            0 <= i < tokens.len() ==> held.last().contains_key(#[trigger] tokens[i])
                && held.last()[tokens[i]] == items[i],
        forall|x: u128|
            #[trigger] held[0].contains_key(x) ==> held.last().contains_key(x) && held.last()[x]
                == held[0][x],
        forall|x: u128|
            #[trigger] held.last().contains_key(x) ==> held[0].contains_key(x) || tokens.contains(
                x,
            ),
{
    law_issued_tokens_are_distinct(issued, tokens);
    lemma_side_by_side(issued, held, tokens, items, tokens.len() as int);
    assert(held.last() == held[tokens.len() as int]);
    assert forall|x: u128| #[trigger] held.last().contains_key(x) implies held[0].contains_key(x)
        || tokens.contains(x) by {
        if !held[0].contains_key(x) {
            let i = choose|i: int| 0 <= i < tokens.len() && tokens[i] == x;
            assert(tokens[i] == x);
        }
    }
    assert forall|i: int| 0 <= i < tokens.len() implies !held[0].contains_key(
        #[trigger] tokens[i],
    ) by {
        assert(!issued[0].contains(tokens[i]));
    }
}

/// The state of the registry after the first `n` registrations.
proof fn lemma_side_by_side<T>(
    issued: Seq<Set<u128>>,
    held: Seq<Map<u128, T>>,
    tokens: Seq<u128>,
    items: Seq<T>,
    n: int,
)
    requires
        issued.len() == tokens.len() + 1,
        held.len() == tokens.len() + 1,
        items.len() == tokens.len(),
        held[0].dom().subset_of(issued[0]),
        forall|i: int|
            0 <= i < tokens.len() ==> !(#[trigger] issued[i]).contains(tokens[i]) && issued[i + 1]
                == issued[i].insert(tokens[i]),
        forall|i: int|
            0 <= i < tokens.len() ==> held[i + 1] == (#[trigger] held[i]).insert(
                tokens[i],
                items[i],
            ),
        0 <= n <= tokens.len(),
    ensures
        held[n].dom().subset_of(issued[n]),
        forall|i: int|
            0 <= i < n ==> held[n].contains_key(#[trigger] tokens[i]) && held[n][tokens[i]]
                == items[i],
        forall|x: u128|
            #[trigger] held[0].contains_key(x) ==> held[n].contains_key(x) && held[n][x]
                == held[0][x],
        forall|x: u128|
            #[trigger] held[n].contains_key(x) ==> held[0].contains_key(x) || exists|i: int|
                0 <= i < n && tokens[i] == x,
    decreases n,
{
    if n > 0 {
        let m = n - 1;
        lemma_side_by_side(issued, held, tokens, items, m);
        assert(!issued[m].contains(tokens[m]));
        assert(issued[m + 1] == issued[m].insert(tokens[m]));
        assert(held[m + 1] == held[m].insert(tokens[m], items[m]));
        assert(!held[m].contains_key(tokens[m]));
        assert forall|i: int| 0 <= i < n implies held[n].contains_key(#[trigger] tokens[i])
            && held[n][tokens[i]] == items[i] by {
            if i < m {
                assert(held[m].contains_key(tokens[i]));
            }
        }
        assert forall|x: u128| #[trigger] held[0].contains_key(x) implies held[n].contains_key(x)
            && held[n][x] == held[0][x] by {
            assert(held[m].contains_key(x) && held[m][x] == held[0][x]);
            assert(x != tokens[m]);
        }
        assert forall|x: u128| #[trigger] held[n].contains_key(x) implies held[0].contains_key(x)
            || exists|i: int| 0 <= i < n && tokens[i] == x by {
            if x == tokens[m] {
                assert(0 <= m < n && tokens[m] == x);
            } else {
                assert(held[m].contains_key(x));
                if !held[0].contains_key(x) {
                    let i = choose|i: int| 0 <= i < m && tokens[i] == x;
                    assert(0 <= i < n && tokens[i] == x);
                }
            }
        }
    }
}

/// ID for an event listener.
#[derive(Debug, Copy, Clone, Eq, PartialEq, Hash, Structural)]
pub struct MapListenerId(pub u128);

/// ID for a marker.
#[derive(Debug, Copy, Clone, Eq, PartialEq, Hash, Structural)]
pub struct MarkerId(pub u128);

/// ID for a callback.
#[derive(Debug, Copy, Clone, Eq, PartialEq, Hash, Structural)]
pub struct CallbackId(pub u128);

impl MapListenerId {
    /// Issues an identifier with a fresh random token.
    pub fn new_id() -> (id: MapListenerId)
        ensures
            is_random_token(id.0),
    {
        MapListenerId(random_token())
    }
}

impl MarkerId {
    /// Issues an identifier with a fresh random token.
    pub fn new_id() -> (id: MarkerId)
        ensures
            is_random_token(id.0),
    {
        MarkerId(random_token())
    }
}

impl CallbackId {
    /// Issues an identifier with a fresh random token.
    pub fn new_id() -> (id: CallbackId)
        ensures
            is_random_token(id.0),
    {
        CallbackId(random_token())
    }
}

} // verus!
