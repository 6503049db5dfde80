//! Names for players, games and connections, drawn from counters.
use vstd::prelude::*;
use crate::text::number;

verus! {

/// How many names have been drawn so far.
pub struct IdCounter {
    pub last: u64,
}

impl IdCounter {
    /// A counter from which nothing has been drawn.
    pub fn new() -> (c: IdCounter)
        ensures
            c.last == 0,
    {
        IdCounter { last: 0 }
    }

    fn draw(&mut self) -> (n: u64)
        requires
            old(self).last < u64::MAX,
        ensures
            n == old(self).last + 1,
            final(self).last == n,
    {
        self.last = self.last + 1;
        self.last
    }
}

/// The number of a connection.
pub type ConnId = u64;

/// The id of the `n`th player.
pub open spec fn player_id(n: nat) -> Seq<char> {
    "player_"@ + crate::text::decimal(n)
}

/// The id of the `n`th game.
pub open spec fn game_id(n: nat) -> Seq<char> {
    "game_"@ + crate::text::decimal(n)
}

/// Draws the next player id.
pub fn next_player_id(counter: &mut IdCounter) -> (id: String)
    requires
        old(counter).last < u64::MAX,
    ensures
        final(counter).last == old(counter).last + 1,
        id@ == player_id(final(counter).last as nat),
{
    let n: u64 = counter.draw();
    crate::text::join("player_", number(n).as_str())
}

/// Draws the next game id.
pub fn next_game_id(counter: &mut IdCounter) -> (id: String)
    requires
        old(counter).last < u64::MAX,
    ensures
        final(counter).last == old(counter).last + 1,
        id@ == game_id(final(counter).last as nat),
{
    let n: u64 = counter.draw();
    crate::text::join("game_", number(n).as_str())
}

/// Draws the next connection number.
pub fn next_conn_id(counter: &mut IdCounter) -> (id: ConnId)
    requires
        old(counter).last < u64::MAX,
    ensures
        final(counter).last == old(counter).last + 1,
        id == final(counter).last,
{
    counter.draw()
}

/// What ids look like: the kind of thing, an underscore, and the number that was drawn.
pub proof fn law_ids_name_their_number(n: nat)
    ensures
        "player_"@ + crate::text::decimal(n) == player_id(n),
        "game_"@ + crate::text::decimal(n) == game_id(n),
        crate::text::value(player_id(n).skip("player_"@.len() as int)) == n,
        crate::text::value(game_id(n).skip("game_"@.len() as int)) == n,
{
    crate::text::law_decimal(n);
    assert(player_id(n).skip("player_"@.len() as int) =~= crate::text::decimal(n));
    assert(game_id(n).skip("game_"@.len() as int) =~= crate::text::decimal(n));
}

/// Two player ids are equal only where the same number was drawn.
pub proof fn law_player_ids_distinct(m: nat, n: nat)
    ensures
        player_id(m) == player_id(n) <==> m == n,
{
    if player_id(m) == player_id(n) {
        crate::text::lemma_prefix_injective(
            "player_"@,
            crate::text::decimal(m),
            crate::text::decimal(n),
        );
        crate::text::lemma_decimal_injective(m, n);
    }
}

/// Two game ids are equal only where the same number was drawn.
pub proof fn law_game_ids_distinct(m: nat, n: nat)
    ensures
        game_id(m) == game_id(n) <==> m == n,
{
    if game_id(m) == game_id(n) {
        crate::text::lemma_prefix_injective(
            "game_"@,
            crate::text::decimal(m),
            crate::text::decimal(n),
        );
        crate::text::lemma_decimal_injective(m, n);
    }
}

} // verus!
