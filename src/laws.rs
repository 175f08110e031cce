use vstd::prelude::*;

use crate::player::PlayerView;
use crate::store::{
    has_loadout, has_player, keys_unique, loadout_of, matching, names_unique, upsert_loadout, upsert_player,
    LoadoutRecord, PlayerRecord,
};

verus! {

/// Looking up one name among rows with unique names finds the row of that
/// name, or nothing where there is none.
pub proof fn lemma_matching_single(rows: Seq<PlayerRecord>, n: Seq<char>)
    requires
        names_unique(rows),
    ensures
        !has_player(rows, n) ==> matching(rows, seq![n]) == Seq::<PlayerView>::empty(),
        forall|k: int|
            0 <= k < rows.len() && rows[k].player.name == n ==> matching(rows, seq![n])
                == seq![rows[k].player],
    decreases rows.len(),
{
    if rows.len() > 0 {
        let init = rows.drop_last();
        let last = rows.last();
        assert(names_unique(init));
        lemma_matching_single(init, n);
        assert(seq![n][0] == n);
        if last.player.name == n {
            assert forall|i: int| 0 <= i < init.len() implies init[i].player.name != n by {
                assert(rows[i] == init[i]);
            }
            assert(seq![n].contains(last.player.name));
            assert(matching(rows, seq![n]) =~= seq![last.player]);
        } else {
            assert(!seq![n].contains(last.player.name));
            assert forall|k: int| 0 <= k < rows.len() && rows[k].player.name == n implies k
                < init.len() && init[k] == rows[k] by {}
            if has_player(rows, n) {
                let k = choose|k: int| 0 <= k < rows.len() && rows[k].player.name == n;
                assert(init[k] == rows[k]);
            }
        }
    }
}

/// Writing a row keeps names unique, and the written row is the one stored
/// under its name.
pub proof fn lemma_upsert_player_keeps_unique(rows: Seq<PlayerRecord>, rec: PlayerRecord)
    requires
        names_unique(rows),
    ensures
        names_unique(upsert_player(rows, rec)),
        exists|k: int|
            0 <= k < upsert_player(rows, rec).len() && upsert_player(rows, rec)[k] == rec,
{
    let res = upsert_player(rows, rec);
    if has_player(rows, rec.player.name) {
        let k = choose|i: int| 0 <= i < rows.len() && rows[i].player.name == rec.player.name;
        assert(res[k] == rec);
    } else {
        assert(res[rows.len() as int] == rec);
    }
}

/// A player written and then looked up by name is found exactly once, with
/// the appearance that was written.
pub proof fn lemma_upsert_then_get(rows: Seq<PlayerRecord>, rec: PlayerRecord)
    requires
        names_unique(rows),
    ensures
        matching(upsert_player(rows, rec), seq![rec.player.name]) == seq![rec.player],
{
    let res = upsert_player(rows, rec);
    lemma_upsert_player_keeps_unique(rows, rec);
    lemma_matching_single(res, rec.player.name);
    let k = choose|k: int| 0 <= k < res.len() && res[k] == rec;
    assert(res[k].player.name == rec.player.name);
}

/// A lookup whose names match no stored player finds nothing; in particular
/// a lookup of no names at all.
pub proof fn lemma_get_unmatched(rows: Seq<PlayerRecord>, names: Seq<Seq<char>>)
    requires
        forall|i: int| 0 <= i < rows.len() ==> !names.contains(#[trigger] rows[i].player.name),
    ensures
        matching(rows, names) == Seq::<PlayerView>::empty(),
    decreases rows.len(),
{
    if rows.len() > 0 {
        let init = rows.drop_last();
        assert forall|i: int| 0 <= i < init.len() implies !names.contains(
            #[trigger] init[i].player.name,
        ) by {
            assert(init[i] == rows[i]);
        }
        lemma_get_unmatched(init, names);
        assert(!names.contains(rows[rows.len() - 1].player.name));
    }
}

/// Saving two loadouts under the same name and slot keeps exactly one, the
/// second: the second write replaces the first.
pub proof fn lemma_loadout_replaced(
    rows: Seq<LoadoutRecord>,
    first: LoadoutRecord,
    second: LoadoutRecord,
)
    requires
        keys_unique(rows),
        first.player.name == second.player.name,
        first.slot == second.slot,
    ensures
        upsert_loadout(upsert_loadout(rows, first), second) == upsert_loadout(rows, second),
        keys_unique(upsert_loadout(upsert_loadout(rows, first), second)),
        loadout_of(upsert_loadout(upsert_loadout(rows, first), second), second.player.name, second.slot)
            == Some(second),
{
    let once = upsert_loadout(rows, first);
    let twice = upsert_loadout(once, second);
    let n = second.player.name;
    let s = second.slot;
    let k = if has_loadout(rows, n, s) {
        choose|i: int| 0 <= i < rows.len() && rows[i].player.name == n && rows[i].slot == s
    } else {
        rows.len() as int
    };
    assert(once[k] == first);
    assert(keys_unique(once));
    let k2 = choose|i: int| 0 <= i < once.len() && once[i].player.name == n && once[i].slot == s;
    assert(k2 == k);
    assert(twice =~= upsert_loadout(rows, second));
    assert(keys_unique(twice));
    let k3 = choose|i: int| 0 <= i < twice.len() && twice[i].player.name == n && twice[i].slot == s;
    assert(twice[k] == second);
    assert(k3 == k);
}

} // verus!
