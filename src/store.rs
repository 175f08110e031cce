use vstd::prelude::*;

use crate::error::{Error, ErrorKind};
use crate::player::{Player, PlayerView};

verus! {

/// A registered bearer token and the name that owns it. A token's
/// reference is its position among the registered tokens, counted from 1.
#[derive(Debug)]
pub struct Token {
    pub token: String,
    pub name: String,
}

/// What a `Token` means: its string and its owner's name.
pub struct TokenView {
    pub token: Seq<char>,
    pub name: Seq<char>,
}

impl View for Token {
    type V = TokenView;

    open spec fn view(&self) -> TokenView {
        TokenView { token: self.token@, name: self.name@ }
    }
}

/// The live appearance of a player, stamped by the token that last wrote it.
#[derive(Debug)]
pub struct PlayerRow {
    pub player: Player,
    pub token_id: u64,
    pub timestamp: u64,
}

/// What a `PlayerRow` means.
pub struct PlayerRecord {
    pub player: PlayerView,
    pub token_id: u64,
    pub timestamp: u64,
}

impl View for PlayerRow {
    type V = PlayerRecord;

    open spec fn view(&self) -> PlayerRecord {
        PlayerRecord { player: self.player@, token_id: self.token_id, timestamp: self.timestamp }
    }
}

/// A saved loadout: an appearance kept under a player's name and a slot.
#[derive(Debug)]
pub struct LoadoutRow {
    pub player: Player,
    pub slot: i32,
    pub token_id: u64,
    pub timestamp: u64,
}

/// What a `LoadoutRow` means.
pub struct LoadoutRecord {
    pub player: PlayerView,
    pub slot: i32,
    pub token_id: u64,
    pub timestamp: u64,
}

impl View for LoadoutRow {
    type V = LoadoutRecord;

    open spec fn view(&self) -> LoadoutRecord {
        LoadoutRecord {
            player: self.player@,
            slot: self.slot,
            token_id: self.token_id,
            timestamp: self.timestamp,
        }
    }
}

/// The stored data: tokens, live players and saved loadouts.
pub struct Store {
    tokens: Vec<Token>,
    players: Vec<PlayerRow>,
    loadouts: Vec<LoadoutRow>,
}

/// What a `Store` means: its tokens in order of registration, and its
/// players and loadouts in the order they were first written.
pub struct StoreView {
    pub tokens: Seq<TokenView>,
    pub players: Seq<PlayerRecord>,
    pub loadouts: Seq<LoadoutRecord>,
}

impl View for Store {
    type V = StoreView;

    closed spec fn view(&self) -> StoreView {
        StoreView {
            tokens: self.tokens@.map_values(|t: Token| t@),
            players: self.players@.map_values(|r: PlayerRow| r@),
            loadouts: self.loadouts@.map_values(|r: LoadoutRow| r@),
        }
    }
}

/// No two player rows share a name.
pub open spec fn names_unique(rows: Seq<PlayerRecord>) -> bool {
    forall|i: int, j: int|
        0 <= i < rows.len() && 0 <= j < rows.len() && i != j ==> rows[i].player.name
            != rows[j].player.name
}

/// No two loadouts share a name and a slot.
pub open spec fn keys_unique(rows: Seq<LoadoutRecord>) -> bool {
    forall|i: int, j: int|
        0 <= i < rows.len() && 0 <= j < rows.len() && i != j ==> !(rows[i].player.name
            == rows[j].player.name && rows[i].slot == rows[j].slot)
}

impl StoreView {
    /// `id` refers to a registered token.
    pub open spec fn valid_ref(self, id: u64) -> bool {
        1 <= id <= self.tokens.len()
    }

    /// Every row is keyed uniquely and stamped by a registered token.
    pub open spec fn wf(self) -> bool {
        &&& self.tokens.len() < u64::MAX
        &&& names_unique(self.players)
        &&& keys_unique(self.loadouts)
        &&& forall|i: int| 0 <= i < self.players.len() ==> self.valid_ref(#[trigger] self.players[i].token_id)
        &&& forall|i: int| 0 <= i < self.loadouts.len() ==> self.valid_ref(#[trigger] self.loadouts[i].token_id)
    }

    /// Some registered token has the string `t`.
    pub open spec fn known(self, t: Seq<char>) -> bool {
        exists|j: int| 0 <= j < self.tokens.len() && self.tokens[j].token == t
    }

    /// `id` is the reference of the first registered token whose string is `t`.
    pub open spec fn resolves_to(self, t: Seq<char>, id: u64) -> bool {
        &&& self.valid_ref(id)
        &&& self.tokens[id - 1].token == t
        &&& forall|j: int| 0 <= j < id - 1 ==> self.tokens[j].token != t
    }

    /// The reference that the token string `t` resolves to.
    pub open spec fn token_ref(self, t: Seq<char>) -> u64 {
        choose|id: u64| self.resolves_to(t, id)
    }
}

/// A token string resolves to at most one reference.
pub proof fn lemma_resolves_unique(s: StoreView, t: Seq<char>, a: u64, b: u64)
    requires
        s.resolves_to(t, a),
        s.resolves_to(t, b),
    ensures
        a == b,
{
    if a < b {
        assert(s.tokens[a - 1].token == t);
    } else if b < a {
        assert(s.tokens[b - 1].token == t);
    }
}

/// The names held by a list of strings.
pub open spec fn names_of(v: Seq<String>) -> Seq<Seq<char>> {
    v.map_values(|s: String| s@)
}

/// Some row of `rows` is the row of `name`.
pub open spec fn has_player(rows: Seq<PlayerRecord>, name: Seq<char>) -> bool {
    exists|i: int| 0 <= i < rows.len() && rows[i].player.name == name
}

/// `rows` after writing `rec`: it replaces the row of the same name, or is
/// appended where there is none.
pub open spec fn upsert_player(rows: Seq<PlayerRecord>, rec: PlayerRecord) -> Seq<PlayerRecord> {
    if has_player(rows, rec.player.name) {
        rows.update(
            choose|i: int| 0 <= i < rows.len() && rows[i].player.name == rec.player.name,
            rec,
        )
    } else {
        rows.push(rec)
    }
}

/// Some loadout of `rows` is kept under `name` and `slot`.
pub open spec fn has_loadout(rows: Seq<LoadoutRecord>, name: Seq<char>, slot: i32) -> bool {
    exists|i: int| 0 <= i < rows.len() && rows[i].player.name == name && rows[i].slot == slot
}

/// The loadout kept under `name` and `slot`, if any.
pub open spec fn loadout_of(rows: Seq<LoadoutRecord>, name: Seq<char>, slot: i32) -> Option<
    LoadoutRecord,
> {
    if has_loadout(rows, name, slot) {
        Some(
            rows[choose|i: int|
                0 <= i < rows.len() && rows[i].player.name == name && rows[i].slot == slot],
        )
    } else {
        None
    }
}

/// `rows` after writing `rec`: it replaces the loadout of the same name and
/// slot, or is appended where there is none.
pub open spec fn upsert_loadout(rows: Seq<LoadoutRecord>, rec: LoadoutRecord) -> Seq<LoadoutRecord> {
    if has_loadout(rows, rec.player.name, rec.slot) {
        rows.update(
            choose|i: int|
                0 <= i < rows.len() && rows[i].player.name == rec.player.name && rows[i].slot
                    == rec.slot,
            rec,
        )
    } else {
        rows.push(rec)
    }
}

/// The players of `rows` whose names are among `names`, in stored order.
pub open spec fn matching(rows: Seq<PlayerRecord>, names: Seq<Seq<char>>) -> Seq<PlayerView>
    decreases rows.len(),
{
    if rows.len() == 0 {
        Seq::empty()
    } else {
        let rest = matching(rows.drop_last(), names);
        if names.contains(rows.last().player.name) {
            rest.push(rows.last().player)
        } else {
            rest
        }
    }
}

/// The pieces of `s` between its commas, in order: one more piece than
/// there are commas, empty pieces included.
pub open spec fn comma_parts(s: Seq<char>) -> Seq<Seq<char>>
    decreases s.len(),
{
    if s.len() == 0 {
        seq![Seq::empty()]
    } else {
        let rest = comma_parts(s.drop_first());
        if s[0] == ',' {
            seq![Seq::empty()] + rest
        } else {
            rest.update(0, seq![s[0]] + rest[0])
        }
    }
}

/// Relies on `str::split` with the pattern `','`: the pieces between the
/// commas, empty ones included, each copied into a `String`.
#[verifier::external_body]
fn split_commas(s: &str) -> (r: Vec<String>)
    ensures
        names_of(r@) == comma_parts(s@),
{
    s.split(',').map(|piece| piece.to_string()).collect()
}

/// Whether `n` is one of `names`.
fn listed(names: &Vec<String>, n: &String) -> (r: bool)
    ensures
        r == names_of(names@).contains(n@),
{
    let mut i: usize = 0;
    while i < names.len()
        invariant
            i <= names.len(),
            forall|j: int| 0 <= j < i ==> names@[j]@ != n@,
        decreases names.len() - i,
    {
        if names[i] == *n {
            assert(names_of(names@)[i as int] == n@);
            return true;
        }
        i += 1;
    }
    assert forall|j: int| 0 <= j < names_of(names@).len() implies names_of(names@)[j] != n@ by {
        assert(names_of(names@)[j] == names@[j]@);
    }
    false
}

impl Store {
    /// The store's rows are keyed uniquely and stamped by registered tokens.
    pub open spec fn wf(&self) -> bool {
        self@.wf()
    }

    /// An empty store.
    pub fn new() -> (r: Store)
        ensures
            r.wf(),
            r@.tokens.len() == 0,
            r@.players.len() == 0,
            r@.loadouts.len() == 0,
    {
        Store { tokens: Vec::new(), players: Vec::new(), loadouts: Vec::new() }
    }

    /// Registers `token` as owned by `name` and returns its reference.
    pub fn add_token(&mut self, token: String, name: String) -> (r: Result<u64, Error>)
        requires
            old(self).wf(),
        ensures
            final(self).wf(),
            match r {
                Ok(id) => {
                    &&& old(self)@.tokens.len() + 1 < u64::MAX
                    &&& id == old(self)@.tokens.len() + 1
                    &&& final(self)@ == (StoreView {
                        tokens: old(self)@.tokens.push(TokenView { token: token@, name: name@ }),
                        ..old(self)@
                    })
                },
                Err(e) => {
                    &&& old(self)@.tokens.len() + 1 >= u64::MAX
                    &&& e.kind == ErrorKind::Storage
                    &&& final(self)@ == old(self)@
                },
            },
    {
        let n: usize = self.tokens.len();
        if n as u64 >= u64::MAX - 1 {
            return Err(Error::storage("too many tokens".to_owned()));
        }
        let ghost before = self@;
        self.tokens.push(Token { token, name });
        let ghost after = self@;
        assert(after.tokens =~= before.tokens.push(TokenView { token: token@, name: name@ }));
        assert(after.players =~= before.players);
        assert(after.loadouts =~= before.loadouts);
        Ok(n as u64 + 1)
    }

    /// The reference of the first registered token whose string is `token`,
    /// or `None` where no registered token has it.
    pub fn resolve(&self, token: &String) -> (r: Option<u64>)
        requires
            self.wf(),
        ensures
            match r {
                Some(id) => self@.resolves_to(token@, id) && id == self@.token_ref(token@),
                None => !self@.known(token@),
            },
    {
        let mut i: usize = 0;
        while i < self.tokens.len()
            invariant
                self.wf(),
                i <= self.tokens.len(),
                forall|j: int| 0 <= j < i ==> self@.tokens[j].token != token@,
            decreases self.tokens.len() - i,
        {
            if self.tokens[i].token == *token {
                let id: u64 = i as u64 + 1;
                proof {
                    assert(self@.resolves_to(token@, id));
                    lemma_resolves_unique(self@, token@, id, self@.token_ref(token@));
                }
                return Some(id);
            }
            i += 1;
        }
        None
    }
    /// The position of the row of `name`, if there is one.
    fn player_index(&self, name: &String) -> (r: Option<usize>)
        ensures
            match r {
                Some(i) => i < self@.players.len() && self@.players[i as int].player.name == name@,
                None => !has_player(self@.players, name@),
            },
    {
        let mut i: usize = 0;
        while i < self.players.len()
            invariant
                i <= self.players.len(),
                forall|j: int| 0 <= j < i ==> self@.players[j].player.name != name@,
            decreases self.players.len() - i,
        {
            if self.players[i].player.name == *name {
                return Some(i);
            }
            i += 1;
        }
        None
    }

    /// The position of the loadout kept under `name` and `slot`, if there is one.
    fn loadout_index(&self, name: &String, slot: i32) -> (r: Option<usize>)
        ensures
            match r {
                Some(i) => i < self@.loadouts.len() && self@.loadouts[i as int].player.name
                    == name@ && self@.loadouts[i as int].slot == slot,
                None => !has_loadout(self@.loadouts, name@, slot),
            },
    {
        let mut i: usize = 0;
        while i < self.loadouts.len()
            invariant
                i <= self.loadouts.len(),
                forall|j: int|
                    0 <= j < i ==> !(self@.loadouts[j].player.name == name@
                        && self@.loadouts[j].slot == slot),
            decreases self.loadouts.len() - i,
        {
            if self.loadouts[i].slot == slot && self.loadouts[i].player.name == *name {
                return Some(i);
            }
            i += 1;
        }
        None
    }

    /// Writes the row of `player`, stamped by `token_id` at `now`.
    fn put_player(&mut self, player: Player, token_id: u64, now: u64)
        requires
            old(self).wf(),
            old(self)@.valid_ref(token_id),
        ensures
            final(self).wf(),
            final(self)@ == (StoreView {
                players: upsert_player(
                    old(self)@.players,
                    PlayerRecord { player: player@, token_id, timestamp: now },
                ),
                ..old(self)@
            }),
    {
        let ghost before = self@;
        let ghost rec = PlayerRecord { player: player@, token_id, timestamp: now };
        let idx = self.player_index(&player.name);
        match idx {
            Some(i) => {
                self.players.set(i, PlayerRow { player, token_id, timestamp: now });
                proof {
                    let k = choose|k: int|
                        0 <= k < before.players.len() && before.players[k].player.name
                            == rec.player.name;
                    assert(before.players[i as int].player.name == rec.player.name);
                    assert(k == i);
                    assert(self@.players =~= before.players.update(i as int, rec));
                }
            },
            None => {
                self.players.push(PlayerRow { player, token_id, timestamp: now });
                assert(self@.players =~= before.players.push(rec));
            },
        }
        assert(self@.tokens =~= before.tokens);
        assert(self@.loadouts =~= before.loadouts);
    }

    /// Writes the loadout `player` under `slot`, stamped by `token_id` at `now`.
    fn put_loadout(&mut self, player: Player, slot: i32, token_id: u64, now: u64)
        requires
            old(self).wf(),
            old(self)@.valid_ref(token_id),
        ensures
            final(self).wf(),
            final(self)@ == (StoreView {
                loadouts: upsert_loadout(
                    old(self)@.loadouts,
                    LoadoutRecord { player: player@, slot, token_id, timestamp: now },
                ),
                ..old(self)@
            }),
    {
        let ghost before = self@;
        let ghost rec = LoadoutRecord { player: player@, slot, token_id, timestamp: now };
        let idx = self.loadout_index(&player.name, slot);
        match idx {
            Some(i) => {
                self.loadouts.set(i, LoadoutRow { player, slot, token_id, timestamp: now });
                proof {
                    let k = choose|k: int|
                        0 <= k < before.loadouts.len() && before.loadouts[k].player.name
                            == rec.player.name && before.loadouts[k].slot == rec.slot;
                    assert(before.loadouts[i as int].player.name == rec.player.name);
                    assert(k == i);
                    assert(self@.loadouts =~= before.loadouts.update(i as int, rec));
                }
            },
            None => {
                self.loadouts.push(LoadoutRow { player, slot, token_id, timestamp: now });
                assert(self@.loadouts =~= before.loadouts.push(rec));
            },
        }
        assert(self@.tokens =~= before.tokens);
        assert(self@.players =~= before.players);
    }

    /// The number of registered tokens.
    pub fn token_count(&self) -> (r: usize)
        ensures
            r == self@.tokens.len(),
    {
        self.tokens.len()
    }

    /// The stored row of `name`, if there is one.
    pub fn player_row(&self, name: &String) -> (r: Option<&PlayerRow>)
        ensures
            match r {
                Some(row) => exists|i: int|
                    0 <= i < self@.players.len() && self@.players[i] == row@
                        && row@.player.name == name@,
                None => !has_player(self@.players, name@),
            },
    {
        match self.player_index(name) {
            Some(i) => Some(&self.players[i]),
            None => None,
        }
    }

    /// The loadout kept under `name` and `slot`, if there is one.
    pub fn loadout_row(&self, name: &String, slot: i32) -> (r: Option<&LoadoutRow>)
        ensures
            match r {
                Some(row) => exists|i: int|
                    0 <= i < self@.loadouts.len() && self@.loadouts[i] == row@
                        && row@.player.name == name@ && row@.slot == slot,
                None => !has_loadout(self@.loadouts, name@, slot),
            },
    {
        match self.loadout_index(name, slot) {
            Some(i) => Some(&self.loadouts[i]),
            None => None,
        }
    }

    /// Puts back a live row that was stored earlier, as it was stamped.
    /// Fails without a change where `token_id` refers to no registered token.
    pub fn restore_player(&mut self, row: PlayerRow) -> (r: Result<(), Error>)
        requires
            old(self).wf(),
        ensures
            final(self).wf(),
            match r {
                Ok(()) => {
                    &&& old(self)@.valid_ref(row.token_id)
                    &&& final(self)@ == (StoreView {
                        players: upsert_player(old(self)@.players, row@),
                        ..old(self)@
                    })
                },
                Err(e) => {
                    &&& !old(self)@.valid_ref(row.token_id)
                    &&& e.kind == ErrorKind::Storage
                    &&& final(self)@ == old(self)@
                },
            },
    {
        let count = self.tokens.len() as u64;
        if row.token_id == 0 || row.token_id > count {
            return Err(Error::storage("row refers to an unknown token".to_owned()));
        }
        self.put_player(row.player, row.token_id, row.timestamp);
        Ok(())
    }

    /// Puts back a loadout that was stored earlier, as it was stamped.
    /// Fails without a change where `token_id` refers to no registered token.
    pub fn restore_loadout(&mut self, row: LoadoutRow) -> (r: Result<(), Error>)
        requires
            old(self).wf(),
        ensures
            final(self).wf(),
            match r {
                Ok(()) => {
                    &&& old(self)@.valid_ref(row.token_id)
                    &&& final(self)@ == (StoreView {
                        loadouts: upsert_loadout(old(self)@.loadouts, row@),
                        ..old(self)@
                    })
                },
                Err(e) => {
                    &&& !old(self)@.valid_ref(row.token_id)
                    &&& e.kind == ErrorKind::Storage
                    &&& final(self)@ == old(self)@
                },
            },
    {
        let count = self.tokens.len() as u64;
        if row.token_id == 0 || row.token_id > count {
            return Err(Error::storage("row refers to an unknown token".to_owned()));
        }
        self.put_loadout(row.player, row.slot, row.token_id, row.timestamp);
        Ok(())
    }
}

/// The stored players whose names are among `names`, in the order they
/// were first stored. Unknown names are left out; duplicates in `names`
/// add nothing.
pub fn find_players(store: &Store, names: &Vec<String>) -> (r: Vec<Player>)
    ensures
        r@.map_values(|p: Player| p@) == matching(store@.players, names_of(names@)),
{
    let mut out: Vec<Player> = Vec::new();
    let mut i: usize = 0;
    while i < store.players.len()
        invariant
            i <= store.players.len(),
            out@.map_values(|p: Player| p@) == matching(
                store@.players.subrange(0, i as int),
                names_of(names@),
            ),
        decreases store.players.len() - i,
    {
        let ghost prev = out@;
        proof {
            assert(store@.players.subrange(0, i + 1).drop_last() =~= store@.players.subrange(
                0,
                i as int,
            ));
        }
        if listed(names, &store.players[i].player.name) {
            out.push(store.players[i].player.copied());
            assert(out@.map_values(|p: Player| p@) =~= prev.map_values(|p: Player| p@).push(
                store@.players[i as int].player,
            ));
        }
        i += 1;
    }
    assert(store@.players.subrange(0, store.players.len() as int) =~= store@.players);
    out
}

/// Writes the live appearance `p` under its name, authorized by `token`
/// and stamped with `now`. Fails without a change where `token` resolves
/// to no registered token.
pub fn set_player(store: &mut Store, p: Player, token: String, now: u64) -> (r: Result<usize, Error>)
    requires
        old(store).wf(),
    ensures
        final(store).wf(),
        match r {
            Ok(n) => {
                &&& n == 1
                &&& old(store)@.known(token@)
                &&& final(store)@ == (StoreView {
                    players: upsert_player(
                        old(store)@.players,
                        PlayerRecord {
                            player: p@,
                            token_id: old(store)@.token_ref(token@),
                            timestamp: now,
                        },
                    ),
                    ..old(store)@
                })
            },
            Err(e) => {
                &&& e.kind == ErrorKind::InvalidToken
                &&& !old(store)@.known(token@)
                &&& final(store)@ == old(store)@
            },
        },
{
    match store.resolve(&token) {
        None => Err(Error::invalid_token()),
        Some(id) => {
            assert(store@.tokens[id - 1].token == token@);
            store.put_player(p, id, now);
            Ok(1)
        },
    }
}

/// Saves the appearance `p` as the loadout of its name under `slot`,
/// authorized by `token` and stamped with `now`. Fails without a change
/// where `token` resolves to no registered token.
pub fn set_costume(store: &mut Store, p: Player, slot: i32, token: String, now: u64) -> (r: Result<
    usize,
    Error,
>)
    requires
        old(store).wf(),
    ensures
        final(store).wf(),
        match r {
            Ok(n) => {
                &&& n == 1
                &&& old(store)@.known(token@)
                &&& final(store)@ == (StoreView {
                    loadouts: upsert_loadout(
                        old(store)@.loadouts,
                        LoadoutRecord {
                            player: p@,
                            slot,
                            token_id: old(store)@.token_ref(token@),
                            timestamp: now,
                        },
                    ),
                    ..old(store)@
                })
            },
            Err(e) => {
                &&& e.kind == ErrorKind::InvalidToken
                &&& !old(store)@.known(token@)
                &&& final(store)@ == old(store)@
            },
        },
{
    match store.resolve(&token) {
        None => Err(Error::invalid_token()),
        Some(id) => {
            assert(store@.tokens[id - 1].token == token@);
            store.put_loadout(p, slot, id, now);
            Ok(1)
        },
    }
}

/// Equips the loadout kept under `name` and `slot`: the live row of
/// `name` takes its appearance, stamped by `token` at `now`. Returns the
/// number of live rows written: 0 where no such loadout is kept. Fails
/// without a change where `token` resolves to no registered token.
pub fn set_slot(store: &mut Store, name: String, slot: i32, token: String, now: u64) -> (r: Result<
    usize,
    Error,
>)
    requires
        old(store).wf(),
    ensures
        final(store).wf(),
        match r {
            Ok(n) => {
                &&& old(store)@.known(token@)
                &&& match loadout_of(old(store)@.loadouts, name@, slot) {
                    None => n == 0 && final(store)@ == old(store)@,
                    Some(l) => {
                        &&& n == 1
                        &&& final(store)@ == (StoreView {
                            players: upsert_player(
                                old(store)@.players,
                                PlayerRecord {
                                    player: PlayerView { name: name@, looks: l.player.looks },
                                    token_id: old(store)@.token_ref(token@),
                                    timestamp: now,
                                },
                            ),
                            ..old(store)@
                        })
                    },
                }
            },
            Err(e) => {
                &&& e.kind == ErrorKind::InvalidToken
                &&& !old(store)@.known(token@)
                &&& final(store)@ == old(store)@
            },
        },
{
    match store.resolve(&token) {
        None => Err(Error::invalid_token()),
        Some(id) => {
            assert(store@.tokens[id - 1].token == token@);
            match store.loadout_index(&name, slot) {
                None => Ok(0),
                Some(k) => {
                    proof {
                        let c = choose|c: int|
                            0 <= c < store@.loadouts.len() && store@.loadouts[c].player.name
                                == name@ && store@.loadouts[c].slot == slot;
                        assert(store@.loadouts[k as int].player.name == name@);
                        assert(c == k);
                    }
                    let worn = store.loadouts[k].player.renamed(name);
                    store.put_player(worn, id, now);
                    Ok(1)
                },
            }
        },
    }
}

/// The names requested by the comma-separated list `s`: none where `s` is
/// empty, else the pieces between its commas.
pub open spec fn requested(s: Seq<char>) -> Seq<Seq<char>> {
    if s.len() == 0 {
        Seq::empty()
    } else {
        comma_parts(s)
    }
}

/// The stored players named in the comma-separated list `names`, in the
/// order they were first stored. An empty list names nobody.
pub fn get_players(store: &Store, names: &str) -> (r: Vec<Player>)
    ensures
        r@.map_values(|p: Player| p@) == matching(store@.players, requested(names@)),
        names@.len() == 0 ==> r@.len() == 0,
{
    if names.is_empty() {
        proof {
            crate::laws::lemma_get_unmatched(store@.players, Seq::empty());
        }
        return Vec::new();
    }
    let list = split_commas(names);
    let r = find_players(store, &list);
    r
}

} // verus!
