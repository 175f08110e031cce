use cosmetics::error::ErrorKind;
use cosmetics::player::Player;
use cosmetics::store::{find_players, get_players, set_costume, set_player, set_slot, LoadoutRow, PlayerRow, Store};

fn player_generic(name: String) -> Player {
    Player {
        name,
        head: 1,
        body: 2,
        cape: 3,
        legs: 4,
        neck: 5,
        hand: 6,
        ring: 7,
        feet: 8,
        weap: 9,
        shld: 10,
        jaws: 11,
        hair: 12,
    }
}

fn with_head(name: &str, head: i32) -> Player {
    let mut p = player_generic(name.into());
    p.head = head;
    p
}

fn heads(store: &Store, list: &str) -> Vec<(String, i32)> {
    get_players(store, list)
        .into_iter()
        .map(|p| (p.name, p.head))
        .collect()
}

fn setup() -> Store {
    Store::new()
}

#[test]
fn test_setup() {
    let store = setup();
    assert!(get_players(&store, "").is_empty());
}

#[test]
fn test_set_players() {
    let mut conn = setup();
    assert!(set_player(&mut conn, player_generic("Jeff".into()), "invalid_token".into(), 0).is_err());
    assert_eq!(conn.add_token("12345".into(), "Jeffrey".into()).unwrap(), 1);
    assert_eq!(
        set_player(&mut conn, player_generic("Jeff".into()), "12345".into(), 0).unwrap(),
        1
    );
}

#[test]
fn test_get_players() {
    let mut conn = setup();
    conn.add_token("12345".into(), "Jeffrey".into()).unwrap();
    set_player(&mut conn, player_generic("Jeff1".into()), "12345".into(), 0).unwrap();
    set_player(&mut conn, player_generic("Jeff2".into()), "12345".into(), 0).unwrap();
    set_player(&mut conn, player_generic("Jeff3".into()), "12345".into(), 0).unwrap();
    assert!(get_players(&conn, "").is_empty());
    assert!(get_players(&conn, "NotAValidName").is_empty());
    let v = get_players(&conn, "Jeff1");
    assert_eq!(v.len(), 1);
    assert_eq!(v[0].name, "Jeff1");
    let v = get_players(&conn, "Jeff2,Jeff3");
    assert_eq!(v.len(), 2);
    assert_eq!(v[0].name, "Jeff2");
    assert_eq!(v[1].name, "Jeff3");
}

#[test]
fn test_set_costumes() {
    let mut conn = setup();
    assert!(set_costume(&mut conn, player_generic("Jeff".into()), 0, "invalid_token".into(), 0).is_err());
    assert_eq!(conn.add_token("12345".into(), "Jeffrey".into()).unwrap(), 1);
    assert_eq!(
        set_costume(&mut conn, player_generic("Jeff".into()), 0, "12345".into(), 0).unwrap(),
        1
    );
}

#[test]
fn test_set_slot() {
    let mut conn = setup();
    assert_eq!(conn.add_token("12345".into(), "Jeffrey".into()).unwrap(), 1);
    assert_eq!(
        set_costume(&mut conn, player_generic("Jeff".into()), 0, "12345".into(), 0).unwrap(),
        1
    );
    assert!(set_slot(&mut conn, "Jeff".into(), 0, "invalid_token".into(), 0).is_err());
    assert_eq!(set_slot(&mut conn, "Jeff".into(), 0, "12345".into(), 0).unwrap(), 1);
}

#[test]
fn test_costumes_full() {
    let mut conn = setup();
    let mut p = player_generic("Jeff".into());
    conn.add_token("12345".into(), "Jeffrey".into()).unwrap();
    set_player(&mut conn, p.clone(), "12345".into(), 0).unwrap();
    p.head = 2607;
    assert_eq!(set_costume(&mut conn, p.clone(), 0, "12345".into(), 0).unwrap(), 1);
    let v = &get_players(&conn, "Jeff")[0];
    assert_eq!(v.head, 1);
    assert_eq!(p.name, v.name);
    assert_eq!(p.body, v.body);
    assert_eq!(set_slot(&mut conn, "Jeff".into(), 0, "12345".into(), 0).unwrap(), 1);
    let v = &get_players(&conn, "Jeff")[0];
    assert_eq!(v.head, 2607);
    assert_eq!(p.name, v.name);
    assert_eq!(p.body, v.body);
}

#[test]
fn upsert_then_get_returns_the_written_player() {
    let mut store = setup();
    store.add_token("tok".into(), "owner".into()).unwrap();
    let p = Player {
        name: "Zed".into(),
        head: -5,
        body: 20,
        cape: 30,
        legs: 40,
        neck: 50,
        hand: 60,
        ring: 70,
        feet: 80,
        weap: 90,
        shld: 100,
        jaws: 110,
        hair: 120,
    };
    assert_eq!(set_player(&mut store, p.clone(), "tok".into(), 9).unwrap(), 1);
    let v = get_players(&store, "Zed");
    assert_eq!(v.len(), 1);
    let g = &v[0];
    assert_eq!(
        (g.name.as_str(), g.head, g.body, g.cape, g.legs, g.neck, g.hand),
        ("Zed", -5, 20, 30, 40, 50, 60)
    );
    assert_eq!((g.ring, g.feet, g.weap, g.shld, g.jaws, g.hair), (70, 80, 90, 100, 110, 120));
    let row = store.player_row(&"Zed".to_string()).unwrap();
    assert_eq!((row.token_id, row.timestamp), (1, 9));
}

#[test]
fn upsert_twice_replaces_the_player() {
    let mut store = setup();
    store.add_token("a".into(), "x".into()).unwrap();
    store.add_token("b".into(), "y".into()).unwrap();
    set_player(&mut store, with_head("Kim", 1), "a".into(), 1).unwrap();
    set_player(&mut store, with_head("Kim", 2), "b".into(), 2).unwrap();
    assert_eq!(heads(&store, "Kim"), vec![("Kim".to_string(), 2)]);
    let row = store.player_row(&"Kim".to_string()).unwrap();
    assert_eq!((row.token_id, row.timestamp), (2, 2));
}

#[test]
fn invalid_token_leaves_rows_unchanged() {
    let mut store = setup();
    store.add_token("good".into(), "x".into()).unwrap();
    set_player(&mut store, with_head("Ann", 4), "good".into(), 3).unwrap();
    set_costume(&mut store, with_head("Ann", 8), 1, "good".into(), 3).unwrap();

    let e = set_player(&mut store, with_head("Ann", 5), "bad".into(), 4).unwrap_err();
    assert_eq!(e.kind, ErrorKind::InvalidToken);
    let e = set_costume(&mut store, with_head("Ann", 6), 1, "bad".into(), 4).unwrap_err();
    assert_eq!(e.kind, ErrorKind::InvalidToken);
    let e = set_slot(&mut store, "Ann".into(), 1, "bad".into(), 4).unwrap_err();
    assert_eq!(e.kind, ErrorKind::InvalidToken);

    assert_eq!(heads(&store, "Ann"), vec![("Ann".to_string(), 4)]);
    let row = store.player_row(&"Ann".to_string()).unwrap();
    assert_eq!((row.token_id, row.timestamp), (1, 3));
    let l = store.loadout_row(&"Ann".to_string(), 1).unwrap();
    assert_eq!((l.player.head, l.token_id, l.timestamp), (8, 1, 3));
}

#[test]
fn invalid_token_creates_no_row() {
    let mut store = setup();
    assert!(set_player(&mut store, with_head("Ghost", 1), "none".into(), 0).is_err());
    assert!(set_costume(&mut store, with_head("Ghost", 1), 0, "none".into(), 0).is_err());
    assert!(store.player_row(&"Ghost".to_string()).is_none());
    assert!(store.loadout_row(&"Ghost".to_string(), 0).is_none());
    assert!(get_players(&store, "Ghost").is_empty());
}

#[test]
fn equip_without_loadout_is_a_noop() {
    let mut store = setup();
    store.add_token("t".into(), "x".into()).unwrap();
    set_player(&mut store, with_head("Bo", 3), "t".into(), 1).unwrap();
    set_costume(&mut store, with_head("Bo", 9), 1, "t".into(), 1).unwrap();
    assert_eq!(set_slot(&mut store, "Bo".into(), 2, "t".into(), 5).unwrap(), 0);
    assert_eq!(set_slot(&mut store, "Nobody".into(), 1, "t".into(), 5).unwrap(), 0);
    assert_eq!(heads(&store, "Bo,Nobody"), vec![("Bo".to_string(), 3)]);
    let row = store.player_row(&"Bo".to_string()).unwrap();
    assert_eq!(row.timestamp, 1);
}

#[test]
fn equip_creates_the_live_row_and_restamps_it() {
    let mut store = setup();
    store.add_token("first".into(), "x".into()).unwrap();
    store.add_token("second".into(), "y".into()).unwrap();
    set_costume(&mut store, with_head("Cy", 77), -3, "first".into(), 1).unwrap();
    assert!(get_players(&store, "Cy").is_empty());
    assert_eq!(set_slot(&mut store, "Cy".into(), -3, "second".into(), 6).unwrap(), 1);
    assert_eq!(heads(&store, "Cy"), vec![("Cy".to_string(), 77)]);
    let row = store.player_row(&"Cy".to_string()).unwrap();
    assert_eq!((row.token_id, row.timestamp), (2, 6));
}

#[test]
fn get_of_nothing_is_empty() {
    let mut store = setup();
    store.add_token("t".into(), "x".into()).unwrap();
    set_player(&mut store, with_head("Dee", 1), "t".into(), 1).unwrap();
    assert!(find_players(&store, &Vec::new()).is_empty());
    assert!(get_players(&store, "no-such-name").is_empty());
}

#[test]
fn get_keeps_stored_order_and_ignores_duplicates() {
    let mut store = setup();
    store.add_token("t".into(), "x".into()).unwrap();
    set_player(&mut store, with_head("b", 2), "t".into(), 1).unwrap();
    set_player(&mut store, with_head("a", 1), "t".into(), 1).unwrap();
    assert_eq!(
        heads(&store, "a,b,a,zz"),
        vec![("b".to_string(), 2), ("a".to_string(), 1)]
    );
}

#[test]
fn loadout_written_twice_is_replaced() {
    let mut store = setup();
    store.add_token("t".into(), "x".into()).unwrap();
    assert_eq!(set_costume(&mut store, with_head("Eve", 1), 4, "t".into(), 1).unwrap(), 1);
    assert_eq!(set_costume(&mut store, with_head("Eve", 2), 4, "t".into(), 2).unwrap(), 1);
    let l = store.loadout_row(&"Eve".to_string(), 4).unwrap();
    assert_eq!((l.player.head, l.timestamp), (2, 2));
    assert_eq!(set_slot(&mut store, "Eve".into(), 4, "t".into(), 3).unwrap(), 1);
    assert_eq!(heads(&store, "Eve"), vec![("Eve".to_string(), 2)]);
}

#[test]
fn loadouts_are_kept_per_slot() {
    let mut store = setup();
    store.add_token("t".into(), "x".into()).unwrap();
    set_costume(&mut store, with_head("Fay", 10), 0, "t".into(), 1).unwrap();
    set_costume(&mut store, with_head("Fay", 20), i32::MAX, "t".into(), 1).unwrap();
    set_costume(&mut store, with_head("Gus", 30), 0, "t".into(), 1).unwrap();
    assert_eq!(store.loadout_row(&"Fay".to_string(), 0).unwrap().player.head, 10);
    assert_eq!(store.loadout_row(&"Fay".to_string(), i32::MAX).unwrap().player.head, 20);
    assert_eq!(store.loadout_row(&"Gus".to_string(), 0).unwrap().player.head, 30);
    set_slot(&mut store, "Fay".into(), i32::MAX, "t".into(), 2).unwrap();
    assert_eq!(heads(&store, "Fay,Gus"), vec![("Fay".to_string(), 20)]);
}

#[test]
fn end_to_end_equip() {
    let mut store = setup();
    store.add_token("T1".into(), "Alice".into()).unwrap();
    assert_eq!(set_player(&mut store, with_head("Alice", 101), "T1".into(), 1).unwrap(), 1);
    assert_eq!(heads(&store, "Alice"), vec![("Alice".to_string(), 101)]);
    assert_eq!(set_costume(&mut store, with_head("Alice", 202), 0, "T1".into(), 2).unwrap(), 1);
    assert_eq!(heads(&store, "Alice"), vec![("Alice".to_string(), 101)]);
    assert_eq!(set_slot(&mut store, "Alice".into(), 0, "T1".into(), 3).unwrap(), 1);
    assert_eq!(heads(&store, "Alice"), vec![("Alice".to_string(), 202)]);
    let e = set_slot(&mut store, "Alice".into(), 0, "bad-token".into(), 4).unwrap_err();
    assert_eq!(e.kind, ErrorKind::InvalidToken);
    assert_eq!(heads(&store, "Alice"), vec![("Alice".to_string(), 202)]);
}

#[test]
fn duplicate_token_strings_resolve_to_the_first() {
    let mut store = setup();
    assert_eq!(store.add_token("dup".into(), "one".into()).unwrap(), 1);
    assert_eq!(store.add_token("dup".into(), "two".into()).unwrap(), 2);
    assert_eq!(store.add_token("other".into(), "three".into()).unwrap(), 3);
    assert_eq!(store.resolve(&"dup".to_string()), Some(1));
    assert_eq!(store.resolve(&"other".to_string()), Some(3));
    assert_eq!(store.resolve(&"missing".to_string()), None);
    set_player(&mut store, with_head("H", 1), "dup".into(), 0).unwrap();
    assert_eq!(store.player_row(&"H".to_string()).unwrap().token_id, 1);
}

#[test]
fn restore_checks_the_token_reference() {
    let mut store = setup();
    store.add_token("t".into(), "x".into()).unwrap();
    let bad = PlayerRow { player: with_head("Ivy", 1), token_id: 2, timestamp: 5 };
    assert_eq!(store.restore_player(bad).unwrap_err().kind, ErrorKind::Storage);
    let zero = LoadoutRow { player: with_head("Ivy", 1), slot: 0, token_id: 0, timestamp: 5 };
    assert_eq!(store.restore_loadout(zero).unwrap_err().kind, ErrorKind::Storage);
    assert!(store.player_row(&"Ivy".to_string()).is_none());

    let good = PlayerRow { player: with_head("Ivy", 7), token_id: 1, timestamp: 5 };
    store.restore_player(good).unwrap();
    let saved = LoadoutRow { player: with_head("Ivy", 8), slot: 2, token_id: 1, timestamp: 6 };
    store.restore_loadout(saved).unwrap();
    assert_eq!(heads(&store, "Ivy"), vec![("Ivy".to_string(), 7)]);
    let row = store.player_row(&"Ivy".to_string()).unwrap();
    assert_eq!((row.token_id, row.timestamp), (1, 5));
    assert_eq!(store.loadout_row(&"Ivy".to_string(), 2).unwrap().timestamp, 6);
}

#[test]
fn player_copies_keep_every_field() {
    let p = with_head("Jo", 42);
    let c = p.copied();
    assert_eq!((c.name.as_str(), c.head, c.hair), ("Jo", 42, 12));
    let r = p.renamed("Max".into());
    assert_eq!((r.name.as_str(), r.head, r.body, r.hair), ("Max", 42, 2, 12));
}

#[test]
fn error_messages() {
    let mut store = setup();
    let e = set_player(&mut store, with_head("K", 1), "x".into(), 0).unwrap_err();
    assert_eq!(e.message(), "invalid token");
    let e = cosmetics::error::Error::storage("disk gone".into());
    assert_eq!((e.kind, e.message().as_str()), (ErrorKind::Storage, "disk gone"));
}

#[test]
fn find_players_takes_a_list_of_names() {
    let mut store = setup();
    store.add_token("t".into(), "x".into()).unwrap();
    set_player(&mut store, with_head("a,b", 1), "t".into(), 1).unwrap();
    set_player(&mut store, with_head("c", 3), "t".into(), 1).unwrap();
    let found = find_players(&store, &vec!["a,b".to_string(), "d".to_string()]);
    assert_eq!(found.len(), 1);
    assert_eq!(found[0].head, 1);
    assert!(get_players(&store, "a,b").is_empty());
    assert_eq!(get_players(&store, ",c,").len(), 1);
}

#[test]
fn empty_request_names_nobody() {
    let mut store = setup();
    store.add_token("t".into(), "x".into()).unwrap();
    set_player(&mut store, with_head("", 5), "t".into(), 1).unwrap();
    assert!(get_players(&store, "").is_empty());
    assert!(find_players(&store, &Vec::new()).is_empty());
    assert_eq!(heads(&store, ","), vec![(String::new(), 5)]);
}
