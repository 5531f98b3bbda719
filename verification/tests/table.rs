use flappy_core::scores::{insert_highscore, parse_highscore_line, Highscore};
use flappy_core::state::{GameKey, GameMode, State, TickEffect};

#[test]
fn table_stays_sorted_and_capped() {
    let mut table: Vec<Highscore> = Vec::new();
    for sc in [50, 30, 80, 10, 60, 90] {
        insert_highscore(&mut table, Highscore::new(String::from("P"), sc));
        assert!(table.len() <= 5);
        for w in table.windows(2) {
            assert!(w[0].score >= w[1].score);
        }
    }
    let scores: Vec<i32> = table.iter().map(|h| h.score).collect();
    assert_eq!(scores, vec![90, 80, 60, 50, 30]);
}

#[test]
fn equal_scores_keep_insertion_order() {
    let mut table: Vec<Highscore> = Vec::new();
    insert_highscore(&mut table, Highscore::new(String::from("OLD"), 50));
    insert_highscore(&mut table, Highscore::new(String::from("NEW"), 50));
    assert_eq!(table[0].name, "OLD");
    assert_eq!(table[1].name, "NEW");
}

#[test]
fn parse_reads_name_and_score() {
    let h = parse_highscore_line("BOB 42").unwrap();
    assert_eq!(h.name, "BOB");
    assert_eq!(h.score, 42);
}

#[test]
fn parse_skips_malformed_lines() {
    assert!(parse_highscore_line("").is_none());
    assert!(parse_highscore_line("BOB").is_none());
    assert!(parse_highscore_line("BOB ").is_none());
    assert!(parse_highscore_line(" 42").is_none());
    assert!(parse_highscore_line("BOB 4x2").is_none());
    assert!(parse_highscore_line("BOB -3").is_none());
    assert!(parse_highscore_line("BOB 42 EXTRA").is_none());
    assert!(parse_highscore_line("BOB 9999999999").is_none());
    assert!(parse_highscore_line("BOB 999999999").is_some());
}

#[test]
fn loading_skips_bad_lines_and_orders_entries() {
    let lines = vec![
        String::from("AAA 50"),
        String::from("oops"),
        String::from("BBB 80"),
        String::from("CCC 10"),
    ];
    let s = State::new(5, &lines);
    let scores: Vec<i32> = s.hscores.iter().map(|h| h.score).collect();
    assert_eq!(scores, vec![80, 50, 10]);
}

#[test]
fn loading_caps_the_table_at_five() {
    let lines = vec![
        String::from("A 10"),
        String::from("B 20"),
        String::from("C 30"),
        String::from("D 40"),
        String::from("E 50"),
        String::from("F 60"),
    ];
    let s = State::new(5, &lines);
    let scores: Vec<i32> = s.hscores.iter().map(|h| h.score).collect();
    assert_eq!(scores, vec![60, 50, 40, 30, 20]);
}

#[test]
fn saving_a_run_inserts_and_requests_persist() {
    let mut s = State::new(5, &Vec::new());
    s.mode = GameMode::End;
    s.score = 30;
    s.player_name = String::from("ME");
    let eff = s.tick(Some(GameKey::Return), 0);
    assert!(matches!(eff, TickEffect::Persist));
    assert!(matches!(s.mode, GameMode::End));
    assert_eq!(s.hscores.len(), 1);
    assert_eq!(s.hscores[0].name, "ME");
    assert_eq!(s.hscores[0].score, 30);
    let eff = s.tick(Some(GameKey::Return), 0);
    assert!(matches!(eff, TickEffect::Persist));
    assert_eq!(s.hscores.len(), 2);
}

#[test]
fn zero_score_is_not_saved() {
    let mut s = State::new(5, &Vec::new());
    s.mode = GameMode::End;
    let eff = s.tick(Some(GameKey::Return), 0);
    assert!(matches!(eff, TickEffect::Proceed));
    assert!(s.hscores.is_empty());
}
