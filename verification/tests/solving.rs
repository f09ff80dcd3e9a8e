use spltui::app::{App, AppState};
use spltui::key::Key;
use spltui::solver::{spldv_result, splsv_result, submit_spldv, submit_splsv};

const STEP: u64 = 1_000_000_000;

fn press(app: &mut App, key: Key, clock: &mut u64) {
    *clock += STEP;
    app.on_key(key, *clock);
}

fn type_text(app: &mut App, text: &str, clock: &mut u64) {
    for c in text.chars() {
        press(app, Key::Char(c), clock);
    }
}

fn fill(app: &mut App, fields: &[&str], clock: &mut u64) {
    for (i, field) in fields.iter().enumerate() {
        if i > 0 {
            press(app, Key::Right, clock);
        }
        type_text(app, field, clock);
    }
}

fn result_text(app: &App) -> String {
    match &app.state {
        AppState::Result(text) => text.clone(),
        other => panic!("not on the result screen: {:?}", other),
    }
}

fn solve_one(a: &str, b: &str) -> String {
    let mut clock = 0;
    let mut app = App::new(true, false, false, clock, false);
    fill(&mut app, &[a, b], &mut clock);
    press(&mut app, Key::Enter, &mut clock);
    result_text(&app)
}

fn solve_two(fields: [&str; 6]) -> String {
    let mut clock = 0;
    let mut app = App::new(false, true, false, clock, false);
    fill(&mut app, &fields, &mut clock);
    press(&mut app, Key::Enter, &mut clock);
    result_text(&app)
}

#[test]
fn one_variable_unique_root() {
    assert_eq!(
        solve_one("2", "-4"),
        "Persamaan: 2.00x + -4.00 = 0\n\n\
         Pindahkan b ke kanan:\n  2.00x = 4.00\nBagi dengan a:\n  x = 2.00\n\n\
         \n\nHasil:\n  x = 2.00"
    );
}

#[test]
fn one_variable_without_solution() {
    assert_eq!(
        solve_one("0", "5"),
        "Persamaan: 0.00x + 5.00 = 0\n\n\
         Koefisien x (a) = 0 \u{2192} Tidak ada solusi.\n\n\
         \n\nTidak ada solusi"
    );
}

#[test]
fn one_variable_all_zero_has_no_unique_root() {
    let text = solve_one("0", "0");
    assert_eq!(
        text,
        "Persamaan: 0.00x + 0.00 = 0\n\n\
         Koefisien x (a) = 0 \u{2192} Tidak ada solusi.\n\n\
         \n\nTidak ada solusi"
    );
    assert!(!text.contains("Hasil:"));
}

#[test]
fn one_variable_root_has_two_decimals() {
    let text = solve_one("3", "1");
    assert!(text.ends_with("\n\nHasil:\n  x = -0.33"), "{}", text);
    let text = solve_one("8", "-1");
    assert!(text.ends_with("\n\nHasil:\n  x = 0.12"), "{}", text);
    let text = solve_one("1", "-1234567.891");
    assert!(text.ends_with("\n\nHasil:\n  x = 1234567.89"), "{}", text);
}

#[test]
fn two_variable_unique_solution() {
    assert_eq!(
        solve_two(["1", "1", "3", "1", "-1", "1"]),
        "Persamaan:\n  a1x + b1y = c1  \u{2192}  1.00x + 1.00y = 3.00\n  \
         a2x + b2y = c2  \u{2192}  1.00x + -1.00y = 1.00\n\n\
         Karena a1 == a2, persamaan tidak diubah.\n\n\
         a1 dan a2 positif \u{2192} Kurangkan kedua persamaan:\n\
         Hasil eliminasi x:\n  2.00y = 2.00\n  y = 1.00\n\
         \nSubstitusi y ke P\
         2:\n  x = (1.00 - -1.00 \u{d7} 1.00) / 1.00 = 2.00\n\
         \n\nHasil:\n  x = 2.00, y = 1.00"
    );
}

#[test]
fn two_variable_degenerate_system() {
    let text = solve_two(["1", "2", "3", "2", "4", "6"]);
    assert_eq!(
        text,
        "Persamaan:\n  a1x + b1y = c1  \u{2192}  1.00x + 2.00y = 3.00\n  \
         a2x + b2y = c2  \u{2192}  2.00x + 4.00y = 6.00\n\n\
         Mengalikan P\
         1 dengan 2.00, dan P\
         2 dengan 1.00:\n\
         a1 dan a2 positif \u{2192} Kurangkan kedua persamaan:\n\
         Hasil eliminasi x:\n  0.00y = 0.00\n\
         \nTidak dapat menyelesaikan karena pembagi 0.\
         \n\nTidak ada solusi"
    );
    assert!(!text.contains("Hasil:\n  x ="));
}

#[test]
fn two_variable_parallel_lines_have_no_solution() {
    let text = solve_two(["1", "1", "1", "1", "1", "2"]);
    assert!(text.ends_with("\n\nTidak ada solusi"), "{}", text);
}

#[test]
fn two_variable_solution_with_decimals() {
    let text = solve_two(["2", "3", "7.5", "2", "-1", "1.5"]);
    assert!(text.ends_with("\n\nHasil:\n  x = 1.50, y = 1.50"), "{}", text);
}

#[test]
fn submit_splsv_solves_the_texts() {
    assert_eq!(solve_one("2", "-4"), submit_splsv("2", "-4"));
    assert!(submit_splsv("4", "2").ends_with("\n\nHasil:\n  x = -0.50"));
    assert_ne!(submit_splsv("4", "2"), submit_splsv("2", "4"));
}

#[test]
fn submit_spldv_solves_the_texts() {
    assert_eq!(
        solve_two(["1", "1", "3", "1", "-1", "1"]),
        submit_spldv("1", "1", "3", "1", "-1", "1")
    );
    assert!(submit_spldv("1", "1", "5", "1", "-1", "1").ends_with("\n\nHasil:\n  x = 3.00, y = 2.00"));
}

#[test]
fn field_that_is_no_number_gives_invalid_input() {
    assert_eq!(submit_splsv("abc", "1"), "Input tidak valid");
    assert_eq!(submit_splsv("1", "abc"), "Input tidak valid");
    assert_eq!(submit_splsv("abc", "also no number"), "Input tidak valid");
    let valid = ["1", "1", "3", "1", "-1", "1"];
    for i in 0..6 {
        let mut fields = valid;
        fields[i] = "abc";
        assert_eq!(
            submit_spldv(fields[0], fields[1], fields[2], fields[3], fields[4], fields[5]),
            "Input tidak valid"
        );
        let mut others_invalid = ["x"; 6];
        others_invalid[i] = "abc";
        assert_eq!(
            submit_spldv(
                others_invalid[0],
                others_invalid[1],
                others_invalid[2],
                others_invalid[3],
                others_invalid[4],
                others_invalid[5]
            ),
            "Input tidak valid"
        );
    }
}

#[test]
fn form_with_a_field_that_is_no_number_shows_invalid_input() {
    let inputs = ["abc".to_string(), "1".to_string()];
    let next = AppState::InputSPLSV(inputs, 1).apply_key(Key::Enter);
    assert_eq!(next, AppState::Result("Input tidak valid".to_string()));
    let inputs = [
        "1".to_string(),
        "2".to_string(),
        "3".to_string(),
        "4".to_string(),
        "abc".to_string(),
        "6".to_string(),
    ];
    let next = AppState::InputSPLDV(inputs, 0).apply_key(Key::Enter);
    assert_eq!(next, AppState::Result("Input tidak valid".to_string()));
}

#[test]
fn empty_field_gives_invalid_input() {
    assert_eq!(solve_one("", ""), "Input tidak valid");
    assert_eq!(solve_one("2", ""), "Input tidak valid");
    assert_eq!(solve_one("", "2"), "Input tidak valid");
    assert_eq!(solve_two(["1", "1", "3", "1", "-1", ""]), "Input tidak valid");
}

#[test]
fn field_chars_that_make_no_number_give_invalid_input() {
    for text in ["-", ".", "-.", "1.2.3", "1-2", "--1", "1-"] {
        assert_eq!(solve_one(text, "1"), "Input tidak valid", "{}", text);
        assert_eq!(solve_one("1", text), "Input tidak valid", "{}", text);
    }
}

#[test]
fn numbers_without_leading_or_trailing_digits_are_read() {
    assert!(solve_one("1.", "-.5").ends_with("\n\nHasil:\n  x = 0.50"));
    assert!(solve_one(".5", "-1").ends_with("\n\nHasil:\n  x = 2.00"));
    assert!(solve_one("-2", "007").ends_with("\n\nHasil:\n  x = 3.50"));
}

#[test]
fn splsv_result_shows_the_root_after_the_steps() {
    let text = splsv_result(Some((Some("2.00".to_string()), "steps".to_string())));
    assert_eq!(text, "steps\n\nHasil:\n  x = 2.00");
}

#[test]
fn splsv_result_without_root_says_so() {
    let text = splsv_result(Some((None, "steps".to_string())));
    assert_eq!(text, "steps\n\nTidak ada solusi");
}

#[test]
fn splsv_result_without_outcome_is_invalid_input() {
    assert_eq!(splsv_result(None), "Input tidak valid");
}

#[test]
fn spldv_result_shows_both_values_after_the_steps() {
    let text = spldv_result(Some((
        Some(("2.00".to_string(), "1.00".to_string())),
        "steps".to_string(),
    )));
    assert_eq!(text, "steps\n\nHasil:\n  x = 2.00, y = 1.00");
}

#[test]
fn spldv_result_without_values_says_so() {
    let text = spldv_result(Some((None, "steps".to_string())));
    assert_eq!(text, "steps\n\nTidak ada solusi");
}

#[test]
fn spldv_result_without_outcome_is_invalid_input() {
    assert_eq!(spldv_result(None), "Input tidak valid");
}

#[test]
fn coefficient_close_to_zero_is_not_zero() {
    let text = solve_one("0.0000001", "-1");
    assert!(text.ends_with("\n\nHasil:\n  x = 10000000.00"), "{}", text);
    let text = solve_two(["1", "1", "2", "1", "1.0000001", "2"]);
    assert!(text.contains("\n\nHasil:\n  x = "), "{}", text);
}

#[test]
fn negative_zero_coefficient_is_zero() {
    let text = solve_one("-0", "3");
    assert!(text.ends_with("\n\nTidak ada solusi"), "{}", text);
    let text = solve_one("-0.0", "-.0");
    assert!(text.ends_with("\n\nTidak ada solusi"), "{}", text);
}
