use hyperliquid_monitor::json::path_is_supported;
use hyperliquid_monitor::monitors::api_monitor::ApiMonitor;

const PIECES: [&str; 78] = [
    "$", ".", "..", "*", "[", "]", "(", ")", "@", "?", "?(", ",", ":", "::", " ", " ", "0", "1",
    "-1", "+0", "00", "2", "a", "b", "k", "price", "'a'", "\"b\"", "'x,y'", "'it\\'s'", "'", "\"",
    "\\", "==", "!=", "<", "<=", ">", ">=", "&&", "||", "!", "=", "&", "|", "1e5", "1e999", "-inf",
    "1.5", ".5", "true", "false", "e5", "$.a", "@.a", "@.k", "@", "[0]", "[*]", "['a']", "['k']",
    "[?(@.a)]", "[?(@.k == 1)]", "[?(@.a", "[0:1]", "[::0]", "[1:2:0", "[0,1]", "['a','b']",
    ".a", ".k", "..a", ".*", "[?(", ")]", " == ", " && ", "-",
];

const DOCUMENTS: [&str; 4] = [
    r#"{"a":[{"a":[1,2],"k":1,"b":{"a":1}},{"a":[],"k":2},{"a":5,"k":"x,y"},{},3,[1],"s",null,true],"k":1,"b":{"a":{"k":[0]}}}"#,
    r#"[{"a":1,"k":[1,{"a":2}]},[[1],[2,[3]]],{"a":{"a":{"a":"a"}}},0,"a"]"#,
    r#"{"a":{"k":{"a":[]},"b":[{"k":1.5},{"k":-1}]}}"#,
    "[]",
];

struct Dice(u64);

impl Dice {
    fn roll(&mut self, sides: usize) -> usize {
        self.0 = self.0.wrapping_mul(6364136223846793005).wrapping_add(1442695040888963407);
        ((self.0 >> 33) as usize) % sides
    }
}

fn paths_of(seed: u64, count: usize, rooted: bool) -> Vec<String> {
    let mut dice = Dice(seed);
    let mut paths = Vec::with_capacity(count);
    for _ in 0..count {
        let mut path = String::new();
        if rooted {
            path.push('$');
        }
        for _ in 0..1 + dice.roll(10) {
            path.push_str(PIECES[dice.roll(PIECES.len())]);
        }
        paths.push(path);
    }
    paths
}

fn evaluate_all(seed: u64, rooted: bool) -> usize {
    let mut taken = 0;
    for path in paths_of(seed, 6000, rooted) {
        if !path_is_supported(&path) {
            continue;
        }
        taken += 1;
        println!("{}", path);
        let monitor = ApiMonitor::new("u".to_string(), path.clone(), 1);
        if monitor.path() != path.trim() && !path.trim().is_empty() {
            panic!("the selector {:?} became {:?}", path, monitor.path());
        }
        for document in DOCUMENTS {
            let _ = monitor.extract(document);
        }
    }
    taken
}

#[test]
fn no_path_that_is_taken_makes_the_evaluator_abort_one() {
    assert!(evaluate_all(1, true) > 1000);
}

#[test]
fn no_path_that_is_taken_makes_the_evaluator_abort_two() {
    assert!(evaluate_all(2, true) > 1000);
}

#[test]
fn no_path_that_is_taken_makes_the_evaluator_abort_three() {
    assert!(evaluate_all(3, true) > 1000);
}

#[test]
fn no_path_that_is_taken_makes_the_evaluator_abort_four() {
    assert!(evaluate_all(4, false) > 1000);
}

const KEYS: [&str; 6] = ["a", "k", "b", "price", "$k", "2x"];
const NUMBERS: [&str; 12] =
    ["0", "1", "-1", "1.5", "-.5", "1e2", "1.e1", "2E-3", "1e999", "-inf", "007", "1e308"];
const STRINGS: [&str; 6] = ["'a'", "\"x,y\"", "'$'", "'[0]'", "'it\\'s'", "''"];
const OPERATORS: [&str; 6] = ["==", "!=", "<", "<=", ">", ">="];
const STEPS: [&str; 8] = ["", "0", "1", "2", "-1", "+0", "00", " 0 "];

fn pick<'a>(dice: &mut Dice, from: &[&'a str]) -> &'a str {
    from[dice.roll(from.len())]
}

fn segment(dice: &mut Dice, depth: usize, out: &mut String) {
    match dice.roll(if depth < 2 { 12 } else { 10 }) {
        0 | 1 => {
            out.push('.');
            out.push_str(pick(dice, &KEYS));
        }
        2 => {
            out.push_str("..");
            out.push_str(pick(dice, &KEYS));
        }
        3 => out.push_str(".*"),
        4 => out.push_str("..*"),
        5 => {
            out.push('[');
            out.push_str(pick(dice, &["0", "1", "-1", " 2 ", "*"]));
            out.push(']');
        }
        6 => {
            out.push_str(pick(dice, &["[", "..[", "[ "]));
            out.push_str(pick(dice, &["'a'", "\"k\"", "'b' ", "'a','k'", "'a', \"b\""]));
            out.push(']');
        }
        7 => {
            out.push_str(pick(dice, &["[", "..["]));
            out.push_str(pick(dice, &STEPS));
            out.push(':');
            out.push_str(pick(dice, &STEPS));
            if dice.roll(2) == 0 {
                out.push(':');
                out.push_str(pick(dice, &STEPS));
            }
            out.push(']');
        }
        8 | 9 => {
            out.push_str("[0,1]");
        }
        _ => {
            out.push_str(pick(dice, &["[?(", "..[?(", "[ ?("]));
            expression(dice, depth + 1, out);
            out.push_str(")]");
        }
    }
}

fn term(dice: &mut Dice, depth: usize, out: &mut String) {
    match dice.roll(8) {
        0 | 1 | 2 | 3 => {
            out.push('@');
            for _ in 0..dice.roll(3) {
                segment(dice, depth, out);
            }
        }
        4 => out.push_str(pick(dice, &NUMBERS)),
        5 => out.push_str(pick(dice, &STRINGS)),
        6 => out.push_str(pick(dice, &["true", "false"])),
        _ => {
            out.push('$');
            for _ in 0..dice.roll(2) {
                segment(dice, depth, out);
            }
        }
    }
}

fn expression(dice: &mut Dice, depth: usize, out: &mut String) {
    match dice.roll(6) {
        0 => term(dice, depth, out),
        1 if depth < 3 => {
            out.push('(');
            expression(dice, depth + 1, out);
            out.push(')');
        }
        2 if depth < 3 => {
            expression(dice, depth + 1, out);
            out.push_str(pick(dice, &[" && ", " || ", "&&"]));
            expression(dice, depth + 1, out);
        }
        _ => {
            term(dice, depth, out);
            out.push_str(pick(dice, &[" ", ""]));
            out.push_str(pick(dice, &OPERATORS));
            out.push_str(pick(dice, &[" ", ""]));
            term(dice, depth, out);
        }
    }
}

fn evaluate_grown(seed: u64) -> (usize, usize) {
    let mut dice = Dice(seed);
    let mut taken = 0;
    let mut found = 0;
    for _ in 0..4000 {
        let mut path = String::from("$");
        for _ in 0..1 + dice.roll(4) {
            segment(&mut dice, 0, &mut path);
        }
        if !path_is_supported(&path) {
            continue;
        }
        taken += 1;
        println!("{}", path);
        let monitor = ApiMonitor::new("u".to_string(), path, 1);
        for document in DOCUMENTS {
            if let Ok(Some(_)) = monitor.extract(document) {
                found += 1;
            }
        }
    }
    (taken, found)
}

#[test]
fn no_path_that_is_grown_and_taken_makes_the_evaluator_abort_one() {
    let (taken, found) = evaluate_grown(11);
    assert!(taken > 1000 && found > 300, "{} {}", taken, found);
}

#[test]
fn no_path_that_is_grown_and_taken_makes_the_evaluator_abort_two() {
    let (taken, found) = evaluate_grown(12);
    assert!(taken > 1000 && found > 300, "{} {}", taken, found);
}

#[test]
fn no_path_that_is_grown_and_taken_makes_the_evaluator_abort_three() {
    let (taken, found) = evaluate_grown(13);
    assert!(taken > 1000 && found > 300, "{} {}", taken, found);
}

#[test]
fn no_path_that_is_grown_and_taken_makes_the_evaluator_abort_four() {
    let (taken, found) = evaluate_grown(14);
    assert!(taken > 1000 && found > 300, "{} {}", taken, found);
}
