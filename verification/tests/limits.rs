use rustc_serialize::json::Json;
use testjs::config::Config;
use testjs::failure::ErrorKind;
use testjs::location::manifest_path;
use testjs::manifest::load_config;
use testjs::manifest_limits::{manifest_is_within_limits, manifest_nesting};
use testjs::report_limits::{report_is_within_limits, report_nesting};

fn nested(open: &str, close: &str, depth: usize, inner: &str) -> String {
    format!("{}{}{}", open.repeat(depth), inner, close.repeat(depth))
}

fn step(state: &mut u64) -> u64 {
    *state = state.wrapping_mul(6364136223846793005).wrapping_add(1442695040888963407);
    *state >> 33
}

fn pick<'a>(state: &mut u64, pieces: &[&'a str]) -> &'a str {
    pieces[(step(state) % pieces.len() as u64) as usize]
}

fn mixture(state: &mut u64, pieces: &[&str], count: u64) -> String {
    let mut text = String::new();
    for _ in 0..count {
        text.push_str(pick(state, pieces));
    }
    text
}

fn toml_depth(value: &toml::Value) -> u128 {
    match value {
        toml::Value::Array(items) => 1 + items.iter().map(toml_depth).max().unwrap_or(0),
        toml::Value::Table(table) => 1 + table.values().map(toml_depth).max().unwrap_or(0),
        _ => 0,
    }
}

fn json_depth(value: &Json) -> u64 {
    match value {
        Json::Array(items) => 1 + items.iter().map(json_depth).max().unwrap_or(0),
        Json::Object(members) => 1 + members.values().map(json_depth).max().unwrap_or(0),
        _ => 0,
    }
}

#[test]
fn ordinary_manifest_is_within_limits() {
    let mut manifest = String::from(
        "[package]\nname = \"demo\"\nversion = \"0.1.0\"\nauthors = [\"A. U. Thor <a@example.org>\"]\ndescription = \"\"\"\nA test. With dots... and [brackets], it's \"quoted\" \\\n  and goes on.\"\"\"\"\nnotes = '''\nliteral ]]] and '' quotes'''\nnumbers = [1.5, 2.5, 3.25e-3, 1979-05-27T07:32:00.999Z]\n\n",
    );
    manifest.push_str("[features]\n");
    for i in 0..300 {
        manifest.push_str(&format!("f{} = [\"a{}\", \"b/c\", \"C:\\\\d]\"] # [note] it's\n", i, i));
    }
    for i in 0..300 {
        manifest.push_str(&format!(
            "\n[dependencies.d{}]\nversion = \"1.2.{}\"\nfeatures = ['x]', \"y\"]\ngit = {{ url = 'https://a.b.c/d.git', rev = \"2e1234567890abcd\", a.b = 1.5 }}\n",
            i, i
        ));
    }
    manifest.push_str("\n[package.metadata.testjs]\nnode = \"nodejs\"\n");
    assert_eq!(manifest_nesting(&manifest), 6);
    assert!(manifest_is_within_limits(&manifest));
    assert_eq!(
        load_config("Cargo.toml", &manifest),
        Ok(Config {
            runtime_path: "nodejs".to_string(),
            target_id: "asmjs-unknown-emscripten".to_string(),
            prelude_path: None,
        })
    );
}

#[test]
fn nesting_of_a_manifest_is_measured_as_it_is() {
    assert_eq!(manifest_nesting(""), 0);
    assert_eq!(manifest_nesting("a = 1\n"), 0);
    assert_eq!(manifest_nesting("a.b.c = 1\n"), 2);
    assert_eq!(manifest_nesting("[a.b.c]\n"), 6);
    assert_eq!(manifest_nesting("[[a.b]]\nx = 1\n"), 4);
    assert_eq!(manifest_nesting("[a.b]\nc.d = [[1.5, 2.5], {e.f = 3.5}]\n"), 8);
    assert_eq!(manifest_nesting("a = [1.5, 2.5, 3.5]\nb = 1.5\n"), 1);
    assert_eq!(manifest_nesting("a = \"[[[.{{{\" # [[[ ...\nb = '[[[...'\n"), 0);
    assert_eq!(manifest_nesting("a = \"\"\"[[[ \"\" ]]] \\\"\"\"[[\"\"\"\nb = [1]\n"), 1);
    assert_eq!(manifest_nesting("a = '''[[[ '' ]]]'''''\nb = [[1]]\n"), 2);
    assert_eq!(manifest_nesting("a = \"\"\nb = ''\nc = [\"\", '']\n"), 1);
    let floats = format!("a = [{}]\n", "1.5, ".repeat(300));
    assert_eq!(manifest_nesting(&floats), 1);
    assert!(load_config("Cargo.toml", &floats).is_ok());
}

#[test]
fn brackets_and_dots_in_strings_are_not_nesting() {
    let manifest = format!(
        "[package.metadata.testjs]\nprelude = \"{}{}\"\ntarget = \"t\" # {}\n",
        "[{".repeat(200),
        ".".repeat(200),
        "[.".repeat(100)
    );
    assert!(manifest_is_within_limits(&manifest));
    let config = load_config("Cargo.toml", &manifest).unwrap();
    assert_eq!(config.target_id, "t");
    assert_eq!(config.prelude_path.unwrap().len(), 600);
}

#[test]
fn nesting_up_to_the_limit_is_parsed() {
    let texts = [
        format!("a = {}\n", nested("[", "]", 64, "")),
        format!("a = {}\n", nested("{a=", "}", 64, "1")),
        format!("[a{}]\nb{} = {}\n", ".a".repeat(10), ".b".repeat(20), nested("[", "]", 22, "")),
        format!("[[a{}]]\n[a{}]\n", ".a".repeat(30), ".a".repeat(31)),
        format!("a = {}\n", nested("{a.a=", "}", 32, "1")),
        format!("a{} = 1\n", ".a".repeat(64)),
    ];
    for text in texts.iter() {
        assert_eq!(manifest_nesting(text), 64);
        assert!(manifest_is_within_limits(text));
        assert!(load_config("Cargo.toml", text).is_ok());
    }
}

#[test]
fn manifest_nested_beyond_the_limit_is_a_configuration_error() {
    let texts = [
        format!("a = {}\n", nested("[", "]", 65, "")),
        format!("a = {}\n", nested("{a=", "}", 65, "1")),
        format!("[a{}]\nx = 1\n", ".a".repeat(32)),
        format!("[a{}]", ".a".repeat(32)),
        format!("a{} = 1\n", ".a".repeat(65)),
        format!("[a{}]\nb{} = {}\n", ".a".repeat(10), ".b".repeat(20), nested("[", "]", 23, "")),
        format!("a = {}\n", "[".repeat(200000)),
        format!("a = {}\n", "{a=".repeat(200000)),
        format!("[a{}]\n", ".a".repeat(200000)),
        format!("a = [{}]\n", "[ \"]\", ".repeat(100)),
        format!("a = [{}]\n", "[ ']', ".repeat(100)),
        format!("a = [\n{}]\n", "[ # ]\n".repeat(100)),
        format!("a = [{}]\n", "[ \"\\\"]\", ".repeat(100)),
        format!("a = [{}]\n", "[ \"\"\"]\"\"\", ".repeat(100)),
        format!("a = [{}]\n", "[ ''']''''', ".repeat(100)),
    ];
    for text in texts.iter() {
        assert!(!manifest_is_within_limits(text));
        let failure = load_config("/p/Cargo.toml", text).unwrap_err();
        assert_eq!(failure.kind(), ErrorKind::Configuration);
        assert_eq!(failure.message(), "Unable to parse /p/Cargo.toml: nested too deeply");
    }
}

fn toml_text(state: &mut u64) -> String {
    let texts = [
        "\"\"", "''", "\"a.b]\"", "'a.b]'", "\"x\\\"]\\\\\"", "\"\"\"a\"\"\"", "\"\"\"\n]\"\" \\\"\"\"\" [\"\"\"\"\"",
        "'''a'''", "'''\n]'' ''''[''''", "\"#[\"", "'#['", "\"\"\"\\\n  ] \"\"\"", "\"\\u00e9]\"",
    ];
    pick(state, &texts).to_string()
}

fn toml_key(state: &mut u64) -> String {
    let parts = ["a", "b", "\"c.d\"", "'e.f'", "1", "g-h", "\"\""];
    let mut key = pick(state, &parts).to_string();
    for _ in 0..step(state) % 3 {
        key.push_str(pick(state, &[".", " . ", "."]));
        key.push_str(pick(state, &parts));
    }
    key
}

fn toml_value(state: &mut u64, depth: u64) -> String {
    let kind = step(state) % if depth == 0 { 5 } else { 8 };
    match kind {
        0 => toml_text(state),
        1 => pick(state, &["1", "-2", "1.5", "3.25e-3", "1e5", "0x1f", "inf", "+1.0"]).to_string(),
        2 => pick(state, &["true", "false", "1979-05-27", "07:32:00.5", "1979-05-27T07:32:00.999Z"]).to_string(),
        3 => "[]".to_string(),
        4 => "{}".to_string(),
        5 | 6 => {
            let mut text = String::from("[");
            let gap = pick(state, &["", " ", "\n", " # c ]\n", "\n\n  "]);
            for i in 0..step(state) % 4 {
                if i > 0 {
                    text.push(',');
                }
                text.push_str(gap);
                text.push_str(&toml_value(state, depth - 1));
            }
            if step(state) % 3 == 0 {
                text.push(',');
            }
            text.push_str(gap);
            text.push(']');
            text
        }
        _ => {
            let mut text = String::from("{");
            for i in 0..1 + step(state) % 3 {
                if i > 0 {
                    text.push_str(", ");
                }
                text.push_str(&format!("k{}.{} = {}", i, toml_key(state), toml_value(state, depth - 1)));
            }
            text.push('}');
            text
        }
    }
}

fn toml_document(state: &mut u64) -> String {
    let mut text = String::new();
    let mut next = 0;
    for _ in 0..1 + step(state) % 6 {
        match step(state) % 5 {
            0 => text.push_str(&format!("[t{}.{}]\n", next, toml_key(state))),
            1 => text.push_str(&format!("[[u.{}]] # [\n", toml_key(state))),
            2 => text.push_str("# comment [[[ \" ' \n\n"),
            _ => text.push_str(&format!("v{}.{} = {}\n", next, toml_key(state), toml_value(state, 4))),
        }
        next += 1;
    }
    text
}

#[test]
fn measure_is_no_less_than_what_the_parser_builds() {
    let mut state = 99u64;
    let mut parsed = 0;
    for round in 0..6000 {
        let mut text = toml_document(&mut state);
        if round % 3 == 1 && !text.is_empty() {
            let at = (step(&mut state) as usize) % text.len();
            if text.is_char_boundary(at) {
                text.insert_str(at, pick(&mut state, &["\"", "'", "[", "]", "{", "}", ".", ",", "\n", "#", "\\", "=", "\"\"\"", "'''"]));
            }
        }
        assert!(manifest_is_within_limits(&text));
        if let Ok(value) = text.parse::<toml::Value>() {
            parsed += 1;
            let built = toml_depth(&value);
            let measured = manifest_nesting(&text);
            assert!(built <= measured + 1, "built {} measured {} in {:?}", built, measured, text);
        }
    }
    assert!(parsed > 1000);
}

#[test]
fn repeated_text_within_limits_is_parsed_to_an_end() {
    let toml = ["\"", "\"", "'", "#", "\\", "\n", "]", "]", "}", "a", " ", "\"\"\"", "'''", "\"\"", "''", ",", "\r\n", "\\\"", "\\\\", "=", "1", "."];
    let json = ["\"", "\"", "'", "#", "\\", "\n", "]", "]", "}", "a", " ", "\"\"", ",", "\\\"", "\\\\", ":", "1", "e", "9"];
    let toml_openers = ["[", "[", "{a=", "[{a=", "{a.b=", "a."];
    let json_openers = ["[", "[", "{\"a\":", "[{\"a\":"];
    let mut state = 7u64;
    let mut parsed = 0;
    for round in 0..600 {
        let opener = toml_openers[round % 6];
        let length = step(&mut state) % 7;
        let unit = format!("{}{}{}", opener, mixture(&mut state, &toml, length), if round % 2 == 0 { "," } else { "\n" });
        let length = step(&mut state) % 4;
        let text = format!("a = {}{}", mixture(&mut state, &toml, length), unit.repeat(3000));
        if manifest_is_within_limits(&text) {
            let _ = load_config("Cargo.toml", &text);
            parsed += 1;
        }
        let opener = json_openers[round % 4];
        let length = step(&mut state) % 7;
        let unit = format!("{}{}{}", opener, mixture(&mut state, &json, length), if round % 2 == 0 { "," } else { "\n" });
        let text = unit.repeat(7000);
        if report_is_within_limits(&text) {
            let _ = manifest_path(&text);
            parsed += 1;
        }
    }
    assert!(parsed > 50);
}

#[test]
fn ordinary_report_is_within_limits() {
    let reports = [
        "{\"root\":\"/home/me/proj/Cargo.toml\"}",
        "{\"root\":\"/backup/archive20231028123456/1e5/a,}/Cargo.toml\"}",
        "{\"root\":\"/a/[[[[[[[[[[[[[[[[[[[[[[[[[[[[[[[[[[[[[[[[[[[[[[[[[[[[[[[[[[[[[[[[[[[[[[[[[/Cargo.toml\"}",
        "{\"root\":\"C:\\\\proj\\\\x\\\"y\\\\Cargo.toml\", \"other\": [1, 2.5, {\"k\": null}]}",
        " {\n  \"root\" : \"/p/Cargo.toml\" ,\n  \"n\" : -12\n }\n",
    ];
    for report in reports.iter() {
        assert!(report_is_within_limits(report));
        assert!(manifest_path(report).is_ok());
    }
    assert_eq!(
        manifest_path(reports[1]),
        Ok("/backup/archive20231028123456/1e5/a,}/Cargo.toml".to_string())
    );
}

#[test]
fn report_up_to_the_limits_is_parsed() {
    let deep = nested("[", "]", 64, "1");
    assert_eq!(report_nesting(&deep), 64);
    assert!(report_is_within_limits(&deep));
    assert!(manifest_path(&deep).is_err());
    let objects = nested("{\"root\":", "}", 64, "\"x\"");
    assert!(report_is_within_limits(&objects));
    assert!(manifest_path(&objects).is_err());
    let keys = format!("{{\"{}\":{{\"{}\":{{\"root\":\"/x\"}}}},\"root\":\"/p/Cargo.toml\"}}", "k".repeat(32000), "\u{e9}".repeat(16000));
    assert!(keys.len() <= 65535);
    assert!(report_is_within_limits(&keys));
    assert_eq!(manifest_path(&keys), Ok("/p/Cargo.toml".to_string()));
}

#[test]
fn report_beyond_the_limits_is_a_configuration_error() {
    let texts = [
        "[{\"x\":{\"a\":1,},\"y\":2}]".to_string(),
        "{\"x\":{\"a\":1 , \n\t\r }, \"root\":\"/p/Cargo.toml\"}".to_string(),
        "[[{\"a\":{\"b\":[1], }}]]".to_string(),
        format!("{{\"\u{e9}{}\":1}}", "k".repeat(65535)),
        format!("{{\"{}\":{{\"{}\":1}}}}", "a".repeat(40000), "b".repeat(30000)),
        format!("{{\"root\":\"/p/Cargo.toml\",\"pad\":\"{}\"}}", "x".repeat(65536)),
        nested("[", "]", 65, ""),
        "[".repeat(60000),
        "{\"a\":".repeat(12000),
        "1e5".to_string(),
        "[1e9999999999]".to_string(),
        "{\"root\":\"/x/Cargo.toml\",\"n\":1E+9}".to_string(),
        "[0.5e-1]".to_string(),
    ];
    for text in texts.iter() {
        assert!(!report_is_within_limits(text));
        let failure = manifest_path(text).unwrap_err();
        assert_eq!(failure.kind(), ErrorKind::Configuration);
        assert_eq!(failure.message(), format!("Cannot find the project root in {}", text));
    }
}

fn json_value(state: &mut u64, depth: u64) -> String {
    let kind = step(state) % if depth == 0 { 4 } else { 7 };
    match kind {
        0 => pick(state, &["\"\"", "\"a\"", "\"a,}]\"", "\"\\\"},\\\\\"", "\"\\u00e9\\ud83d\\ude00\"", "\"e5\""]).to_string(),
        1 => pick(state, &["0", "-1", "12.5", "18446744073709551615", "-9223372036854775808", "0.000001"]).to_string(),
        2 => pick(state, &["true", "false", "null"]).to_string(),
        3 => pick(state, &["[]", "{}", "[ ]", "{ }"]).to_string(),
        4 | 5 => {
            let mut text = String::from("[");
            for i in 0..step(state) % 4 {
                if i > 0 {
                    text.push_str(pick(state, &[",", " , ", ",\n"]));
                }
                text.push_str(&json_value(state, depth - 1));
            }
            text.push(']');
            text
        }
        _ => {
            let mut text = String::from("{");
            for i in 0..step(state) % 4 {
                if i > 0 {
                    text.push_str(pick(state, &[",", " , ", ",\n"]));
                }
                let key = pick(state, &["", "root", "a,}", "long key \\\" with \\u00e9", "k"]);
                text.push_str(&format!("\"{}{}\":{}", key, "z".repeat((step(state) % 40) as usize), json_value(state, depth - 1)));
            }
            text.push('}');
            text
        }
    }
}

#[test]
fn report_within_limits_is_parsed_to_an_end() {
    let mut state = 4242u64;
    let mut parsed = 0;
    let mut refused = 0;
    for round in 0..8000 {
        let mut text = json_value(&mut state, 5);
        if round % 2 == 1 && !text.is_empty() {
            for _ in 0..1 + step(&mut state) % 3 {
                let at = (step(&mut state) as usize) % text.len();
                if text.is_char_boundary(at) {
                    text.insert_str(at, pick(&mut state, &["\"", ",", "}", "]", "{", "[", ":", " ", "\\", "e", "1", ",}", ", }", "\n"]));
                }
            }
        }
        if !report_is_within_limits(&text) {
            refused += 1;
            assert!(manifest_path(&text).is_err());
            continue;
        }
        let _ = manifest_path(&text);
        if let Ok(value) = Json::from_str(&text) {
            parsed += 1;
            assert!(json_depth(&value) <= report_nesting(&text), "{:?}", text);
        }
    }
    assert!(parsed > 1000);
    assert!(refused > 100);
}
