use psql_backuper::paths::{database_of_dump, dump_file_path, file_name_of, join, parent_of};
use psql_backuper::text::{
    char_is_whitespace, chars_of, decimal_string, parse_unsigned, text_contains, text_eq,
    text_is_blank,
};

#[test]
fn whitespace_follows_unicode() {
    for c in [' ', '\t', '\n', '\r', '\u{0B}', '\u{0C}', '\u{85}', '\u{A0}', '\u{1680}', '\u{2000}',
        '\u{200A}', '\u{2028}', '\u{2029}', '\u{202F}', '\u{205F}', '\u{3000}']
    {
        assert!(char_is_whitespace(c), "{:?}", c);
    }
    for c in ['a', '0', '|', '_', '\u{200B}', '\u{1F}', '\u{FEFF}'] {
        assert!(!char_is_whitespace(c), "{:?}", c);
    }
}

#[test]
fn whitespace_agrees_with_std_on_every_char() {
    let mut c: u32 = 0;
    while c <= 0x10FFFF {
        if let Some(ch) = char::from_u32(c) {
            assert_eq!(char_is_whitespace(ch), ch.is_whitespace(), "{:#x}", c);
        }
        c += 1;
    }
}

#[test]
fn chars_of_keeps_every_char() {
    assert_eq!(chars_of("a é\n"), vec!['a', ' ', 'é', '\n']);
    assert_eq!(chars_of(""), Vec::<char>::new());
}

#[test]
fn text_eq_compares_contents() {
    assert!(text_eq("postgres", "postgres"));
    assert!(!text_eq("postgres", "postgres "));
    assert!(text_eq("", ""));
}

#[test]
fn blank_texts() {
    assert!(text_is_blank(""));
    assert!(text_is_blank("  \t\n"));
    assert!(!text_is_blank("  x "));
}

#[test]
fn contains_finds_phrases() {
    assert!(text_contains("FATAL:  password authentication failed for user", "authentication failed"));
    assert!(text_contains("abc", ""));
    assert!(text_contains("abc", "abc"));
    assert!(text_contains("aab", "ab"));
    assert!(!text_contains("ab", "abc"));
    assert!(!text_contains("connection refused", "authentication failed"));
    assert!(!text_contains("", "a"));
}

#[test]
fn parse_unsigned_reads_decimal_numbers() {
    assert_eq!(parse_unsigned("5432", 65535), Some(5432));
    assert_eq!(parse_unsigned("+80", 65535), Some(80));
    assert_eq!(parse_unsigned("0", 65535), Some(0));
    assert_eq!(parse_unsigned("007", 65535), Some(7));
    assert_eq!(parse_unsigned("65535", 65535), Some(65535));
    assert_eq!(parse_unsigned("18446744073709551615", u64::MAX), Some(u64::MAX));
}

#[test]
fn parse_unsigned_rejects_everything_else() {
    assert_eq!(parse_unsigned("", 65535), None);
    assert_eq!(parse_unsigned("+", 65535), None);
    assert_eq!(parse_unsigned("-1", 65535), None);
    assert_eq!(parse_unsigned("65536", 65535), None);
    assert_eq!(parse_unsigned("18446744073709551616", u64::MAX), None);
    assert_eq!(parse_unsigned("99999999999999999999999", u64::MAX), None);
    assert_eq!(parse_unsigned(" 5432", 65535), None);
    assert_eq!(parse_unsigned("5432 ", 65535), None);
    assert_eq!(parse_unsigned("54_32", 65535), None);
    assert_eq!(parse_unsigned("++1", 65535), None);
    assert_eq!(parse_unsigned("١٢", 65535), None);
    assert_eq!(parse_unsigned("9", 5), None);
}

#[test]
fn parse_unsigned_agrees_with_std() {
    for text in ["", "+", "-", "0", "+0", "-0", "12", "65535", "65536", "00065535", "1e3", "0x10", " 1"] {
        assert_eq!(parse_unsigned(text, 65535), text.parse::<u16>().ok().map(u64::from), "{:?}", text);
        assert_eq!(parse_unsigned(text, u64::MAX), text.parse::<u64>().ok(), "{:?}", text);
    }
}

#[test]
fn decimal_string_writes_numbers() {
    assert_eq!(decimal_string(0), "0");
    assert_eq!(decimal_string(7), "7");
    assert_eq!(decimal_string(10), "10");
    assert_eq!(decimal_string(5432), "5432");
    assert_eq!(decimal_string(u64::MAX), "18446744073709551615");
}

#[test]
fn decimal_string_round_trips() {
    for n in [0u64, 1, 9, 10, 99, 100, 12345, u64::MAX] {
        assert_eq!(parse_unsigned(&decimal_string(n), n), Some(n));
    }
}

#[test]
fn join_puts_one_separator() {
    assert_eq!(join("/tmp/dumps", "app_db.sql"), "/tmp/dumps/app_db.sql");
    assert_eq!(join("/tmp/dumps/", "app_db.sql"), "/tmp/dumps/app_db.sql");
    assert_eq!(join("", "app_db.sql"), "app_db.sql");
    assert_eq!(join("/", "app_db.sql"), "/app_db.sql");
    assert_eq!(join("dumps", ""), "dumps/");
}

#[test]
fn dump_file_path_is_directory_name_and_suffix() {
    assert_eq!(dump_file_path("/tmp/dumps", "app_db"), "/tmp/dumps/app_db.sql");
    assert_eq!(dump_file_path("/tmp/dumps", "analytics"), "/tmp/dumps/analytics.sql");
    assert_eq!(dump_file_path("dumps/", "a.b"), "dumps/a.b.sql");
}

#[test]
fn dump_file_path_is_the_same_every_time() {
    assert_eq!(dump_file_path("/tmp/dumps", "app_db"), dump_file_path("/tmp/dumps", "app_db"));
}

#[test]
fn database_of_dump_strips_the_extension() {
    assert_eq!(database_of_dump("app_db.sql"), Some("app_db".to_string()));
    assert_eq!(database_of_dump("a.b.sql"), Some("a.b".to_string()));
    assert_eq!(database_of_dump("a..sql"), Some("a.".to_string()));
    assert_eq!(database_of_dump("é.sql"), Some("é".to_string()));
}

#[test]
fn database_of_dump_ignores_other_files() {
    assert_eq!(database_of_dump("notes.txt"), None);
    assert_eq!(database_of_dump(".sql"), None);
    assert_eq!(database_of_dump("sql"), None);
    assert_eq!(database_of_dump("app_db.SQL"), None);
    assert_eq!(database_of_dump("app_db.sql.gz"), None);
    assert_eq!(database_of_dump("app_db.sql "), None);
    assert_eq!(database_of_dump("app_dbsql"), None);
    assert_eq!(database_of_dump(""), None);
}

#[test]
fn database_of_dump_agrees_with_std_paths() {
    for name in ["app_db.sql", "notes.txt", ".sql", "a.b.sql", "a..sql", "x.sqlx", "x", "x.", "x.sql"] {
        let path = std::path::Path::new(name);
        let expected = if path.extension().and_then(|e| e.to_str()) == Some("sql") {
            path.file_stem().and_then(|s| s.to_str()).map(str::to_string)
        } else {
            None
        };
        assert_eq!(database_of_dump(name), expected, "{:?}", name);
    }
}

#[test]
fn dump_file_leads_back_to_its_database() {
    for db in ["app_db", "analytics", "a.b", "x"] {
        let path = dump_file_path("/tmp/dumps", db);
        let name = file_name_of(&path).unwrap();
        assert_eq!(name, format!("{}.sql", db));
        assert_eq!(database_of_dump(&name), Some(db.to_string()));
    }
}

#[test]
fn parent_of_is_the_path_without_its_final_component() {
    assert_eq!(parent_of("/tmp/dumps/app_db.sql"), Some("/tmp/dumps".to_string()));
    assert_eq!(parent_of("dumps/app_db.sql"), Some("dumps".to_string()));
    assert_eq!(parent_of("/app_db.sql"), Some("/".to_string()));
    assert_eq!(parent_of("app_db.sql"), Some(String::new()));
    assert_eq!(parent_of("a/b/"), Some("a".to_string()));
    assert_eq!(parent_of("a//b"), Some("a".to_string()));
    assert_eq!(parent_of("a/./b"), Some("a".to_string()));
    assert_eq!(parent_of("a/.."), Some("a".to_string()));
    assert_eq!(parent_of("./a"), Some(".".to_string()));
    assert_eq!(parent_of("."), Some(String::new()));
    assert_eq!(parent_of(".."), Some(String::new()));
}

#[test]
fn the_root_and_the_empty_path_have_no_parent() {
    assert_eq!(parent_of(""), None);
    assert_eq!(parent_of("/"), None);
    assert_eq!(parent_of("//"), None);
    assert_eq!(parent_of("/."), None);
}

#[test]
fn file_name_of_is_the_final_component() {
    assert_eq!(file_name_of("/tmp/dumps/app_db.sql"), Some("app_db.sql".to_string()));
    assert_eq!(file_name_of("app_db.sql"), Some("app_db.sql".to_string()));
    assert_eq!(file_name_of("/tmp/dumps/"), Some("dumps".to_string()));
    assert_eq!(file_name_of("/tmp/dumps/."), Some("dumps".to_string()));
    assert_eq!(file_name_of("/tmp/dumps/.//"), Some("dumps".to_string()));
    assert_eq!(file_name_of(".hidden"), Some(".hidden".to_string()));
    assert_eq!(file_name_of("..."), Some("...".to_string()));
    assert_eq!(file_name_of("dumps/é.sql"), Some("é.sql".to_string()));
}

#[test]
fn some_paths_have_no_final_component() {
    assert_eq!(file_name_of(""), None);
    assert_eq!(file_name_of("/"), None);
    assert_eq!(file_name_of("."), None);
    assert_eq!(file_name_of("./"), None);
    assert_eq!(file_name_of(".."), None);
    assert_eq!(file_name_of("dumps/.."), None);
    assert_eq!(file_name_of("dumps/../"), None);
    assert_eq!(file_name_of("/.."), None);
}

fn every_path(alphabet: &[char], longest: usize) -> Vec<String> {
    let mut all = vec![String::new()];
    let mut last = vec![String::new()];
    for _ in 0..longest {
        let mut next = Vec::new();
        for text in &last {
            for c in alphabet {
                let mut longer = text.clone();
                longer.push(*c);
                next.push(longer);
            }
        }
        all.extend(next.iter().cloned());
        last = next;
    }
    all
}

#[test]
fn file_name_of_agrees_with_std_paths() {
    for path in every_path(&['/', '.', 'a', 'é'], 7) {
        let expected = std::path::Path::new(&path)
            .file_name()
            .map(|name| name.to_str().unwrap().to_string());
        assert_eq!(file_name_of(&path), expected, "{:?}", path);
    }
}

#[test]
fn parent_of_agrees_with_std_paths() {
    for path in every_path(&['/', '.', 'a', 'é'], 7) {
        let expected = std::path::Path::new(&path)
            .parent()
            .map(|dir| dir.to_str().unwrap().to_string());
        assert_eq!(parent_of(&path), expected, "{:?}", path);
    }
}

#[test]
fn join_agrees_with_std_paths_on_relative_names() {
    for dir in every_path(&['/', '.', 'a'], 4) {
        for name in ["a", "a.sql", ".", "..", "a/b", ""] {
            let expected = std::path::Path::new(&dir).join(name);
            assert_eq!(join(&dir, name), expected.to_str().unwrap(), "{:?} {:?}", dir, name);
        }
    }
}

#[test]
fn join_keeps_a_name_under_its_directory() {
    assert_eq!(join("/tmp/dumps", "/x.sql"), "/tmp/dumps//x.sql");
    assert_eq!(dump_file_path("/tmp/dumps", "/x"), "/tmp/dumps//x.sql");
    assert_eq!(parent_of("/tmp/dumps//x.sql"), Some("/tmp/dumps".to_string()));
}
