use psql_backuper::catalog::{exclude_reserved, name_is_reserved, parse_database_list, parse_listing};

fn names(list: &[&str]) -> Vec<String> {
    list.iter().map(|s| s.to_string()).collect()
}

const LISTING: &str = "                                  List of databases
   Name    |  Owner   | Encoding |  Collate   |   Ctype    |   Access privileges   
-----------+----------+----------+------------+------------+-----------------------
 analytics | postgres | UTF8     | en_US.utf8 | en_US.utf8 | 
 app_db    | postgres | UTF8     | en_US.utf8 | en_US.utf8 | 
 postgres  | postgres | UTF8     | en_US.utf8 | en_US.utf8 | 
 template0 | postgres | UTF8     | en_US.utf8 | en_US.utf8 | =c/postgres          +
           |          |          |            |            | postgres=CTc/postgres
 template1 | postgres | UTF8     | en_US.utf8 | en_US.utf8 | =c/postgres          +
           |          |          |            |            | postgres=CTc/postgres
(5 rows)

";

#[test]
fn reserved_names_are_the_three() {
    assert!(name_is_reserved("postgres"));
    assert!(name_is_reserved("template0"));
    assert!(name_is_reserved("template1"));
    assert!(!name_is_reserved("template2"));
    assert!(!name_is_reserved("template"));
    assert!(!name_is_reserved("Postgres"));
    assert!(!name_is_reserved("postgres1"));
    assert!(!name_is_reserved(""));
}

#[test]
fn exclude_reserved_keeps_the_rest_in_order() {
    assert_eq!(
        exclude_reserved(names(&["postgres", "app_db", "template0", "analytics"])),
        names(&["app_db", "analytics"])
    );
    assert_eq!(exclude_reserved(names(&["postgres", "template0", "template1"])), names(&[]));
    assert_eq!(exclude_reserved(names(&[])), names(&[]));
    assert_eq!(exclude_reserved(names(&["b", "a", "b"])), names(&["b", "a", "b"]));
}

#[test]
fn listing_rows_give_their_first_token() {
    assert_eq!(
        parse_listing(LISTING),
        names(&["analytics", "app_db", "postgres", "template0", "template1"])
    );
}

#[test]
fn database_list_has_no_reserved_names() {
    assert_eq!(parse_database_list(LISTING), names(&["analytics", "app_db"]));
}

#[test]
fn database_list_follows_the_order_of_the_listing() {
    let listing = "\n zeta | x\n postgres | x\n alpha | x\n mid | x\n";
    assert_eq!(parse_database_list(listing), names(&["zeta", "alpha", "mid"]));
}

#[test]
fn rows_of_another_shape_are_skipped() {
    assert_eq!(parse_database_list(""), names(&[]));
    assert_eq!(parse_database_list("\n\n\n"), names(&[]));
    assert_eq!(parse_database_list("  two_spaces | x\n"), names(&[]));
    assert_eq!(parse_database_list("no_space | x\n"), names(&[]));
    assert_eq!(parse_database_list(" \n"), names(&[]));
    assert_eq!(parse_database_list(" "), names(&[]));
    assert_eq!(parse_database_list(" \t| x\n"), names(&[]));
    assert_eq!(parse_database_list("(3 rows)\n"), names(&[]));
}

#[test]
fn a_name_ends_at_any_white_space() {
    assert_eq!(parse_database_list(" app_db\n"), names(&["app_db"]));
    assert_eq!(parse_database_list(" app_db"), names(&["app_db"]));
    assert_eq!(parse_database_list(" app_db\t| x"), names(&["app_db"]));
    assert_eq!(parse_database_list(" app_db\r\n other\r\n"), names(&["app_db", "other"]));
    assert_eq!(parse_database_list(" app_db|owner | x"), names(&["app_db|owner"]));
}

#[test]
fn the_first_line_is_a_row_like_the_others() {
    assert_eq!(parse_database_list(" first | x\n second | x"), names(&["first", "second"]));
}

#[test]
fn names_beyond_ascii_are_kept_whole() {
    assert_eq!(parse_database_list(" données | x\n"), names(&["données"]));
}

#[test]
fn listing_rows_match_the_row_pattern() {
    let pattern = regex::Regex::new(r"\n ([^ ]+)").unwrap();
    let expected: Vec<String> = pattern
        .captures_iter(LISTING)
        .filter_map(|found| found.get(1))
        .map(|name| name.as_str().to_string())
        .collect();
    assert_eq!(parse_listing(LISTING), expected);
    assert_eq!(expected.len(), 5);
}
