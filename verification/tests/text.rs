//! Texts, and maps by name.
use ssh_mcp_rs::name_map::NameMap;
use ssh_mcp_rs::sudo::build_sudo_command;
use ssh_mcp_rs::text::{
    decimal_text, is_blank, join, place_of, replace_char, same_text, Place,
};

#[test]
fn blank_is_what_std_trims_to_nothing() {
    for c in '\u{0}'..='\u{10ffff}' {
        assert_eq!(is_blank(&c.to_string()), c.to_string().trim().is_empty(), "{c:?}");
    }
    assert!(is_blank(""));
    assert!(is_blank(" \t\r\n"));
    assert!(!is_blank(" x "));
}

#[test]
fn texts_are_ordered_as_std_orders_them() {
    let texts = ["", "a", "A", "ab", "b", "é", "z", "\u{7f}", "\u{80}", "\u{ffff}", "\u{10000}"];
    for a in texts {
        for b in texts {
            let expected = if a < b {
                Place::Before
            } else if a == b {
                Place::Same
            } else {
                Place::After
            };
            assert_eq!(place_of(a, b), expected, "{a:?} {b:?}");
            assert_eq!(same_text(a, b), a == b);
        }
    }
}

#[test]
fn numbers_are_written_as_std_writes_them() {
    for n in [0, 1, 9, 10, 99, 100, 1000, 60_000, u32::MAX as u64, u64::MAX] {
        assert_eq!(decimal_text(n), n.to_string());
    }
}

#[test]
fn characters_are_replaced_everywhere() {
    assert_eq!(replace_char("a'b''", '\'', "\"\""), "a\"\"b\"\"\"\"");
    assert_eq!(replace_char("", 'x', "y"), "");
    assert_eq!(replace_char("äxä", 'ä', ""), "x");
}

#[test]
fn texts_are_joined_as_std_joins_them() {
    let lists: [Vec<String>; 4] = [
        vec![],
        vec!["a".into()],
        vec!["a".into(), "b".into()],
        vec!["".into(), "b".into(), "".into()],
    ];
    for list in lists {
        assert_eq!(join(&list, "\n"), list.join("\n"));
    }
}

#[test]
fn a_name_map_keeps_one_value_a_name() {
    let mut map = NameMap::new();
    assert!(map.is_empty());
    for (name, value) in [("m", 1), ("a", 2), ("z", 3), ("m", 4)] {
        map.insert(name.to_string(), value);
    }
    assert_eq!(map.len(), 3);
    assert_eq!(map.get("m"), Some(&4));
    assert_eq!(map.get("b"), None);
    assert!(map.contains_key("a"));
    assert_eq!(map.names(), vec!["a", "m", "z"]);
    assert_eq!((map.name_at(1).as_str(), *map.value_at(1)), ("m", 4));
    assert_eq!(map.clone().remove("m"), Some(4));
    assert_eq!(map.remove("m"), Some(4));
    assert_eq!(map.remove("m"), None);
    assert_eq!(map.names(), vec!["a", "z"]);
}

#[test]
fn sudo_lines_quote_what_they_are_given() {
    assert_eq!(build_sudo_command("ls", None), "sudo -n sh -c 'ls'");
    assert_eq!(
        build_sudo_command("echo 'a' | b", Some("p'w")),
        "printf '%s\\n' 'p'\"'\"'w' | sudo -p '' -S sh -c 'echo '\"'\"'a'\"'\"' | b'"
    );
}
