use c41_ui::lists::{copy_list, list_before, same_list, sort_list};
use c41_ui::paths::{file_extension, file_name, file_stem, parent_folder, tail_text};
use c41_ui::tables::{IdTable, TextTable};
use c41_ui::text::{
    is_space, join_texts, lower_text, push_decimal, push_signed, sorted_texts, split_text,
    text_before, trim_text,
};

use std::path::Path;

fn list(items: &[&str]) -> Vec<String> {
    items.iter().map(|s| s.to_string()).collect()
}

#[test]
fn white_space_is_that_of_unicode() {
    for n in 0..=0x11_0000u32 {
        if let Some(c) = char::from_u32(n) {
            assert_eq!(is_space(c), c.is_whitespace(), "{n:x}");
        }
    }
}

#[test]
fn texts_are_trimmed_split_and_joined() {
    for s in ["", " ", "a", " a b ", "\t\u{a0}x\u{3000}", "  \u{2003} "] {
        assert_eq!(trim_text(s, false), s.trim());
        assert_eq!(trim_text(s, true), s.trim_matches(' '));
    }
    assert_eq!(split_text(",a,,b,", ','), list(&["a", "b"]));
    assert!(split_text("", ',').is_empty());
    assert_eq!(join_texts(&list(&["a", "b", "c"]), ", "), "a, b, c");
    assert_eq!(join_texts(&Vec::new(), ","), "");
    assert_eq!(lower_text("ABC xyz É"), "abc xyz É");
}

#[test]
fn numbers_are_written_in_decimal() {
    for n in [0u64, 7, 10, 1234567890, u64::MAX] {
        let mut s = "n=".to_string();
        push_decimal(&mut s, n);
        assert_eq!(s, format!("n={n}"));
    }
    for n in [0i64, -1, 42, i64::MIN, i64::MAX] {
        let mut s = String::new();
        push_signed(&mut s, n);
        assert_eq!(s, n.to_string());
    }
}

#[test]
fn texts_are_ordered_as_strings_are() {
    let samples = ["", "a", "ab", "b", "B", "é", "z", "\u{10000}", "\u{ffff}"];
    for a in samples {
        for b in samples {
            assert_eq!(text_before(a, b), a < b, "{a:?} < {b:?}");
            let (x, y) = (list(&[a, b]), list(&[b, a, a]));
            assert_eq!(list_before(&x, &y, 3), x < y);
            assert_eq!(same_list(&x, &y, 2), x[..] == y[..2]);
        }
    }
    let mixed = list(&["b", "a", "c", "a"]);
    let mut want = mixed.clone();
    want.sort();
    assert_eq!(sorted_texts(&mixed), want);
    assert_eq!(sort_list(&mixed), want);
    assert_eq!(copy_list(&mixed), mixed);
}

#[test]
fn paths_are_taken_apart_as_the_system_does() {
    for p in [
        "", "/", "a", "/a", "/a/b.raw", "/a/b.raw/", "/a//b.raw", "a/./b", "/a/..", ".", "..",
        ".dng", "a.tar.gz", "/a/b.", "/a/.", "a/", "./a", "//a",
    ] {
        let path = Path::new(p);
        let name = path.file_name().map(|s| s.to_string_lossy().into_owned());
        assert_eq!(file_name(p), name, "{p:?}");
        let stem = path.file_stem().map(|s| s.to_string_lossy().into_owned());
        assert_eq!(file_stem(p), stem, "{p:?}");
        let ext = path.extension().map(|s| s.to_string_lossy().into_owned());
        assert_eq!(file_extension(p), ext, "{p:?}");
        let parent = path.parent().map(|s| s.to_string_lossy().into_owned());
        assert_eq!(parent_folder(p), parent, "{p:?}");
        assert_eq!(tail_text(p, '/'), p.rsplit('/').next().unwrap_or(p));
    }
}

#[test]
fn a_table_keeps_one_row_per_key() {
    let mut t: IdTable<i64> = IdTable::new();
    t.put(3, 30);
    t.put(1, 10);
    t.put(3, 31);
    assert_eq!(t.len(), 2);
    assert_eq!((t.get(3), t.get(1), t.get(2)), (Some(&31), Some(&10), None));
    assert!(t.remove(3) && !t.remove(3));
    assert_eq!(t.get(3), None);
    let mut n: TextTable<i64> = TextTable::new();
    n.put("b".to_string(), 1);
    n.put("a".to_string(), 2);
    n.put("b".to_string(), 3);
    assert_eq!(n.len(), 2);
    assert_eq!((n.get("b"), n.get("a"), n.get("c")), (Some(&3), Some(&2), None));
    assert!(n.remove("b") && !n.remove("b"));
    assert_eq!(n.entry(0), (&"a".to_string(), &2));
}
