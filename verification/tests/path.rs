use std::path::{Path, PathBuf};
use syqure::path::{file_name_of, join, strip_source_extension};

#[test]
fn join_puts_one_separator_between() {
    assert_eq!(join("a", "b"), "a/b");
    assert_eq!(join("a/", "b"), "a/b");
    assert_eq!(join("/opt/codon", "bin/codon"), "/opt/codon/bin/codon");
    assert_eq!(join("a", ""), "a/");
}

#[test]
fn join_onto_the_empty_path_is_the_child() {
    assert_eq!(join("", "b"), "b");
    assert_eq!(join("", ""), "");
}

#[test]
fn join_of_an_absolute_child_replaces_the_base() {
    assert_eq!(join("a/b", "/c"), "/c");
    assert_eq!(join("", "/"), "/");
}

#[test]
fn join_agrees_with_the_standard_library() {
    let bases = ["", "a", "a/", "/", "/a/b", "a//", ".", "..", "é/ü"];
    let children = ["", "b", "b/c", "/b", "lib/codon", ".", "ß.codon"];
    for base in bases {
        for child in children {
            let expected = Path::new(base).join(child);
            assert_eq!(join(base, child), expected.to_str().unwrap(), "{:?} {:?}", base, child);
        }
    }
}

#[test]
fn file_name_is_the_final_component() {
    assert_eq!(file_name_of("a/b.txt"), "b.txt");
    assert_eq!(file_name_of("foo"), "foo");
    assert_eq!(file_name_of("./foo"), "foo");
    assert_eq!(file_name_of("a/.hidden"), ".hidden");
    assert_eq!(file_name_of("/usr/lib/x86_64.tar.zst"), "x86_64.tar.zst");
}

#[test]
fn file_name_ignores_trailing_separators_and_dots() {
    assert_eq!(file_name_of("a/b/"), "b");
    assert_eq!(file_name_of("a/b//"), "b");
    assert_eq!(file_name_of("a/b/."), "b");
    assert_eq!(file_name_of("a/b/./"), "b");
    assert_eq!(file_name_of("a/b/.//."), "b");
}

#[test]
fn file_name_is_empty_without_a_component() {
    assert_eq!(file_name_of(""), "");
    assert_eq!(file_name_of("/"), "");
    assert_eq!(file_name_of("."), "");
    assert_eq!(file_name_of("./"), "");
    assert_eq!(file_name_of(".."), "");
    assert_eq!(file_name_of("a/.."), "");
    assert_eq!(file_name_of("a/../"), "");
}

#[test]
fn file_name_agrees_with_the_standard_library() {
    let paths = [
        "", "/", ".", "..", "a", "a/", "a/b", "a/b/", "a//b//", "a/.", "a/./", "a/..", "a/../",
        "/a", "/a/.", "./a", "../a", ".a", "a.", "a..", "..a", "a/..b", "a/b.codon", "...",
        "a/...", "a/. /", "é/ü.py", "/./", "//", "a/./.", ".//.",
    ];
    for path in paths {
        let expected = Path::new(path)
            .file_name()
            .map(|s| s.to_string_lossy().to_string())
            .unwrap_or_default();
        assert_eq!(file_name_of(path), expected, "{:?}", path);
    }
}

#[test]
fn source_extensions_are_stripped() {
    assert_eq!(strip_source_extension("prog.codon"), "prog");
    assert_eq!(strip_source_extension("dir/prog.codon"), "dir/prog");
    assert_eq!(strip_source_extension("/abs/dir/prog.py"), "/abs/dir/prog");
    assert_eq!(strip_source_extension("prog.seq"), "prog");
    assert_eq!(strip_source_extension("a.tar.codon"), "a.tar");
    assert_eq!(strip_source_extension("a/b.codon/"), "a/b");
}

#[test]
fn other_names_are_left_alone() {
    assert_eq!(strip_source_extension("prog.txt"), "prog.txt");
    assert_eq!(strip_source_extension("prog"), "prog");
    assert_eq!(strip_source_extension("prog."), "prog.");
    assert_eq!(strip_source_extension("prog.CODON"), "prog.CODON");
    assert_eq!(strip_source_extension("prog.codon.txt"), "prog.codon.txt");
    assert_eq!(strip_source_extension(".codon"), ".codon");
    assert_eq!(strip_source_extension("dir/.py"), "dir/.py");
    assert_eq!(strip_source_extension("dir.codon/prog"), "dir.codon/prog");
    assert_eq!(strip_source_extension("codon"), "codon");
    assert_eq!(strip_source_extension(""), "");
    assert_eq!(strip_source_extension("a/.."), "a/..");
}

fn std_output_path(source: &str) -> String {
    let mut path = PathBuf::from(source);
    if let Some(ext) = path.extension() {
        if ext == "codon" || ext == "py" || ext == "seq" {
            path.set_extension("");
        }
    }
    path.to_str().unwrap().to_string()
}

#[test]
fn stripping_agrees_with_the_standard_library() {
    let paths = [
        "", "/", ".", "..", "a", "a.codon", "a.py", "a.seq", "a.txt", "a/b.codon", "a/b.codon/",
        "a/b.codon/.", "a.codon/b", ".codon", "..codon", "a..codon", "a.codon.", "a.py.codon",
        "/x/y.z/w.seq", "a/.py", "é/ü.py", "a.codon//", "a.pyc", "a.seqx", "x/.seq/", "a.b.c.py",
    ];
    for path in paths {
        assert_eq!(strip_source_extension(path), std_output_path(path), "{:?}", path);
    }
}

/// A small deterministic generator of paths over an alphabet that makes separators, dots
/// and source extensions likely.
struct Paths {
    state: u64,
}

impl Paths {
    fn next_number(&mut self) -> u64 {
        self.state = self.state.wrapping_mul(6364136223846793005).wrapping_add(1442695040888963407);
        self.state >> 33
    }

    fn next_path(&mut self) -> String {
        let pieces = ["/", "/", ".", ".", "a", "b", "codon", "py", "seq", "x", "..", "é"];
        let len = self.next_number() % 7;
        (0..len).map(|_| pieces[(self.next_number() % pieces.len() as u64) as usize]).collect()
    }
}

#[test]
fn path_functions_agree_with_the_standard_library_on_generated_paths() {
    let mut paths = Paths { state: 0x5eed };
    for _ in 0..20_000 {
        let path = paths.next_path();
        let child = paths.next_path();
        let name = Path::new(&path)
            .file_name()
            .map(|s| s.to_string_lossy().to_string())
            .unwrap_or_default();
        assert_eq!(file_name_of(&path), name, "{:?}", path);
        assert_eq!(strip_source_extension(&path), std_output_path(&path), "{:?}", path);
        let joined = Path::new(&path).join(&child);
        assert_eq!(join(&path, &child), joined.to_str().unwrap(), "{:?} {:?}", path, child);
    }
}
