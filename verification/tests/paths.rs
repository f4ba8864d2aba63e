use cbmp_rs::paths::{discovery_pattern, parent_directory, relative_path, resolve};

#[test]
fn resolve_flattens_by_default() {
    assert_eq!(resolve("src", "out", "x.svg", false), "out/x.png");
    assert_eq!(resolve("src", "out", "sub/x.svg", false), "out/x.png");
    assert_eq!(resolve("src", "out", "a/b/c/x.svg", false), "out/x.png");
}

#[test]
fn resolve_flattened_name_holds_no_separator() {
    for relative in ["x.svg", "a/x.svg", "a/b/x.svg", "../x.svg", "a//x.svg"] {
        let path = resolve("src", "out", relative, false);
        assert_eq!(path, "out/x.png");
        let name = &path["out/".len()..];
        assert!(!name.contains('/'));
    }
}

#[test]
fn resolve_preserves_subdirectories() {
    assert_eq!(resolve("src", "out", "x.svg", true), "out/x.png");
    assert_eq!(resolve("src", "out", "sub/x.svg", true), "out/sub/x.png");
    assert_eq!(resolve("src", "out", "a/b/c/x.svg", true), "out/a/b/c/x.png");
}

#[test]
fn resolve_ignores_the_source_root() {
    assert_eq!(resolve("anything", "out", "a/x.svg", true), resolve("", "out", "a/x.svg", true));
    assert_eq!(resolve("anything", "out", "a/x.svg", false), resolve("", "out", "a/x.svg", false));
}

#[test]
fn resolve_flattened_names_collide() {
    assert_eq!(resolve("src", "out", "a/x.svg", false), resolve("src", "out", "b/x.svg", false));
    assert_ne!(resolve("src", "out", "a/x.svg", true), resolve("src", "out", "b/x.svg", true));
}

#[test]
fn resolve_keeps_parent_segments() {
    assert_eq!(resolve("src", "out", "../x.svg", true), "out/../x.png");
    assert_eq!(resolve("src", "out/..", "a/x.svg", true), "out/../a/x.png");
}

#[test]
fn resolve_replaces_only_the_last_extension() {
    assert_eq!(resolve("src", "out", "x.tar.svg", false), "out/x.tar.png");
    assert_eq!(resolve("src", "out", "x", false), "out/x.png");
    assert_eq!(resolve("src", "out", "x.", false), "out/x.png");
    assert_eq!(resolve("src", "out", ".svg", false), "out/.svg.png");
    assert_eq!(resolve("src", "out", ".hidden.svg", false), "out/.hidden.png");
    assert_eq!(resolve("src", "out", "a.b/x", true), "out/a.b/x.png");
}

#[test]
fn resolve_joins_like_a_path() {
    assert_eq!(resolve("src", "out/", "x.svg", false), "out/x.png");
    assert_eq!(resolve("src", "", "x.svg", false), "x.png");
    assert_eq!(resolve("src", "", "a/x.svg", true), "a/x.png");
    assert_eq!(resolve("src", "./b", "x.svg", false), "./b/x.png");
    assert_eq!(resolve("src", "/", "x.svg", false), "/x.png");
    assert_eq!(resolve("src", "out", "/abs/x.svg", true), "/abs/x.png");
    assert_eq!(resolve("src", "out", "/abs/x.svg", false), "out/x.png");
}

#[test]
fn resolve_agrees_with_the_standard_library() {
    let roots = ["out", "out/", "", "./b", "/", "/var/out", "a/b"];
    let relatives = ["x.svg", "sub/x.svg", "a/b/x.svg", "x.tar.svg", "x", ".hidden.svg", "../x.svg", "/abs/x.svg"];
    for root in roots {
        for relative in relatives {
            let kept = std::path::Path::new(root).join(relative).with_extension("png");
            assert_eq!(resolve("src", root, relative, true), kept.to_str().unwrap());
            let name = std::path::Path::new(relative).file_name().unwrap();
            let flat = std::path::Path::new(root).join(name).with_extension("png");
            assert_eq!(resolve("src", root, relative, false), flat.to_str().unwrap());
        }
    }
}

#[test]
fn relative_path_strips_the_source_directory() {
    assert_eq!(relative_path("src", "src/x.svg"), "x.svg");
    assert_eq!(relative_path("src", "src/a/b/x.svg"), "a/b/x.svg");
    assert_eq!(relative_path("src/", "src/a/x.svg"), "a/x.svg");
    assert_eq!(relative_path("src", "src//a/x.svg"), "a/x.svg");
    assert_eq!(relative_path("/abs/src", "/abs/src/x.svg"), "x.svg");
    assert_eq!(relative_path("src", "src"), "");
}

#[test]
fn relative_path_keeps_what_lies_elsewhere() {
    assert_eq!(relative_path("src", "other/x.svg"), "other/x.svg");
    assert_eq!(relative_path("src", "srcx/x.svg"), "srcx/x.svg");
    assert_eq!(relative_path("", "a/x.svg"), "a/x.svg");
    assert_eq!(relative_path("a/long/root", "a"), "a");
}

#[test]
fn parent_directory_is_all_before_the_name() {
    assert_eq!(parent_directory("out/sub/x.png"), "out/sub/");
    assert_eq!(parent_directory("out/x.png"), "out/");
    assert_eq!(parent_directory("x.png"), "");
    assert_eq!(parent_directory("/x.png"), "/");
    assert_eq!(parent_directory(""), "");
}

#[test]
fn discovery_pattern_searches_the_whole_tree() {
    assert_eq!(discovery_pattern("icons"), "icons/**/*.svg");
    assert_eq!(discovery_pattern("icons/"), "icons/**/*.svg");
    assert_eq!(discovery_pattern("./a"), "./a/**/*.svg");
    assert_eq!(discovery_pattern(""), "**/*.svg");
    assert_eq!(
        discovery_pattern("icons"),
        std::path::Path::new("icons").join("**/*.svg").to_str().unwrap()
    );
}

#[test]
fn relative_path_takes_a_leading_dot_for_here() {
    assert_eq!(relative_path("./a", "a/x.svg"), "x.svg");
    assert_eq!(relative_path("./a", "a/s/x.svg"), "s/x.svg");
    assert_eq!(relative_path("./a", "./a/s/x.svg"), "s/x.svg");
    assert_eq!(relative_path("a", "./a/s/x.svg"), "s/x.svg");
    assert_eq!(relative_path("././a", "a/x.svg"), "x.svg");
    assert_eq!(relative_path(".//a/", "a/x.svg"), "x.svg");
    assert_eq!(relative_path(".", "x.svg"), "x.svg");
    assert_eq!(relative_path(".", "./s/x.svg"), "s/x.svg");
    assert_eq!(relative_path("./", "s/x.svg"), "s/x.svg");
    assert_eq!(relative_path("src", "./other/x.svg"), "other/x.svg");
}

#[test]
fn relative_path_keeps_dots_that_say_more() {
    assert_eq!(relative_path("../a", "../a/x.svg"), "x.svg");
    assert_eq!(relative_path("../a", "a/x.svg"), "a/x.svg");
    assert_eq!(relative_path(".a", "a/x.svg"), "a/x.svg");
    assert_eq!(relative_path(".a", ".a/x.svg"), "x.svg");
    assert_eq!(relative_path("a", ".hidden/x.svg"), ".hidden/x.svg");
    assert_eq!(relative_path("a", "a/./x.svg"), "./x.svg");
    assert_eq!(relative_path("/a", "./a/x.svg"), "a/x.svg");
}

#[test]
fn preserved_result_below_a_dotted_directory() {
    let relative = relative_path("./a", "a/s/x.svg");
    assert_eq!(resolve("./a", "./b", &relative, true), "./b/s/x.png");
    assert_eq!(resolve("./a", "./b", &relative, false), "./b/x.png");
}
