use chroma_build::args::{append_defs, assemble};
use chroma_build::config::Bin;

#[test]
fn append_defs_formats_flags_and_keeps_existing() {
    let mut args = vec!["keep".to_string()];
    let defs = vec![
        ("NAME".to_string(), "1".to_string()),
        ("NAME_VERSION".to_string(), "\"1.0\"".to_string()),
    ];
    append_defs(&mut args, &defs);
    assert_eq!(args, vec!["keep", "-DNAME=1", "-DNAME_VERSION=\"1.0\""]);
}

#[test]
fn append_defs_empty_list_changes_nothing() {
    let mut args = vec!["a".to_string(), "b".to_string()];
    let defs: Vec<(String, String)> = Vec::new();
    append_defs(&mut args, &defs);
    assert_eq!(args, vec!["a", "b"]);
}

#[test]
fn assemble_orders_tokens() {
    let defs = vec![
        ("PKG".to_string(), "1".to_string()),
        ("PKG_MAJOR".to_string(), "3".to_string()),
    ];
    let target = Bin {
        name: "main".to_string(),
        path: "src/main.cpp".to_string(),
    };
    let args = assemble(&defs, "c++17", &target, "build");
    assert_eq!(
        args,
        vec![
            "-DPKG=1",
            "-DPKG_MAJOR=3",
            "-o",
            "build/main",
            "-std=c++17",
            "src/main.cpp",
        ]
    );
}

#[test]
fn assemble_length_and_last_token() {
    for n in 0..4usize {
        let defs: Vec<(String, String)> = (0..n)
            .map(|i| (format!("D{i}"), i.to_string()))
            .collect();
        let target = Bin {
            name: "app".to_string(),
            path: "src/app.cpp".to_string(),
        };
        let args = assemble(&defs, "c++20", &target, "out");
        assert_eq!(args.len(), defs.len() + 4);
        assert_eq!(args.last().unwrap(), "src/app.cpp");
    }
}

#[test]
fn assemble_no_defs() {
    let defs: Vec<(String, String)> = Vec::new();
    let target = Bin {
        name: "t".to_string(),
        path: "p.cpp".to_string(),
    };
    let args = assemble(&defs, "c++03", &target, "build");
    assert_eq!(args, vec!["-o", "build/t", "-std=c++03", "p.cpp"]);
}
