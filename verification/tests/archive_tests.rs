use jre_bootstrap::archive::{
    check_files, expected_file_checks, extract_plan, plan_entry, ArchiveError, ExtractAction,
    FileCheck, ZipEntry,
};

fn build_zip(entries: &[(&str, Option<&[u8]>)]) -> Vec<u8> {
    let mut w = zip::ZipWriter::new(std::io::Cursor::new(Vec::new()));
    let options = zip::write::SimpleFileOptions::default();
    for (name, data) in entries {
        match data {
            Some(d) => {
                w.start_file(*name, options).unwrap();
                std::io::Write::write_all(&mut w, d).unwrap();
            }
            None => {
                w.add_directory(*name, options).unwrap();
            }
        }
    }
    w.finish().unwrap().into_inner()
}

fn action_path(a: &ExtractAction) -> Vec<String> {
    match a {
        ExtractAction::MakeDir { path } => path.clone(),
        ExtractAction::WriteFile { path, .. } => path.clone(),
    }
}

#[test]
fn extraction_strips_top_level_segment() {
    let bytes = build_zip(&[
        ("root/bin/", None),
        ("root/bin/java", Some(b"#!runtime".as_slice())),
        ("root/lib/data.txt", Some(b"payload".as_slice())),
    ]);
    let plan = extract_plan(&bytes).unwrap();
    assert_eq!(plan.len(), 3);
    for action in &plan {
        let path = action_path(action);
        // the common `root` segment is gone, and never reappears on top
        assert!(path.first().map(|p| p.as_str()) != Some("root"));
    }
    match &plan[0] {
        ExtractAction::MakeDir { path } => assert_eq!(path, &vec!["bin".to_string()]),
        _ => panic!("a directory entry must become a directory"),
    }
    match &plan[1] {
        ExtractAction::WriteFile { path, data, .. } => {
            assert_eq!(path, &vec!["bin".to_string(), "java".to_string()]);
            assert_eq!(data.as_slice(), b"#!runtime");
        }
        _ => panic!("a file entry must become a write"),
    }
    match &plan[2] {
        ExtractAction::WriteFile { path, data, .. } => {
            assert_eq!(path, &vec!["lib".to_string(), "data.txt".to_string()]);
            assert_eq!(data.as_slice(), b"payload");
        }
        _ => panic!("a file entry must become a write"),
    }
}

#[test]
fn file_with_nothing_below_top_level_is_invalid_layout() {
    let bytes = build_zip(&[("toplevel.txt", Some(b"x".as_slice()))]);
    assert!(matches!(extract_plan(&bytes), Err(ArchiveError::InvalidArchiveLayout)));
}

#[test]
fn bare_top_level_directory_is_invalid_layout() {
    // a directory entry with nothing below the stripped segment is just as
    // invalid as a bare file entry
    let bytes = build_zip(&[("root/", None), ("root/bin/java", Some(b"x".as_slice()))]);
    assert!(matches!(extract_plan(&bytes), Err(ArchiveError::InvalidArchiveLayout)));
    let e = ZipEntry {
        name: "jre8/".to_string(),
        crc32: 0,
        unix_mode: None,
        data: Vec::new(),
    };
    assert!(matches!(plan_entry(e), Err(ArchiveError::InvalidArchiveLayout)));
}

#[test]
fn climbing_path_is_invalid_layout() {
    let e = ZipEntry {
        name: "root/../escape.txt".to_string(),
        crc32: 0,
        unix_mode: None,
        data: b"x".to_vec(),
    };
    assert!(matches!(plan_entry(e), Err(ArchiveError::InvalidArchiveLayout)));
}

#[test]
fn plan_entry_keeps_mode_and_bytes() {
    let e = ZipEntry {
        name: "jre/bin/java".to_string(),
        crc32: 7,
        unix_mode: Some(0o755),
        data: b"elf".to_vec(),
    };
    match plan_entry(e) {
        Ok(ExtractAction::WriteFile { path, data, unix_mode }) => {
            assert_eq!(path, vec!["bin".to_string(), "java".to_string()]);
            assert_eq!(data, b"elf".to_vec());
            assert_eq!(unix_mode, Some(0o755));
        }
        other => panic!("expected a write, got {:?}", other.is_ok()),
    }
}

#[test]
fn garbage_bytes_are_a_bad_archive() {
    let bytes = b"this is not an archive".to_vec();
    assert!(matches!(extract_plan(&bytes), Err(ArchiveError::BadArchive)));
    assert!(matches!(expected_file_checks(&bytes), Err(ArchiveError::BadArchive)));
}

#[test]
fn tree_check_accepts_faithful_extraction() {
    let java = b"#!runtime".as_slice();
    let data = b"payload".as_slice();
    let bytes = build_zip(&[
        ("root/bin/java", Some(java)),
        ("root/lib/data.txt", Some(data)),
    ]);
    let checks = expected_file_checks(&bytes).unwrap();
    assert_eq!(checks.len(), 2);
    assert_eq!(checks[0].path, vec!["bin".to_string(), "java".to_string()]);
    assert_eq!(checks[0].crc32, crc32fast::hash(java));
    assert_eq!(checks[1].path, vec!["lib".to_string(), "data.txt".to_string()]);

    // the files exactly as a faithful extraction wrote them
    let contents = vec![Some(java.to_vec()), Some(data.to_vec())];
    assert!(check_files(&checks, &contents).is_empty());
}

#[test]
fn repair_restores_an_accepted_tree() {
    // One file's content altered on disk: the check rejects the tree; after
    // the repair (delete the tree, re-extract the still-present archive)
    // the check accepts it again.
    let java = b"#!runtime".as_slice();
    let data = b"payload".as_slice();
    let bytes = build_zip(&[
        ("root/bin/java", Some(java)),
        ("root/lib/data.txt", Some(data)),
    ]);
    let checks = expected_file_checks(&bytes).unwrap();

    let corrupted = vec![Some(java.to_vec()), Some(b"tampered".to_vec())];
    let mismatches = check_files(&checks, &corrupted);
    // exactly the altered file is identified by its relative path
    assert_eq!(mismatches, vec![vec!["lib".to_string(), "data.txt".to_string()]]);

    // repair: re-extract from the same archive and read the tree back
    let plan = extract_plan(&bytes).unwrap();
    let mut restored: Vec<Option<Vec<u8>>> = Vec::new();
    for check in &checks {
        let mut found = None;
        for action in &plan {
            if let ExtractAction::WriteFile { path, data, .. } = action {
                if path == &check.path {
                    found = Some(data.clone());
                }
            }
        }
        restored.push(found);
    }
    assert!(check_files(&checks, &restored).is_empty());
}

#[test]
fn missing_file_fails_the_tree() {
    let java = b"#!runtime".as_slice();
    let bytes = build_zip(&[("root/bin/java", Some(java))]);
    let checks = expected_file_checks(&bytes).unwrap();
    let contents: Vec<Option<Vec<u8>>> = vec![None];
    assert_eq!(
        check_files(&checks, &contents),
        vec![vec!["bin".to_string(), "java".to_string()]]
    );
}

#[test]
fn directories_are_not_checked() {
    let bytes = build_zip(&[("root/", None), ("root/bin/", None)]);
    let checks = expected_file_checks(&bytes).unwrap();
    assert!(checks.is_empty());
    let contents: Vec<Option<Vec<u8>>> = Vec::new();
    assert!(check_files(&checks, &contents).is_empty());
}

#[test]
fn missing_content_is_a_mismatch() {
    let checks = vec![FileCheck { path: vec!["a".to_string()], crc32: 0 }];
    let contents: Vec<Option<Vec<u8>>> = Vec::new();
    assert_eq!(check_files(&checks, &contents), vec![vec!["a".to_string()]]);
}

#[test]
fn known_crc_value_is_respected() {
    // the classic CRC-32 check value
    let checks = vec![FileCheck { path: vec!["f".to_string()], crc32: 0xCBF43926 }];
    let contents = vec![Some(b"123456789".to_vec())];
    assert!(check_files(&checks, &contents).is_empty());

    let wrong = vec![FileCheck { path: vec!["f".to_string()], crc32: 0xCBF43927 }];
    assert_eq!(check_files(&wrong, &contents), vec![vec!["f".to_string()]]);
}
