use cargo_permissions::ast::Node;
use cargo_permissions::ast::UseTree;
use cargo_permissions::render;
use cargo_permissions::scan;
use cargo_permissions::Permissions;

fn flags(
    unsafe_permission: bool,
    fs: bool,
    net: bool,
    io: bool,
    process: bool,
    thread: bool,
) -> Permissions {
    Permissions {
        unsafe_permission,
        fs_permission: fs,
        net_permission: net,
        io_permission: io,
        process_permission: process,
        thread_permission: thread,
    }
}

fn std_call(second: &str, rest: &[&str]) -> Node {
    let mut callee = vec!["std".to_string(), second.to_string()];
    for seg in rest {
        callee.push(seg.to_string());
    }
    Node::Call {
        callee,
        children: vec![],
    }
}

#[test]
fn fresh_record_is_all_false() {
    let record = Permissions::default();
    assert_eq!(record, flags(false, false, false, false, false, false));
}

#[test]
fn fs_call_sets_only_filesystem() {
    let mut record = Permissions::default();
    scan(&std_call("fs", &["read"]), &mut record);
    assert_eq!(record, flags(false, true, false, false, false, false));
}

#[test]
fn deeper_call_qualification_is_ignored() {
    let mut record = Permissions::default();
    scan(&std_call("net", &["TcpStream", "connect"]), &mut record);
    assert_eq!(record, flags(false, false, true, false, false, false));
}

#[test]
fn use_net_plain_name_sets_network() {
    let mut record = Permissions::default();
    let tree = Node::UseDecl {
        tree: UseTree::Path {
            ident: "std".to_string(),
            tree: Box::new(UseTree::Name {
                ident: "net".to_string(),
            }),
        },
    };
    scan(&tree, &mut record);
    assert_eq!(record, flags(false, false, true, false, false, false));
}

#[test]
fn use_net_further_qualified_sets_network() {
    let mut record = Permissions::default();
    let tree = Node::UseDecl {
        tree: UseTree::Path {
            ident: "std".to_string(),
            tree: Box::new(UseTree::Path {
                ident: "net".to_string(),
                tree: Box::new(UseTree::Name {
                    ident: "TcpStream".to_string(),
                }),
            }),
        },
    };
    scan(&tree, &mut record);
    assert_eq!(record, flags(false, false, true, false, false, false));
}

#[test]
fn non_std_root_sets_nothing() {
    let mut record = Permissions::default();
    let call = Node::Call {
        callee: vec![
            "mycrate".to_string(),
            "fs".to_string(),
            "read".to_string(),
        ],
        children: vec![],
    };
    scan(&call, &mut record);
    assert_eq!(record, flags(false, false, false, false, false, false));
}

#[test]
fn unrecognized_second_segment_sets_nothing() {
    let mut record = Permissions::default();
    scan(&std_call("collections", &["HashMap", "new"]), &mut record);
    assert_eq!(record, flags(false, false, false, false, false, false));
}

#[test]
fn flags_stay_true_across_later_files() {
    let mut record = Permissions::default();
    scan(&std_call("fs", &["read"]), &mut record);
    assert!(record.fs_permission);
    scan(&Node::Other { children: vec![] }, &mut record);
    scan(&std_call("other", &["thing"]), &mut record);
    assert!(record.fs_permission);
    assert_eq!(record, flags(false, true, false, false, false, false));
}

#[test]
fn same_file_into_two_fresh_records_is_deterministic() {
    let tree = Node::Other {
        children: vec![
            std_call("io", &["stdin"]),
            Node::UseDecl {
                tree: UseTree::Path {
                    ident: "std".to_string(),
                    tree: Box::new(UseTree::Name {
                        ident: "thread".to_string(),
                    }),
                },
            },
        ],
    };
    let mut first = Permissions::default();
    let mut second = Permissions::default();
    scan(&tree, &mut first);
    scan(&tree, &mut second);
    assert_eq!(first, second);
}

#[test]
fn scanning_the_same_file_twice_adds_nothing() {
    let tree = std_call("process", &["spawn"]);
    let mut once = Permissions::default();
    scan(&tree, &mut once);
    let mut twice = Permissions::default();
    scan(&tree, &mut twice);
    scan(&tree, &mut twice);
    assert_eq!(once, twice);
}

#[test]
fn grouped_import_members_are_each_matched() {
    let mut record = Permissions::default();
    let tree = Node::UseDecl {
        tree: UseTree::Path {
            ident: "std".to_string(),
            tree: Box::new(UseTree::Group {
                items: vec![
                    UseTree::Name {
                        ident: "fs".to_string(),
                    },
                    UseTree::Path {
                        ident: "net".to_string(),
                        tree: Box::new(UseTree::Name {
                            ident: "TcpStream".to_string(),
                        }),
                    },
                ],
            }),
        },
    };
    scan(&tree, &mut record);
    assert_eq!(record, flags(false, true, true, false, false, false));
}

#[test]
fn renamed_and_glob_imports_are_left_unmatched() {
    let mut record = Permissions::default();
    let renamed = Node::UseDecl {
        tree: UseTree::Path {
            ident: "std".to_string(),
            tree: Box::new(UseTree::Rename {
                ident: "fs".to_string(),
            }),
        },
    };
    let glob = Node::UseDecl {
        tree: UseTree::Path {
            ident: "std".to_string(),
            tree: Box::new(UseTree::Glob),
        },
    };
    scan(&renamed, &mut record);
    scan(&glob, &mut record);
    assert_eq!(record, flags(false, false, false, false, false, false));
}

#[test]
fn unsafe_block_sets_unsafe() {
    let mut record = Permissions::default();
    let tree = Node::UnsafeBlock { children: vec![] };
    scan(&tree, &mut record);
    assert_eq!(record, flags(true, false, false, false, false, false));
}

#[test]
fn nested_call_is_found_at_depth() {
    let mut record = Permissions::default();
    let tree = Node::Other {
        children: vec![Node::Call {
            callee: vec!["helper".to_string()],
            children: vec![Node::UnsafeBlock {
                children: vec![std_call("io", &["stdout"])],
            }],
        }],
    };
    scan(&tree, &mut record);
    assert_eq!(record, flags(true, false, false, true, false, false));
}

#[test]
fn check_recognizes_each_token() {
    let mut record = Permissions::default();
    record.check("fs");
    record.check("net");
    record.check("io");
    record.check("process");
    record.check("thread");
    assert_eq!(record, flags(false, true, true, true, true, true));
}

#[test]
fn check_ignores_unknown_tokens() {
    let mut record = Permissions::default();
    record.check("collections");
    record.check("");
    record.check("Fs");
    assert_eq!(record, flags(false, false, false, false, false, false));
}

#[test]
fn report_of_fresh_record_is_all_false() {
    let record = Permissions::default();
    assert_eq!(
        render(&record),
        "unsafe: false\nfilesystem: false\nnetwork: false\nio: false\nprocess: false\nthread: false\n"
    );
}

#[test]
fn two_files_aggregate_into_one_report() {
    let file_a = Node::Other {
        children: vec![Node::UseDecl {
            tree: UseTree::Path {
                ident: "std".to_string(),
                tree: Box::new(UseTree::Name {
                    ident: "thread".to_string(),
                }),
            },
        }],
    };
    let file_b = Node::Other {
        children: vec![std_call("process", &["spawn"])],
    };
    let mut record = Permissions::default();
    scan(&file_a, &mut record);
    scan(&file_b, &mut record);
    assert_eq!(record, flags(false, false, false, false, true, true));
    assert_eq!(
        render(&record),
        "unsafe: false\nfilesystem: false\nnetwork: false\nio: false\nprocess: true\nthread: true\n"
    );
}

#[test]
fn report_prints_every_set_flag() {
    let record = flags(true, true, true, true, true, true);
    assert_eq!(
        render(&record),
        "unsafe: true\nfilesystem: true\nnetwork: true\nio: true\nprocess: true\nthread: true\n"
    );
}
