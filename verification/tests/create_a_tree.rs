use ghommit::github::rest_api::request::create_a_tree::{
    CreateATree, FileMode, GitFileMode, NodeType, ShaOrContent, TreeNode,
};
use serde_json::Value;

/// Serialized strings may not have the same order, so deserialize and
/// compare
fn assert_eq_deserialized(a: &str, b: &str) {
    let a_deserialized: Value = serde_json::from_str(&a).unwrap();
    let b_deserialized: Value = serde_json::from_str(&b).unwrap();

    assert_eq!(a_deserialized, b_deserialized)
}

fn quote(s: &str) -> String {
    format!("\"{}\"", s)
}

fn manual_file_mode_to_json_string(file_mode: &FileMode) -> String {
    let raw_octal = match file_mode.file_mode {
        GitFileMode::Blob => "100644",
        GitFileMode::BlobGroupWritable => "100664",
        GitFileMode::BlobExecutable => "100755",
        GitFileMode::Commit => "160000",
        GitFileMode::Link => "120000",
        GitFileMode::Tree => "040000",
        GitFileMode::Unreadable => "000000",
    };

    format!("\"{}\"", raw_octal)
}

fn manual_node_type_to_json_string(node_type: &NodeType) -> &'static str {
    match node_type {
        NodeType::Blob => "\"blob\"",
        NodeType::Commit => "\"commit\"",
        NodeType::Tree => "\"tree\"",
    }
}

/// Note: This is not all-encompassing as it only covers the two-character
/// escape sequences as outlined in
/// [the JSON spec](https://www.rfc-editor.org/rfc/rfc7159#section-7).
fn manual_str_to_json_string(s: &str) -> String {
    let s = s
        .replace("\\", "\\\\")
        .replace("\"", "\\\"")
        .replace("\u{0008}", "\\b")
        .replace("\u{000C}", "\\f")
        .replace("\n", "\\n")
        .replace("\r", "\\r")
        .replace("\t", "\\t");
    format!("\"{}\"", s)
}

fn manual_tree_node_to_json_string(
    path: &str,
    mode: &FileMode,
    node_type: &NodeType,
    sha_or_content: &ShaOrContent,
) -> String {
    let path_json_str = quote(path);
    let node_type_json_str = manual_node_type_to_json_string(&node_type);
    let mode_json_str = manual_file_mode_to_json_string(mode);

    let (sha_or_content_key, sha_or_content_value) = match sha_or_content {
        ShaOrContent::Content(content) => ("content", manual_str_to_json_string(content)),
        ShaOrContent::Sha(maybe_sha) => {
            let value = match maybe_sha {
                Some(sha) => manual_str_to_json_string(sha),
                None => "null".to_owned(),
            };

            ("sha", value)
        }
    };

    format!(
        "{{{}:{},{}:{},{}:{},{}:{}}}",
        quote("path"),
        path_json_str,
        quote("mode"),
        mode_json_str,
        quote("type"),
        node_type_json_str,
        quote(sha_or_content_key),
        sha_or_content_value
    )
}

#[test]
fn file_mode_serialization() {
    let git_file_modes = vec![
        GitFileMode::Blob,
        GitFileMode::BlobGroupWritable,
        GitFileMode::BlobExecutable,
        GitFileMode::Commit,
        GitFileMode::Link,
        GitFileMode::Tree,
        GitFileMode::Unreadable,
    ];

    for git_file_mode in git_file_modes {
        let file_mode = FileMode { file_mode: git_file_mode };

        let actual = file_mode.to_json().into_string();
        let expected = manual_file_mode_to_json_string(&file_mode);

        assert_eq!(actual, expected)
    }
}

#[test]
fn tree_node_serialization_with_content() {
    let path = "hello_world.txt";
    let mode = FileMode { file_mode: GitFileMode::Blob };
    let node_type = NodeType::Blob;
    let content = ShaOrContent::Content("hello world\n".to_owned());

    let expected = manual_tree_node_to_json_string(path, &mode, &node_type, &content);

    let tree_node = TreeNode {
        path: path.to_owned(),
        mode: mode,
        node_type: node_type,
        sha_or_content: content,
    };

    let actual = tree_node.to_json().into_string();

    assert_eq_deserialized(&actual, &expected)
}

#[test]
fn tree_node_serialization_with_sha() {
    let path = "hello_world.txt";
    let mode = FileMode { file_mode: GitFileMode::Blob };
    let node_type = NodeType::Blob;
    let sha = ShaOrContent::Sha(Some("0000000000000000000000000000000000000000".to_owned()));

    let expected = manual_tree_node_to_json_string(path, &mode, &node_type, &sha);

    let tree_node = TreeNode {
        path: path.to_owned(),
        mode: mode,
        node_type: node_type,
        sha_or_content: sha,
    };

    let actual = tree_node.to_json().into_string();

    assert_eq_deserialized(&actual, &expected)
}

#[test]
fn tree_node_serialization_with_no_sha() {
    let path = "hello_world.txt";
    let mode = FileMode { file_mode: GitFileMode::Unreadable };
    let node_type = NodeType::Blob;
    let sha = ShaOrContent::Sha(None);

    let expected = manual_tree_node_to_json_string(path, &mode, &node_type, &sha);

    let tree_node = TreeNode {
        path: path.to_owned(),
        mode: mode,
        node_type: node_type,
        sha_or_content: sha,
    };

    let actual = tree_node.to_json().into_string();

    assert_eq_deserialized(&actual, &expected)
}

#[test]
fn node_type_serialization() {
    let types = vec![NodeType::Blob, NodeType::Commit, NodeType::Tree];

    for type_ in types {
        // - Match so that if new variants are introduced, compilation will
        //   fail for not being exhaustive
        let expected = match type_ {
            NodeType::Blob => quote("blob"),
            NodeType::Commit => quote("commit"),
            NodeType::Tree => quote("tree"),
        };

        let actual = type_.to_json().into_string();

        assert_eq_deserialized(&actual, &expected)
    }
}

#[test]
fn create_a_tree_serialization_with_github_example_payload() {
    // From the docs: https://docs.github.com/en/rest/git/trees?apiVersion=2022-11-28#create-a-tree
    let expected = r#"{"base_tree":"9fb037999f264ba9a7fc6274d15fa3ae2ab98312","tree":[{"path":"file.rb","mode":"100644","type":"blob","sha":"44b4fc6d56897b048c772eb4087f854f46256132"}]}"#;

    let actual_payload = CreateATree {
        base_tree: "9fb037999f264ba9a7fc6274d15fa3ae2ab98312".to_owned(),
        tree: vec![TreeNode {
            path: "file.rb".to_owned(),
            mode: FileMode { file_mode: GitFileMode::Blob },
            node_type: NodeType::Blob,
            sha_or_content: ShaOrContent::Sha(Some(
                "44b4fc6d56897b048c772eb4087f854f46256132".to_owned(),
            )),
        }],
    };

    let actual = actual_payload.to_json().into_string();

    assert_eq_deserialized(&actual, expected)
}

#[test]
fn tree_members_keep_their_order() {
    let tree = CreateATree {
        base_tree: "base".to_owned(),
        tree: vec![
            TreeNode {
                path: "a \"b\"".to_owned(),
                mode: FileMode { file_mode: GitFileMode::BlobExecutable },
                node_type: NodeType::Blob,
                sha_or_content: ShaOrContent::Content("x\u{1f}\u{7f}\u{e9}".to_owned()),
            },
            TreeNode {
                path: "sub".to_owned(),
                mode: FileMode { file_mode: GitFileMode::Tree },
                node_type: NodeType::Tree,
                sha_or_content: ShaOrContent::Sha(None),
            },
        ],
    };

    assert_eq!(
        tree.to_json().into_string(),
        "{\"base_tree\":\"base\",\"tree\":[{\"path\":\"a \\\"b\\\"\",\"mode\":\"100755\",\"type\":\"blob\",\"content\":\"x\\u001f\u{7f}\u{e9}\"},{\"path\":\"sub\",\"mode\":\"040000\",\"type\":\"tree\",\"sha\":null}]}"
    );
}

#[test]
fn empty_tree() {
    let tree = CreateATree { base_tree: String::new(), tree: Vec::new() };

    assert_eq!(tree.to_json().into_string(), "{\"base_tree\":\"\",\"tree\":[]}");
}

#[test]
fn one_of_sha_and_content() {
    let node = |sha_or_content: ShaOrContent| TreeNode {
        path: "p".to_owned(),
        mode: FileMode { file_mode: GitFileMode::Link },
        node_type: NodeType::Commit,
        sha_or_content: sha_or_content,
    };
    let with_sha = node(ShaOrContent::Sha(Some("0a".to_owned()))).to_json().into_string();
    let with_content = node(ShaOrContent::Content("0a".to_owned())).to_json().into_string();
    let sha: Value = serde_json::from_str(&with_sha).unwrap();
    let content: Value = serde_json::from_str(&with_content).unwrap();

    assert!(sha.get("sha").is_some() && sha.get("content").is_none());
    assert!(content.get("content").is_some() && content.get("sha").is_none());
    assert_ne!(with_sha, with_content);
}

#[test]
fn order_of_the_nodes_matters() {
    let node = |path: &str| TreeNode {
        path: path.to_owned(),
        mode: FileMode { file_mode: GitFileMode::Blob },
        node_type: NodeType::Blob,
        sha_or_content: ShaOrContent::Sha(None),
    };
    let tree = |first: &str, second: &str| CreateATree {
        base_tree: "0".to_owned(),
        tree: vec![node(first), node(second)],
    };

    assert_ne!(tree("a", "b").to_json().into_string(), tree("b", "a").to_json().into_string());
}
