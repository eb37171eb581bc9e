//! [Create a Tree](https://docs.github.com/en/rest/git/trees?apiVersion=2022-11-28#create-a-tree)
//!
//! The entirety of GitHub's trees API uses snake case.

use vstd::prelude::*;

use crate::json::{Json, JsonText, optional_text, render};
use crate::json_laws::law_text_determines_value;
use crate::json_lookup::{has_members, is_array, member_at, says};
use crate::text::{digits, octal_mode, octal_mode_text};

verus! {

#[derive(Debug)]
pub struct CreateATree {
    pub base_tree: String,
    pub tree: Vec<TreeNode>,
}

/// The file modes that git knows for the entries of a tree.
#[derive(Debug, Clone, Copy, PartialEq, Eq, Structural)]
pub enum GitFileMode {
    Unreadable,
    Tree,
    Blob,
    /// Obsolete mode kept for compatibility reasons
    BlobGroupWritable,
    BlobExecutable,
    Link,
    Commit,
}

#[derive(Debug)]
pub struct FileMode {
    pub file_mode: GitFileMode,
}

#[derive(Debug, Clone, Copy, PartialEq, Eq, Structural)]
pub enum NodeType {
    Blob,
    Commit,
    Tree,
}

/// Either the content of a file or the object that holds it. No object at all stands for the
/// removal of the file.
#[derive(Debug)]
pub enum ShaOrContent {
    Content(String),
    Sha(Option<String>),
}

#[derive(Debug)]
pub struct TreeNode {
    pub path: String,
    pub mode: FileMode,
    pub node_type: NodeType,
    pub sha_or_content: ShaOrContent,
}

/// The number of a file mode.
pub open spec fn raw_mode(mode: GitFileMode) -> u32 {
    match mode {
        GitFileMode::Unreadable => 0,
        GitFileMode::Tree => 0o040000,
        GitFileMode::Blob => 0o100644,
        GitFileMode::BlobGroupWritable => 0o100664,
        GitFileMode::BlobExecutable => 0o100755,
        GitFileMode::Link => 0o120000,
        GitFileMode::Commit => 0o160000,
    }
}

/// `u32::from` on a `git2::FileMode`: the number that libgit2 has for the mode.
#[verifier::external_body]
fn git2_raw_mode(mode: GitFileMode) -> (raw: u32)
    ensures
        raw == raw_mode(mode),
{
    u32::from(match mode {
        GitFileMode::Unreadable => git2::FileMode::Unreadable,
        GitFileMode::Tree => git2::FileMode::Tree,
        GitFileMode::Blob => git2::FileMode::Blob,
        GitFileMode::BlobGroupWritable => git2::FileMode::BlobGroupWritable,
        GitFileMode::BlobExecutable => git2::FileMode::BlobExecutable,
        GitFileMode::Link => git2::FileMode::Link,
        GitFileMode::Commit => git2::FileMode::Commit,
    })
}

impl FileMode {
    /// A file mode is a string of six octal digits.
    pub open spec fn json(&self) -> Json {
        Json::Text(octal_mode(raw_mode(self.file_mode) as nat))
    }

    /// The file mode as JSON.
    pub fn to_json(&self) -> (json: JsonText)
        ensures
            json@ == self.json(),
    {
        let text = octal_mode_text(git2_raw_mode(self.file_mode));
        JsonText::string(text.as_str())
    }
}

impl NodeType {
    /// The name of the type in lower case.
    pub open spec fn name(&self) -> Seq<char> {
        match self {
            NodeType::Blob => "blob"@,
            NodeType::Commit => "commit"@,
            NodeType::Tree => "tree"@,
        }
    }

    /// A node type is its name.
    pub open spec fn json(&self) -> Json {
        Json::Text(self.name())
    }

    /// The node type as JSON.
    pub fn to_json(&self) -> (json: JsonText)
        ensures
            json@ == self.json(),
    {
        match self {
            NodeType::Blob => JsonText::string("blob"),
            NodeType::Commit => JsonText::string("commit"),
            NodeType::Tree => JsonText::string("tree"),
        }
    }
}

impl ShaOrContent {
    /// The one member that stands for it in a tree node: `sha` or `content`.
    pub open spec fn member(&self) -> (Seq<char>, Json) {
        match self {
            ShaOrContent::Sha(sha) => ("sha"@, optional_text(*sha)),
            ShaOrContent::Content(content) => ("content"@, Json::Text(content@)),
        }
    }
}

impl TreeNode {
    /// An object with path, mode and type, and one of `sha` and `content`.
    pub open spec fn json(&self) -> Json {
        Json::Object(
            seq![
                ("path"@, Json::Text(self.path@)),
                ("mode"@, self.mode.json()),
                ("type"@, self.node_type.json()),
                self.sha_or_content.member(),
            ],
        )
    }

    /// The tree node as JSON.
    pub fn to_json(&self) -> (json: JsonText)
        ensures
            json@ == self.json(),
    {
        let (name, value) = match &self.sha_or_content {
            ShaOrContent::Sha(sha) => ("sha", JsonText::optional_string(sha)),
            ShaOrContent::Content(content) => ("content", JsonText::string(content.as_str())),
        };
        let members = vec![
            ("path", JsonText::string(self.path.as_str())),
            ("mode", self.mode.to_json()),
            ("type", self.node_type.to_json()),
            (name, value),
        ];
        let json = JsonText::object(members);
        assert(json@->Object_0 =~= self.json()->Object_0);
        json
    }
}

impl CreateATree {
    /// An object with the base tree and the nodes in their order.
    pub open spec fn json(&self) -> Json {
        Json::Object(
            seq![
                ("base_tree"@, Json::Text(self.base_tree@)),
                ("tree"@, Json::Array(self.tree@.map_values(|node: TreeNode| node.json()))),
            ],
        )
    }

    /// The request's body as JSON.
    pub fn to_json(&self) -> (json: JsonText)
        ensures
            json@ == self.json(),
    {
        let mut nodes: Vec<JsonText> = Vec::new();
        let mut i: usize = 0;
        while i < self.tree.len()
            invariant
                i <= self.tree.len(),
                nodes.len() == i,
                forall|j: int| 0 <= j < i ==> (#[trigger] nodes@[j])@ == self.tree@[j].json(),
            decreases self.tree.len() - i,
        {
            nodes.push(self.tree[i].to_json());
            i = i + 1;
        }
        let ghost values = nodes@.map_values(|item: JsonText| item@);
        assert(values =~= self.tree@.map_values(|node: TreeNode| node.json()));
        let members = vec![
            ("base_tree", JsonText::string(self.base_tree.as_str())),
            ("tree", JsonText::array(nodes)),
        ];
        let json = JsonText::object(members);
        assert(json@->Object_0 =~= self.json()->Object_0);
        json
    }
}

/// Whether a JSON value is an object with a member of the given name.
pub open spec fn has_member(value: Json, name: Seq<char>) -> bool {
    value matches Json::Object(members) && exists|i: int|
        0 <= i < members.len() && (#[trigger] members[i]).0 == name
}

/// A tree node has one and only one of the members `sha` and `content`: `sha` if it names an
/// object or the lack of one, `content` if it brings the content along.
pub proof fn law_one_of_sha_and_content(node: TreeNode)
    ensures
        has_member(node.json(), "sha"@) <==> node.sha_or_content is Sha,
        has_member(node.json(), "content"@) <==> node.sha_or_content is Content,
        has_member(node.json(), "sha"@) != has_member(node.json(), "content"@),
{
    reveal_strlit("path");
    reveal_strlit("mode");
    reveal_strlit("type");
    reveal_strlit("sha");
    reveal_strlit("content");
    assert("path"@[0] == 'p');
    assert("mode"@[0] == 'm');
    assert("type"@[0] == 't');
    assert("sha"@[0] == 's');
    assert("content"@[0] == 'c');
    let members = node.json()->Object_0;
    assert(members[3] == node.sha_or_content.member());
}

/// A file mode is written with exactly six octal digits.
pub proof fn law_file_mode_has_six_octal_digits(mode: GitFileMode)
    ensures
        octal_mode(raw_mode(mode) as nat).len() == 6,
        forall|i: int|
            0 <= i < 6 ==> '0' <= #[trigger] octal_mode(raw_mode(mode) as nat)[i] <= '7',
{
    reveal_with_fuel(digits, 7);
}

/// Different file modes are written differently.
pub proof fn law_file_mode_text_determines_mode(a: FileMode, b: FileMode)
    ensures
        a.json() == b.json() ==> a.file_mode == b.file_mode,
{
    reveal_with_fuel(digits, 7);
    let x = octal_mode(raw_mode(a.file_mode) as nat);
    let y = octal_mode(raw_mode(b.file_mode) as nat);
    if a.json() == b.json() {
        assert(x == y);
        assert(x[0] == y[0] && x[1] == y[1] && x[3] == y[3] && x[4] == y[4] && x[5] == y[5]);
    }
}

/// Different node types are written differently.
pub proof fn law_node_type_text_determines_type(a: NodeType, b: NodeType)
    ensures
        a.json() == b.json() ==> a == b,
{
    reveal_strlit("blob");
    reveal_strlit("commit");
    reveal_strlit("tree");
    assert("blob"@[0] == 'b');
    assert("commit"@[0] == 'c');
    assert("tree"@[0] == 't');
}

/// Whether two tree nodes say the same: the same path, mode and type, and the same object or
/// content.
pub open spec fn same_node(a: TreeNode, b: TreeNode) -> bool {
    &&& a.path@ == b.path@
    &&& a.mode.file_mode == b.mode.file_mode
    &&& a.node_type == b.node_type
    &&& match (a.sha_or_content, b.sha_or_content) {
        (ShaOrContent::Sha(Some(x)), ShaOrContent::Sha(Some(y))) => x@ == y@,
        (ShaOrContent::Sha(None), ShaOrContent::Sha(None)) => true,
        (ShaOrContent::Content(x), ShaOrContent::Content(y)) => x@ == y@,
        _ => false,
    }
}

/// Tree nodes with the same JSON value say the same.
proof fn lemma_json_determines_node(a: TreeNode, b: TreeNode)
    requires
        a.json() == b.json(),
    ensures
        same_node(a, b),
{
    let x = a.json()->Object_0;
    let y = b.json()->Object_0;
    assert(x[0] == y[0] && x[1] == y[1] && x[2] == y[2] && x[3] == y[3]);
    law_file_mode_text_determines_mode(a.mode, b.mode);
    law_node_type_text_determines_type(a.node_type, b.node_type);
    reveal_strlit("sha");
    reveal_strlit("content");
    assert("sha"@.len() != "content"@.len());
}

/// The text of a tree node determines the node.
pub proof fn law_tree_node_text_determines_node(a: TreeNode, b: TreeNode)
    requires
        render(a.json()) == render(b.json()),
    ensures
        same_node(a, b),
{
    law_text_determines_value(a.json(), b.json());
    lemma_json_determines_node(a, b);
}

/// The text of a request for a tree determines the request: the base tree, and the nodes in
/// their order.
pub proof fn law_tree_text_determines_tree(a: CreateATree, b: CreateATree)
    requires
        render(a.json()) == render(b.json()),
    ensures
        a.base_tree@ == b.base_tree@,
        a.tree@.len() == b.tree@.len(),
        forall|i: int| 0 <= i < a.tree@.len() ==> #[trigger] same_node(a.tree@[i], b.tree@[i]),
{
    law_text_determines_value(a.json(), b.json());
    let x = a.json()->Object_0;
    let y = b.json()->Object_0;
    assert(x[0] == y[0] && x[1] == y[1]);
    let nodes_a = a.tree@.map_values(|node: TreeNode| node.json());
    let nodes_b = b.tree@.map_values(|node: TreeNode| node.json());
    assert(x[1].1 == Json::Array(nodes_a));
    assert(y[1].1 == Json::Array(nodes_b));
    assert(nodes_a.len() == nodes_b.len());
    assert forall|i: int| 0 <= i < a.tree@.len() implies #[trigger] same_node(
        a.tree@[i],
        b.tree@[i],
    ) by {
        assert(nodes_a[i] == a.tree@[i].json());
        assert(nodes_b[i] == b.tree@[i].json());
        lemma_json_determines_node(a.tree@[i], b.tree@[i]);
    }
}

/// How git shows a file mode.
pub open spec fn shown_by_git(mode: GitFileMode) -> Seq<char> {
    match mode {
        GitFileMode::Unreadable => "000000"@,
        GitFileMode::Tree => "040000"@,
        GitFileMode::Blob => "100644"@,
        GitFileMode::BlobGroupWritable => "100664"@,
        GitFileMode::BlobExecutable => "100755"@,
        GitFileMode::Link => "120000"@,
        GitFileMode::Commit => "160000"@,
    }
}

/// A file mode is written as git shows it.
pub proof fn law_file_mode_is_written_as_in_git(mode: FileMode)
    ensures
        mode.json() == Json::Text(shown_by_git(mode.file_mode)),
{
    reveal_with_fuel(digits, 7);
    reveal_strlit("000000");
    reveal_strlit("040000");
    reveal_strlit("100644");
    reveal_strlit("100664");
    reveal_strlit("100755");
    reveal_strlit("120000");
    reveal_strlit("160000");
    assert(octal_mode(raw_mode(mode.file_mode) as nat) =~= shown_by_git(mode.file_mode));
}

/// Whether an object stands for a tree node: `path`, `mode` and `type` are those of the node, and
/// its fourth and last member is its object under `sha`, `null` where it has none, or its content
/// under `content`.
pub open spec fn describes_node(value: Json, node: TreeNode) -> bool {
    &&& says(value, "path"@, Json::Text(node.path@))
    &&& says(value, "mode"@, Json::Text(shown_by_git(node.mode.file_mode)))
    &&& says(
        value,
        "type"@,
        Json::Text(
            match node.node_type {
                NodeType::Blob => "blob"@,
                NodeType::Commit => "commit"@,
                NodeType::Tree => "tree"@,
            },
        ),
    )
    &&& match node.sha_or_content {
        ShaOrContent::Sha(Some(sha)) => says(value, "sha"@, Json::Text(sha@)),
        ShaOrContent::Sha(None) => says(value, "sha"@, Json::Null),
        ShaOrContent::Content(content) => says(value, "content"@, Json::Text(content@)),
    }
    &&& has_members(value, 4)
}

/// A tree node is described under the names that GitHub knows it by, whatever it is.
pub proof fn law_tree_node_is_described(node: TreeNode)
    ensures
        describes_node(node.json(), node),
{
    reveal_strlit("path");
    reveal_strlit("mode");
    reveal_strlit("type");
    reveal_strlit("sha");
    reveal_strlit("content");
    assert("path"@[0] == 'p');
    assert("mode"@[0] == 'm');
    assert("type"@[0] == 't');
    assert("sha"@[0] == 's');
    assert("content"@[0] == 'c');
    law_file_mode_is_written_as_in_git(node.mode);
    let members = node.json()->Object_0;
    let (name, value) = node.sha_or_content.member();
    assert(member_at(members, 0, "path"@, Json::Text(node.path@)));
    assert(member_at(members, 1, "mode"@, Json::Text(shown_by_git(node.mode.file_mode))));
    assert(member_at(members, 2, "type"@, node.node_type.json()));
    assert(member_at(members, 3, name, value));
}

/// A request for a tree names the tree that it starts from under `base_tree`, and describes every
/// node, in their order, under `tree`.
pub proof fn law_tree_is_described(request: CreateATree)
    ensures
        says(request.json(), "base_tree"@, Json::Text(request.base_tree@)),
        exists|nodes: Json| #[trigger]
            says(request.json(), "tree"@, nodes) && is_array(nodes, request.tree@.len()) && (
            forall|i: int|
                0 <= i < request.tree@.len() ==> describes_node(
                    #[trigger] nodes->Array_0[i],
                    request.tree@[i],
                )),
        has_members(request.json(), 2),
{
    reveal_strlit("base_tree");
    reveal_strlit("tree");
    assert("base_tree"@.len() != "tree"@.len());
    let members = request.json()->Object_0;
    let nodes = members[1].1;
    assert(member_at(members, 0, "base_tree"@, Json::Text(request.base_tree@)));
    assert(member_at(members, 1, "tree"@, nodes));
    assert(says(request.json(), "tree"@, nodes));
    assert forall|i: int| 0 <= i < request.tree@.len() implies describes_node(
        #[trigger] nodes->Array_0[i],
        request.tree@[i],
    ) by {
        law_tree_node_is_described(request.tree@[i]);
    }
}

} // verus!
