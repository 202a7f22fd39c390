use vstd::prelude::*;

use crate::json::{Json, JsonView};
use crate::tools::{planned_call, ToolBox};

verus! {

/// A function that a model may call: its name, what it does, and the JSON schema of its
/// arguments.
#[derive(Debug)]
pub struct FunctionDeclaration {
    pub name: String,
    pub description: String,
    pub parameters: Json,
}

/// The functions offered to a model.
#[derive(Debug)]
pub struct Tool {
    pub function_declarations: Vec<FunctionDeclaration>,
}

/// The mathematical form of a declaration: name, description and parameter schema.
pub open spec fn declaration_view(d: FunctionDeclaration) -> (Seq<char>, Seq<char>, JsonView) {
    (d.name@, d.description@, d.parameters@)
}

/// The schema of one parameter of this JSON type.
pub open spec fn typed_parameter(kind: Seq<char>, description: Seq<char>) -> JsonView {
    JsonView::Object(
        seq![("type"@, JsonView::Str(kind)), ("description"@, JsonView::Str(description))],
    )
}

/// The schema of an object with these properties, of which the named ones are required.
pub open spec fn object_schema(properties: Seq<(Seq<char>, JsonView)>, required: Seq<JsonView>) -> JsonView {
    JsonView::Object(
        seq![
            ("type"@, JsonView::Str("object"@)),
            ("properties"@, JsonView::Object(properties)),
            ("required"@, JsonView::Array(required)),
        ],
    )
}

/// The arguments of the tools that read lines of a file: its path and an optional range.
pub open spec fn file_range_schema() -> JsonView {
    object_schema(
        seq![
            ("path"@, typed_parameter("string"@, "Relative path to the file."@)),
            ("start_line"@, typed_parameter("integer"@, "1-based start line (optional)."@)),
            ("end_line"@, typed_parameter("integer"@, "1-based end line (optional)."@)),
        ],
        seq![JsonView::Str("path"@)],
    )
}

/// The arguments of `git_diff`: a list of strings.
pub open spec fn diff_schema() -> JsonView {
    object_schema(
        seq![
            (
                "args"@,
                JsonView::Object(
                    seq![
                        ("type"@, JsonView::Str("array"@)),
                        ("items"@, JsonView::Object(seq![("type"@, JsonView::Str("string"@))])),
                        (
                            "description"@,
                            JsonView::Str("Arguments for git diff (e.g., ['HEAD^', 'HEAD'])."@),
                        ),
                    ],
                ),
            ),
        ],
        seq![JsonView::Str("args"@)],
    )
}

/// The tools offered, in order: name, description and parameter schema of each.
pub open spec fn declared_tools() -> Seq<(Seq<char>, Seq<char>, JsonView)> {
    seq![
        (
            "read_file"@,
            "Read the content of a file (with optional line range)."@,
            file_range_schema(),
        ),
        (
            "git_blame"@,
            "Show what revision and author last modified each line of a file."@,
            file_range_schema(),
        ),
        ("git_diff"@, "Show changes between commits, commit and working tree, etc."@, diff_schema()),
        (
            "git_show"@,
            "Show various types of objects (blobs, trees, tags and commits)."@,
            object_schema(
                seq![
                    (
                        "object"@,
                        typed_parameter(
                            "string"@,
                            "The object to show (e.g. 'HEAD:README.md')."@,
                        ),
                    ),
                ],
                seq![JsonView::Str("object"@)],
            ),
        ),
        (
            "list_dir"@,
            "List files in a directory."@,
            object_schema(
                seq![("path"@, typed_parameter("string"@, "Directory path."@))],
                seq![JsonView::Str("path"@)],
            ),
        ),
        (
            "read_prompt"@,
            "Read a specific prompt documentation file."@,
            object_schema(
                seq![
                    (
                        "name"@,
                        typed_parameter(
                            "string"@,
                            "Name of the prompt file (e.g., 'core/identity.md')."@,
                        ),
                    ),
                ],
                seq![JsonView::Str("name"@)],
            ),
        ),
    ]
}

fn typed(kind: &str, description: &str) -> (j: Json)
    ensures
        j@ == typed_parameter(kind@, description@),
{
    let j = Json::empty_object().with_member("type", Json::text(kind)).with_member(
        "description",
        Json::text(description),
    );
    assert(j@->Object_0 =~= typed_parameter(kind@, description@)->Object_0);
    j
}

fn schema(properties: Json, required: &str) -> (j: Json)
    requires
        properties@ is Object,
    ensures
        j@ == object_schema(properties@->Object_0, seq![JsonView::Str(required@)]),
{
    let required_list = Json::empty_array().with_item(Json::text(required));
    let j = Json::empty_object().with_member("type", Json::text("object")).with_member(
        "properties",
        properties,
    ).with_member("required", required_list);
    assert(required_list@->Array_0 =~= seq![JsonView::Str(required@)]);
    assert(j@->Object_0 =~= object_schema(
        properties@->Object_0,
        seq![JsonView::Str(required@)],
    )->Object_0);
    j
}

fn file_range() -> (j: Json)
    ensures
        j@ == file_range_schema(),
{
    let properties = Json::empty_object().with_member(
        "path",
        typed("string", "Relative path to the file."),
    ).with_member("start_line", typed("integer", "1-based start line (optional).")).with_member(
        "end_line",
        typed("integer", "1-based end line (optional)."),
    );
    assert(properties@->Object_0 =~= file_range_schema()->Object_0[1].1->Object_0);
    schema(properties, "path")
}

fn declaration(name: &str, description: &str, parameters: Json) -> (d: FunctionDeclaration)
    ensures
        declaration_view(d) == (name@, description@, parameters@),
{
    FunctionDeclaration {
        name: String::from_str(name),
        description: String::from_str(description),
        parameters,
    }
}

impl ToolBox {
    /// The declarations of the six tools, with the JSON schema of the arguments of each.
    pub fn get_declarations(&self) -> (tool: Tool)
        ensures
            tool.function_declarations@.map_values(|d: FunctionDeclaration| declaration_view(d))
                == declared_tools(),
    {
        let mut declarations: Vec<FunctionDeclaration> = Vec::new();
        declarations.push(
            declaration(
                "read_file",
                "Read the content of a file (with optional line range).",
                file_range(),
            ),
        );
        declarations.push(
            declaration(
                "git_blame",
                "Show what revision and author last modified each line of a file.",
                file_range(),
            ),
        );
        let diff_items = Json::empty_object().with_member("type", Json::text("string"));
        let diff_argument = Json::empty_object().with_member(
            "type",
            Json::text("array"),
        ).with_member("items", diff_items).with_member(
            "description",
            Json::text("Arguments for git diff (e.g., ['HEAD^', 'HEAD'])."),
        );
        let diff_properties = Json::empty_object().with_member("args", diff_argument);
        assert(diff_items@->Object_0 =~= seq![("type"@, JsonView::Str("string"@))]);
        assert(diff_argument@->Object_0 =~= diff_schema()->Object_0[1].1->Object_0[0].1->Object_0);
        assert(diff_properties@->Object_0 =~= diff_schema()->Object_0[1].1->Object_0);
        let diff = schema(diff_properties, "args");
        assert(diff@ == diff_schema());
        declarations.push(
            declaration(
                "git_diff",
                "Show changes between commits, commit and working tree, etc.",
                diff,
            ),
        );
        let show_properties = Json::empty_object().with_member(
            "object",
            typed("string", "The object to show (e.g. 'HEAD:README.md')."),
        );
        assert(show_properties@->Object_0 =~= declared_tools()[3].2->Object_0[1].1->Object_0);
        let show = schema(show_properties, "object");
        assert(show@ == declared_tools()[3].2);
        declarations.push(
            declaration(
                "git_show",
                "Show various types of objects (blobs, trees, tags and commits).",
                show,
            ),
        );
        let list_properties = Json::empty_object().with_member(
            "path",
            typed("string", "Directory path."),
        );
        assert(list_properties@->Object_0 =~= declared_tools()[4].2->Object_0[1].1->Object_0);
        let list = schema(list_properties, "path");
        assert(list@ == declared_tools()[4].2);
        declarations.push(declaration("list_dir", "List files in a directory.", list));
        let prompt_properties = Json::empty_object().with_member(
            "name",
            typed("string", "Name of the prompt file (e.g., 'core/identity.md')."),
        );
        assert(prompt_properties@->Object_0 =~= declared_tools()[5].2->Object_0[1].1->Object_0);
        let prompt = schema(prompt_properties, "name");
        assert(prompt@ == declared_tools()[5].2);
        declarations.push(
            declaration("read_prompt", "Read a specific prompt documentation file.", prompt),
        );
        assert(declarations@.map_values(|d: FunctionDeclaration| declaration_view(d))
            =~= declared_tools());
        Tool { function_declarations: declarations }
    }
}

} // verus!

verus! {

/// The tools that can be called are exactly the tools declared: a declared name is never
/// refused as unknown, and a name that no declaration carries always is.
pub proof fn declared_tools_are_the_callable_ones(
    worktree: Seq<char>,
    prompts: Seq<char>,
    name: Seq<char>,
    args: JsonView,
)
    ensures
        (exists|i: int| 0 <= i < declared_tools().len() && #[trigger] declared_tools()[i].0 == name)
            <==> !(planned_call(worktree, prompts, name, args) is Err && planned_call(
            worktree,
            prompts,
            name,
            args,
        )->Err_0 is UnknownTool),
{
    let tools = declared_tools();
    assert(tools[0].0 == "read_file"@);
    assert(tools[1].0 == "git_blame"@);
    assert(tools[2].0 == "git_diff"@);
    assert(tools[3].0 == "git_show"@);
    assert(tools[4].0 == "list_dir"@);
    assert(tools[5].0 == "read_prompt"@);
}

} // verus!

verus! {

/// A value of the JSON type a schema names: an empty string, the integer 1, an empty array
/// or an empty object; `null` for any other name.
pub open spec fn sample_of_type(kind: Option<Seq<char>>) -> JsonView {
    match kind {
        Some(k) => if k == "string"@ {
            JsonView::Str(Seq::empty())
        } else if k == "integer"@ {
            JsonView::Number(crate::json::JsonNumber::PosInt(1))
        } else if k == "array"@ {
            JsonView::Array(Seq::empty())
        } else if k == "object"@ {
            JsonView::Object(Seq::empty())
        } else {
            JsonView::Null
        },
        None => JsonView::Null,
    }
}

/// Arguments that give every property of an object schema a value of the type the schema
/// declares for it.
pub open spec fn sample_arguments(schema: JsonView) -> JsonView {
    match schema.get("properties"@) {
        JsonView::Object(properties) => JsonView::Object(
            properties.map_values(
                |m: (Seq<char>, JsonView)| (m.0, sample_of_type(m.1.get("type"@).as_str())),
            ),
        ),
        _ => JsonView::Object(Seq::empty()),
    }
}

proof fn lemma_distinct_words()
    ensures
        "string"@ != "integer"@,
        "string"@ != "array"@,
        "integer"@ != "array"@,
        "array"@ != "string"@,
        "type"@ != "properties"@,
        "read_file"@ != "git_blame"@,
        "read_file"@ != "git_diff"@,
        "read_file"@ != "git_show"@,
        "read_file"@ != "list_dir"@,
        "read_file"@ != "read_prompt"@,
        "git_blame"@ != "git_diff"@,
        "git_blame"@ != "git_show"@,
        "git_blame"@ != "list_dir"@,
        "git_blame"@ != "read_prompt"@,
        "git_diff"@ != "git_show"@,
        "git_diff"@ != "list_dir"@,
        "git_diff"@ != "read_prompt"@,
        "git_show"@ != "list_dir"@,
        "git_show"@ != "read_prompt"@,
        "list_dir"@ != "read_prompt"@,
{
    reveal_strlit("string");
    reveal_strlit("integer");
    reveal_strlit("array");
    reveal_strlit("type");
    reveal_strlit("properties");
    reveal_strlit("read_file");
    reveal_strlit("git_blame");
    reveal_strlit("git_diff");
    reveal_strlit("git_show");
    reveal_strlit("list_dir");
    reveal_strlit("read_prompt");
    assert("string"@.len() == 6);
    assert("integer"@.len() == 7);
    assert("array"@.len() == 5);
    assert("type"@.len() == 4);
    assert("properties"@.len() == 10);
    assert("read_file"@.len() == 9);
    assert("git_blame"@.len() == 9);
    assert("git_diff"@.len() == 8);
    assert("git_show"@.len() == 8);
    assert("list_dir"@.len() == 8);
    assert("read_prompt"@.len() == 11);
    assert("read_file"@[0] != "git_blame"@[0]);
    assert("git_diff"@[4] != "git_show"@[4]);
    assert("git_diff"@[0] != "list_dir"@[0]);
    assert("git_show"@[0] != "list_dir"@[0]);
}

/// Each tool accepts the arguments its declaration describes: called with a value of the
/// declared type for every declared property, no tool is refused as unknown or for a missing
/// or mistyped argument (it may still refuse a path).
pub proof fn declared_schemas_match_what_call_reads(
    worktree: Seq<char>,
    prompts: Seq<char>,
    i: int,
)
    requires
        0 <= i < declared_tools().len(),
    ensures
        ({
            let tool = declared_tools()[i];
            let planned = planned_call(worktree, prompts, tool.0, sample_arguments(tool.2));
            !(planned is Err && (planned->Err_0 is MissingArgument || planned->Err_0 is UnknownTool))
        }),
{
    lemma_distinct_words();
    reveal_with_fuel(crate::json::member, 3);
    let tool = declared_tools()[i];
    let args = sample_arguments(tool.2);
    let properties = tool.2.get("properties"@)->Object_0;
    assert(tool.2.get("properties"@) is Object);
    assert(properties.len() > 0);
    assert(args->Object_0[0] == (
        properties[0].0,
        sample_of_type(properties[0].1.get("type"@).as_str()),
    ));
    assert(args.get(properties[0].0) == sample_of_type(properties[0].1.get("type"@).as_str()));
}

} // verus!
