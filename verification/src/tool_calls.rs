//! How tool calls are shown: their names, what they work on, how long they
//! took, and the diffs of those that edit a file.

use vstd::prelude::*;

use crate::entry_view;
use crate::entry_view::DiffView;
use crate::line_diff;
use crate::state_types::DiffLine;
use crate::text;

verus! {

broadcast use vstd::string::group_string_axioms;

/// The text that a member of a JSON object holds, `None` if there is no such
/// text.
pub uninterp spec fn json_member(object: Seq<char>, name: Seq<char>) -> Option<Seq<char>>;

/// An element of a JSON list.
#[derive(Clone, Debug)]
pub enum JsonItem {
    /// A string.
    Text(String),
    /// Another value, as JSON text.
    Json(String),
}

/// What an element of a JSON list holds.
pub enum ItemView {
    Text(Seq<char>),
    Json(Seq<char>),
}

impl JsonItem {
    /// What the element holds.
    pub open spec fn view(&self) -> ItemView {
        match *self {
            JsonItem::Text(words) => ItemView::Text(words@),
            JsonItem::Json(object) => ItemView::Json(object@),
        }
    }
}

/// What some elements hold.
pub open spec fn item_views(v: Seq<JsonItem>) -> Seq<ItemView> {
    v.map_values(|item: JsonItem| item@)
}

/// The elements of a list that a member of a JSON object holds, none if there
/// is no such list.
pub uninterp spec fn json_items(object: Seq<char>, name: Seq<char>) -> Seq<ItemView>;

/// Reads a text out of a JSON object.
///
/// Trusted: `serde_json::from_str` into a `serde_json::Value`, and the string
/// that its `get` finds under the name. The result depends on the text and the
/// name alone.
#[verifier::external_body]
pub(crate) fn read_member(object: &str, name: &str) -> (r: Option<String>)
    ensures
        entry_view::option_view(r) == json_member(object@, name@),
{
    let value: serde_json::Value = serde_json::from_str(object).ok()?;
    value.get(name)?.as_str().map(str::to_owned)
}

/// Reads a list out of a JSON object.
///
/// Trusted: `serde_json::from_str` into a `serde_json::Value`, and the elements
/// of the array that its `get` finds under the name, strings as they are and
/// other values as the JSON text that `Value::to_string` writes. The result
/// depends on the text and the name alone.
#[verifier::external_body]
fn read_items(object: &str, name: &str) -> (r: Vec<JsonItem>)
    ensures
        item_views(r@) == json_items(object@, name@),
{
    let value: serde_json::Value = serde_json::from_str(object).unwrap_or_default();
    let items: Option<&Vec<serde_json::Value>> = value.get(name).and_then(|list| list.as_array());
    items.into_iter().flatten().map(|item| match item {
        serde_json::Value::String(words) => JsonItem::Text(words.clone()),
        other => JsonItem::Json(other.to_string()),
    }).collect()
}

/// What a tool does.
#[derive(Clone, Copy, Debug, PartialEq, Eq, Structural)]
pub enum ToolFamily {
    Read,
    Run,
    Search,
    Find,
    Edit,
    Write,
    Agent,
    Other,
}

/// What a tool does, by its name in lower case.
pub open spec fn family_of(name: Seq<char>) -> ToolFamily {
    if name == "read"@ || name == "read_file"@ || name == "read_files"@ {
        ToolFamily::Read
    } else if name == "bash"@ {
        ToolFamily::Run
    } else if name == "search"@ || name == "grep"@ || name == "grep_files"@ {
        ToolFamily::Search
    } else if name == "find"@ || name == "find_files"@ {
        ToolFamily::Find
    } else if name == "edit"@ {
        ToolFamily::Edit
    } else if name == "write"@ {
        ToolFamily::Write
    } else if name == "agent"@ {
        ToolFamily::Agent
    } else {
        ToolFamily::Other
    }
}

/// What a tool does, by its name in lower case.
pub fn tool_family(name: &str) -> (r: ToolFamily)
    ensures
        r == family_of(name@),
{
    if text::same_text(name, "read") || text::same_text(name, "read_file") || text::same_text(
        name,
        "read_files",
    ) {
        ToolFamily::Read
    } else if text::same_text(name, "bash") {
        ToolFamily::Run
    } else if text::same_text(name, "search") || text::same_text(name, "grep") || text::same_text(
        name,
        "grep_files",
    ) {
        ToolFamily::Search
    } else if text::same_text(name, "find") || text::same_text(name, "find_files") {
        ToolFamily::Find
    } else if text::same_text(name, "edit") {
        ToolFamily::Edit
    } else if text::same_text(name, "write") {
        ToolFamily::Write
    } else if text::same_text(name, "agent") {
        ToolFamily::Agent
    } else {
        ToolFamily::Other
    }
}

/// The heading of a tool call.
pub open spec fn label_of(family: ToolFamily, name: Seq<char>) -> Seq<char> {
    match family {
        ToolFamily::Read => "Read"@,
        ToolFamily::Run => "Run"@,
        ToolFamily::Search => "Search"@,
        ToolFamily::Find => "Find"@,
        ToolFamily::Edit => "Edit"@,
        ToolFamily::Write => "Write"@,
        ToolFamily::Agent => "Agent"@,
        ToolFamily::Other => name,
    }
}

/// The heading of a tool call.
pub fn tool_label(family: ToolFamily, name: &str) -> (r: String)
    ensures
        r@ == label_of(family, name@),
{
    match family {
        ToolFamily::Read => "Read".to_owned(),
        ToolFamily::Run => "Run".to_owned(),
        ToolFamily::Search => "Search".to_owned(),
        ToolFamily::Find => "Find".to_owned(),
        ToolFamily::Edit => "Edit".to_owned(),
        ToolFamily::Write => "Write".to_owned(),
        ToolFamily::Agent => "Agent".to_owned(),
        ToolFamily::Other => name.to_owned(),
    }
}

/// The tool keeps the client informed and is not shown.
pub open spec fn hidden(name: Seq<char>) -> bool {
    ||| name == "update_plan"@
    ||| name == "get_subagent_result"@
    ||| name == "get_command_or_subagent_output"@
}

/// Whether the tool keeps the client informed and is not shown.
pub fn is_hidden(name: &str) -> (r: bool)
    ensures
        r == hidden(name@),
{
    text::same_text(name, "update_plan") || text::same_text(name, "get_subagent_result")
        || text::same_text(name, "get_command_or_subagent_output")
}

/// The first of two texts that is there, or nothing.
pub open spec fn first_of(a: Option<Seq<char>>, b: Option<Seq<char>>) -> Option<Seq<char>> {
    match a {
        Some(s) => Some(s),
        None => b,
    }
}

/// The words of a text that may be missing.
pub open spec fn or_nothing(o: Option<Seq<char>>) -> Seq<char> {
    match o {
        Some(s) => s,
        None => Seq::<char>::empty(),
    }
}

/// The words of an element: those of a string, or the JSON text.
pub open spec fn item_words(item: ItemView) -> Seq<char> {
    match item {
        ItemView::Text(words) => words,
        ItemView::Json(object) => object,
    }
}

/// The text that a member of an element holds. A string has no members.
pub open spec fn item_member(item: ItemView, name: Seq<char>) -> Option<Seq<char>> {
    match item {
        ItemView::Text(_) => None,
        ItemView::Json(object) => json_member(object, name),
    }
}

/// One of several queries.
#[derive(Clone, Debug)]
pub struct QueryArgs {
    pub pattern: Option<String>,
    pub path: Option<String>,
}

/// What a query holds.
pub struct QueryView {
    pub pattern: Option<Seq<char>>,
    pub path: Option<Seq<char>>,
}

impl QueryArgs {
    /// What the query holds.
    pub open spec fn view(&self) -> QueryView {
        QueryView {
            pattern: entry_view::option_view(self.pattern),
            path: entry_view::option_view(self.path),
        }
    }
}

/// What some queries hold.
pub open spec fn query_views(v: Seq<QueryArgs>) -> Seq<QueryView> {
    v.map_values(|query: QueryArgs| query@)
}

/// What the arguments of a tool call say.
#[derive(Clone, Debug)]
pub struct CallArgs {
    pub path: Option<String>,
    pub file_path: Option<String>,
    pub command: Option<String>,
    pub query: Option<String>,
    pub pattern: Option<String>,
    pub description: Option<String>,
    pub paths: Vec<String>,
    pub queries: Vec<QueryArgs>,
}

/// What the arguments of a tool call say.
pub struct CallView {
    pub path: Option<Seq<char>>,
    pub file_path: Option<Seq<char>>,
    pub command: Option<Seq<char>>,
    pub query: Option<Seq<char>>,
    pub pattern: Option<Seq<char>>,
    pub description: Option<Seq<char>>,
    pub paths: Seq<Seq<char>>,
    pub queries: Seq<QueryView>,
}

impl CallArgs {
    /// What the arguments say.
    pub open spec fn view(&self) -> CallView {
        CallView {
            path: entry_view::option_view(self.path),
            file_path: entry_view::option_view(self.file_path),
            command: entry_view::option_view(self.command),
            query: entry_view::option_view(self.query),
            pattern: entry_view::option_view(self.pattern),
            description: entry_view::option_view(self.description),
            paths: text::views(self.paths@),
            queries: query_views(self.queries@),
        }
    }
}

/// What an element says of a query.
pub open spec fn query_of(item: ItemView) -> QueryView {
    QueryView { pattern: item_member(item, "pattern"@), path: item_member(item, "path"@) }
}

/// What the arguments of a tool call say, read as JSON.
pub open spec fn args_of(args: Seq<char>) -> CallView {
    CallView {
        path: json_member(args, "path"@),
        file_path: json_member(args, "file_path"@),
        command: json_member(args, "command"@),
        query: json_member(args, "query"@),
        pattern: json_member(args, "pattern"@),
        description: json_member(args, "description"@),
        paths: json_items(args, "paths"@).map_values(|item: ItemView| item_words(item)),
        queries: json_items(args, "queries"@).map_values(|item: ItemView| query_of(item)),
    }
}

/// The file that a tool works on: its path under one of two names.
pub open spec fn chosen_path(path: Option<Seq<char>>, file_path: Option<Seq<char>>) -> Seq<char> {
    or_nothing(first_of(path, file_path))
}

/// The file that a tool works on.
pub open spec fn path_of(args: Seq<char>) -> Seq<char> {
    chosen_path(json_member(args, "path"@), json_member(args, "file_path"@))
}

/// Many things in one line: how many there are, and the first of them.
pub open spec fn summary(
    items: Seq<Seq<char>>,
    unit: Seq<char>,
    separator: Seq<char>,
    limit: int,
) -> Seq<char> {
    if items.len() == 1 {
        items[0]
    } else if items.len() <= limit {
        text::decimal(items.len()) + unit + text::join(items, separator)
    } else {
        text::decimal(items.len()) + unit + text::join(items.take(limit), separator) + separator
            + "…"@
    }
}

/// A pattern in quotes, and where it is looked for.
pub open spec fn query_text(pattern: Seq<char>, place: Seq<char>) -> Seq<char> {
    let quoted = "\""@ + pattern + "\""@;
    if place.len() == 0 || place == "."@ {
        quoted
    } else {
        quoted + " in "@ + place
    }
}

/// One of several queries in words.
pub open spec fn query_words_of(query: QueryView, placed: bool) -> Seq<char> {
    query_text(
        or_nothing(query.pattern),
        if placed {
            or_nothing(query.path)
        } else {
            Seq::<char>::empty()
        },
    )
}

/// What a tool call works on, by what its arguments say.
pub open spec fn detail(family: ToolFamily, args: CallView) -> Seq<char> {
    let file = chosen_path(args.path, args.file_path);
    match family {
        ToolFamily::Read => if args.paths.len() > 0 {
            summary(args.paths, " files · "@, ", "@, 3)
        } else {
            file
        },
        ToolFamily::Run => or_nothing(args.command),
        ToolFamily::Search => if args.queries.len() > 0 {
            summary(
                args.queries.map_values(|query: QueryView| query_words_of(query, true)),
                " queries · "@,
                "; "@,
                2,
            )
        } else {
            query_text(or_nothing(first_of(args.query, args.pattern)), or_nothing(args.path))
        },
        ToolFamily::Find => if args.queries.len() > 0 {
            summary(
                args.queries.map_values(|query: QueryView| query_words_of(query, false)),
                " patterns · "@,
                "; "@,
                2,
            )
        } else {
            query_text(or_nothing(args.pattern), file)
        },
        ToolFamily::Edit => file,
        ToolFamily::Write => file,
        ToolFamily::Agent => or_nothing(args.description),
        ToolFamily::Other => or_nothing(
            first_of(args.description, first_of(args.command, Some(file))),
        ),
    }
}

/// What a tool call works on.
pub open spec fn detail_of(family: ToolFamily, args: Seq<char>) -> Seq<char> {
    detail(family, args_of(args))
}

fn either(a: &Option<String>, b: &Option<String>) -> (r: Option<String>)
    ensures
        entry_view::option_view(r) == first_of(
            entry_view::option_view(*a),
            entry_view::option_view(*b),
        ),
{
    match a {
        Some(s) => Some(s.clone()),
        None => text::copy_option(b),
    }
}

fn words_or_nothing(o: Option<String>) -> (r: String)
    ensures
        r@ == or_nothing(entry_view::option_view(o)),
{
    match o {
        Some(s) => s,
        None => {
            let none: String = String::new();
            assert(none@ =~= Seq::<char>::empty());
            none
        },
    }
}

fn pick_path(path: &Option<String>, file_path: &Option<String>) -> (r: String)
    ensures
        r@ == chosen_path(entry_view::option_view(*path), entry_view::option_view(*file_path)),
{
    words_or_nothing(either(path, file_path))
}

fn in_one_line(items: &Vec<String>, unit: &str, separator: &str, limit: usize) -> (r: String)
    requires
        limit > 0,
    ensures
        r@ == summary(text::views(items@), unit@, separator@, limit as int),
{
    let ghost all = text::views(items@);
    let count: usize = items.len();
    if count == 1 {
        return items[0].clone();
    }
    let mut line: String = text::decimal_text(count as u64);
    line.append(unit);
    if count <= limit {
        line.append(text::join_texts(items, separator).as_str());
        return line;
    }
    let mut shown: Vec<String> = Vec::new();
    let mut i: usize = 0;
    while i < limit
        invariant
            i <= limit < items@.len(),
            shown@ == items@.take(i as int),
        decreases limit - i,
    {
        shown.push(items[i].clone());
        i += 1;
        assert(shown@ =~= items@.take(i as int));
    }
    assert(text::views(shown@) =~= all.take(limit as int));
    line.append(text::join_texts(&shown, separator).as_str());
    line.append(separator);
    line.append("…");
    line
}

fn query_words(pattern: &str, place: &str) -> (r: String)
    ensures
        r@ == query_text(pattern@, place@),
{
    let quoted: String = text::joined3("\"", pattern, "\"");
    if place.is_empty() || text::same_text(place, ".") {
        quoted
    } else {
        text::joined3(quoted.as_str(), " in ", place)
    }
}

fn write_query(query: &QueryArgs, placed: bool) -> (r: String)
    ensures
        r@ == query_words_of(query@, placed),
{
    let pattern: String = words_or_nothing(text::copy_option(&query.pattern));
    let place: String = if placed {
        words_or_nothing(text::copy_option(&query.path))
    } else {
        words_or_nothing(None)
    };
    query_words(pattern.as_str(), place.as_str())
}

fn write_queries(queries: &Vec<QueryArgs>, placed: bool) -> (r: Vec<String>)
    ensures
        text::views(r@) == query_views(queries@).map_values(
            |query: QueryView| query_words_of(query, placed),
        ),
{
    let mut out: Vec<String> = Vec::new();
    let mut i: usize = 0;
    while i < queries.len()
        invariant
            i <= queries@.len(),
            out@.len() == i,
            forall|k: int| 0 <= k < i ==> (#[trigger] out@[k])@ == query_words_of(
                queries@[k]@,
                placed,
            ),
        decreases queries@.len() - i,
    {
        out.push(write_query(&queries[i], placed));
        i += 1;
    }
    assert(text::views(out@) =~= query_views(queries@).map_values(
        |query: QueryView| query_words_of(query, placed),
    ));
    out
}

/// What a tool call works on, by what its arguments say.
pub fn describe_call(family: ToolFamily, args: &CallArgs) -> (r: String)
    ensures
        r@ == detail(family, args@),
{
    assert(args@.paths.len() == args.paths@.len());
    assert(args@.queries.len() == args.queries@.len());
    match family {
        ToolFamily::Read => if args.paths.len() > 0 {
            in_one_line(&args.paths, " files · ", ", ", 3)
        } else {
            pick_path(&args.path, &args.file_path)
        },
        ToolFamily::Run => words_or_nothing(text::copy_option(&args.command)),
        ToolFamily::Search => if args.queries.len() > 0 {
            in_one_line(&write_queries(&args.queries, true), " queries · ", "; ", 2)
        } else {
            let pattern: String = words_or_nothing(either(&args.query, &args.pattern));
            let place: String = words_or_nothing(text::copy_option(&args.path));
            query_words(pattern.as_str(), place.as_str())
        },
        ToolFamily::Find => if args.queries.len() > 0 {
            in_one_line(&write_queries(&args.queries, false), " patterns · ", "; ", 2)
        } else {
            let pattern: String = words_or_nothing(text::copy_option(&args.pattern));
            query_words(pattern.as_str(), pick_path(&args.path, &args.file_path).as_str())
        },
        ToolFamily::Edit => pick_path(&args.path, &args.file_path),
        ToolFamily::Write => pick_path(&args.path, &args.file_path),
        ToolFamily::Agent => words_or_nothing(text::copy_option(&args.description)),
        ToolFamily::Other => match either(&args.description, &args.command) {
            Some(s) => s,
            None => pick_path(&args.path, &args.file_path),
        },
    }
}

fn read_paths(args: &str) -> (r: Vec<String>)
    ensures
        text::views(r@) == args_of(args@).paths,
{
    let items: Vec<JsonItem> = read_items(args, "paths");
    let ghost all = item_views(items@);
    let mut out: Vec<String> = Vec::new();
    let mut i: usize = 0;
    while i < items.len()
        invariant
            i <= items@.len(),
            out@.len() == i,
            forall|k: int| 0 <= k < i ==> (#[trigger] out@[k])@ == item_words(items@[k]@),
        decreases items@.len() - i,
    {
        out.push(
            match &items[i] {
                JsonItem::Text(words) => words.clone(),
                JsonItem::Json(object) => object.clone(),
            },
        );
        i += 1;
    }
    assert(text::views(out@) =~= all.map_values(|item: ItemView| item_words(item)));
    out
}

fn read_queries(args: &str) -> (r: Vec<QueryArgs>)
    ensures
        query_views(r@) == args_of(args@).queries,
{
    let items: Vec<JsonItem> = read_items(args, "queries");
    let ghost all = item_views(items@);
    let mut out: Vec<QueryArgs> = Vec::new();
    let mut i: usize = 0;
    while i < items.len()
        invariant
            i <= items@.len(),
            out@.len() == i,
            forall|k: int| 0 <= k < i ==> (#[trigger] out@[k])@ == query_of(items@[k]@),
        decreases items@.len() - i,
    {
        out.push(
            match &items[i] {
                JsonItem::Text(_) => QueryArgs { pattern: None, path: None },
                JsonItem::Json(object) => QueryArgs {
                    pattern: read_member(object.as_str(), "pattern"),
                    path: read_member(object.as_str(), "path"),
                },
            },
        );
        i += 1;
    }
    assert(query_views(out@) =~= all.map_values(|item: ItemView| query_of(item)));
    out
}

/// What the arguments of a tool call say, read as JSON.
pub fn read_args(args: &str) -> (r: CallArgs)
    ensures
        r@ == args_of(args@),
{
    CallArgs {
        path: read_member(args, "path"),
        file_path: read_member(args, "file_path"),
        command: read_member(args, "command"),
        query: read_member(args, "query"),
        pattern: read_member(args, "pattern"),
        description: read_member(args, "description"),
        paths: read_paths(args),
        queries: read_queries(args),
    }
}

/// What a tool call works on.
pub fn tool_detail(family: ToolFamily, args: &str) -> (r: String)
    ensures
        r@ == detail_of(family, args@),
{
    describe_call(family, &read_args(args))
}

/// What an edit takes away and what it puts in its place, each under one of three names.
#[derive(Clone, Debug)]
pub struct EditTexts {
    pub old_text: Option<String>,
    pub old_string: Option<String>,
    pub old_camel: Option<String>,
    pub new_text: Option<String>,
    pub new_string: Option<String>,
    pub new_camel: Option<String>,
}

/// What an edit takes away and what it puts in its place, if it says both.
pub open spec fn edit_pair(edit: EditTexts) -> Option<(Seq<char>, Seq<char>)> {
    let old = first_of(
        entry_view::option_view(edit.old_text),
        first_of(entry_view::option_view(edit.old_string), entry_view::option_view(edit.old_camel)),
    );
    let new = first_of(
        entry_view::option_view(edit.new_text),
        first_of(entry_view::option_view(edit.new_string), entry_view::option_view(edit.new_camel)),
    );
    match (old, new) {
        (Some(a), Some(b)) => Some((a, b)),
        _ => None,
    }
}

/// What an edit changes, `None` if it does not say it.
pub open spec fn pair_changes(pair: Option<(Seq<char>, Seq<char>)>) -> Option<Seq<DiffView>> {
    match pair {
        Some((old, new)) => Some(
            line_diff::changes(line_diff::lines_of(old), line_diff::lines_of(new)),
        ),
        None => None,
    }
}

/// What an edit changes, and in which file: the first of several edits counts, else the
/// arguments themselves. `None` if it is not said.
pub fn diff_of(
    path: &Option<String>,
    file_path: &Option<String>,
    own: &EditTexts,
    first: &Option<EditTexts>,
) -> (r: Option<(String, Vec<DiffLine>)>)
    ensures
        ({
            let pair = edit_pair(
                match *first {
                    Some(edit) => edit,
                    None => *own,
                },
            );
            match r {
                Some((file, lines)) => file@ == chosen_path(
                    entry_view::option_view(*path),
                    entry_view::option_view(*file_path),
                ) && pair_changes(pair) == Some(entry_view::diff_views(lines@)),
                None => pair_changes(pair) is None,
            }
        }),
{
    let edit: &EditTexts = match first {
        Some(edit) => edit,
        None => own,
    };
    match either(&edit.old_text, &either(&edit.old_string, &edit.old_camel)) {
        Some(old) => match either(&edit.new_text, &either(&edit.new_string, &edit.new_camel)) {
            Some(new) => {
                let before: Vec<String> = line_diff::text_lines(old.as_str());
                let after: Vec<String> = line_diff::text_lines(new.as_str());
                Some((pick_path(path, file_path), line_diff::line_diff(&before, &after)))
            },
            None => None,
        },
        None => None,
    }
}

/// The text that a member under one of three names holds.
pub open spec fn any_of(object: Seq<char>, a: Seq<char>, b: Seq<char>, c: Seq<char>) -> Option<
    Seq<char>,
> {
    first_of(json_member(object, a), first_of(json_member(object, b), json_member(object, c)))
}

/// What a JSON object says of an edit: what it takes away and what it puts in its place, if
/// it says both.
pub open spec fn object_pair(object: Seq<char>) -> Option<(Seq<char>, Seq<char>)> {
    match (
        any_of(object, "old_text"@, "old_string"@, "oldText"@),
        any_of(object, "new_text"@, "new_string"@, "newText"@),
    ) {
        (Some(a), Some(b)) => Some((a, b)),
        _ => None,
    }
}

/// What the arguments say of an edit: the first of several edits counts, else the arguments
/// themselves.
pub open spec fn args_pair(args: Seq<char>) -> Option<(Seq<char>, Seq<char>)> {
    let edits = json_items(args, "edits"@);
    if edits.len() > 0 {
        match edits[0] {
            ItemView::Text(_) => None,
            ItemView::Json(object) => object_pair(object),
        }
    } else {
        object_pair(args)
    }
}

/// What an edit changes, `None` if the arguments do not say it.
pub open spec fn edit_changes(args: Seq<char>) -> Option<Seq<DiffView>> {
    pair_changes(args_pair(args))
}

fn read_edit(object: &str) -> (r: EditTexts)
    ensures
        edit_pair(r) == object_pair(object@),
{
    EditTexts {
        old_text: read_member(object, "old_text"),
        old_string: read_member(object, "old_string"),
        old_camel: read_member(object, "oldText"),
        new_text: read_member(object, "new_text"),
        new_string: read_member(object, "new_string"),
        new_camel: read_member(object, "newText"),
    }
}

fn no_edit() -> (r: EditTexts)
    ensures
        edit_pair(r) is None,
{
    EditTexts {
        old_text: None,
        old_string: None,
        old_camel: None,
        new_text: None,
        new_string: None,
        new_camel: None,
    }
}

/// What an edit changes, and in which file; `None` if the arguments do not say
/// it.
pub fn edit_diff(args: &str) -> (r: Option<(String, Vec<DiffLine>)>)
    ensures
        match r {
            Some((path, lines)) => path@ == path_of(args@) && edit_changes(args@) == Some(
                entry_view::diff_views(lines@),
            ),
            None => edit_changes(args@) is None,
        },
{
    let edits: Vec<JsonItem> = read_items(args, "edits");
    assert(item_views(edits@).len() == edits@.len());
    let first: Option<EditTexts> = if edits.len() > 0 {
        assert(item_views(edits@)[0] == edits@[0]@);
        match &edits[0] {
            JsonItem::Text(_) => Some(no_edit()),
            JsonItem::Json(object) => Some(read_edit(object.as_str())),
        }
    } else {
        None
    };
    diff_of(
        &read_member(args, "path"),
        &read_member(args, "file_path"),
        &read_edit(args),
        &first,
    )
}

/// A duration: milliseconds, or seconds to a tenth.
pub open spec fn duration_of(milliseconds: nat) -> Seq<char> {
    if milliseconds < 1000 {
        text::decimal(milliseconds) + "ms"@
    } else {
        text::decimal(milliseconds / 1000) + "."@ + text::decimal(milliseconds % 1000 / 100) + "s"@
    }
}

/// A duration: milliseconds, or seconds to a tenth.
pub fn duration_text(milliseconds: u64) -> (r: String)
    ensures
        r@ == duration_of(milliseconds as nat),
{
    if milliseconds < 1000 {
        text::joined(text::decimal_text(milliseconds).as_str(), "ms")
    } else {
        let seconds: String = text::joined(text::decimal_text(milliseconds / 1000).as_str(), ".");
        text::joined3(
            seconds.as_str(),
            text::decimal_text(milliseconds % 1000 / 100).as_str(),
            "s",
        )
    }
}

/// Each tool is known by its names.
pub proof fn tools_are_known_by_their_names(name: Seq<char>)
    ensures
        family_of(name) is Read <==> (name == "read"@ || name == "read_file"@ || name
            == "read_files"@),
        family_of(name) is Run <==> name == "bash"@,
        family_of(name) is Search <==> (name == "search"@ || name == "grep"@ || name
            == "grep_files"@),
        family_of(name) is Find <==> (name == "find"@ || name == "find_files"@),
        family_of(name) is Edit <==> name == "edit"@,
        family_of(name) is Write <==> name == "write"@,
        family_of(name) is Agent <==> name == "agent"@,
{
    reveal_strlit("read");
    reveal_strlit("read_file");
    reveal_strlit("read_files");
    reveal_strlit("bash");
    reveal_strlit("search");
    reveal_strlit("grep");
    reveal_strlit("grep_files");
    reveal_strlit("find");
    reveal_strlit("find_files");
    reveal_strlit("edit");
    reveal_strlit("write");
    reveal_strlit("agent");
    assert("read"@.len() == 4);
    assert("read_file"@.len() == 9);
    assert("read_files"@.len() == 10);
    assert("bash"@.len() == 4);
    assert("search"@.len() == 6);
    assert("grep"@.len() == 4);
    assert("grep_files"@.len() == 10);
    assert("find"@.len() == 4);
    assert("find_files"@.len() == 10);
    assert("edit"@.len() == 4);
    assert("write"@.len() == 5);
    assert("agent"@.len() == 5);
    assert("read"@[0] == 'r');
    assert("bash"@[0] == 'b');
    assert("grep"@[0] == 'g');
    assert("find"@[0] == 'f');
    assert("edit"@[0] == 'e');
    assert("read_files"@[0] == 'r');
    assert("grep_files"@[0] == 'g');
    assert("find_files"@[0] == 'f');
    assert("write"@[0] == 'w');
    assert("agent"@[0] == 'a');
}

/// A call that runs something shows the command that it runs.
pub proof fn commands_are_shown(name: Seq<char>, args: Seq<char>, command: Seq<char>)
    requires
        name == "bash"@,
        json_member(args, "command"@) == Some(command),
    ensures
        detail_of(family_of(name), args) == command,
{
    reveal_strlit("read");
    reveal_strlit("read_file");
    reveal_strlit("read_files");
    reveal_strlit("bash");
    reveal_strlit("search");
    reveal_strlit("grep");
    reveal_strlit("grep_files");
    reveal_strlit("find");
    reveal_strlit("find_files");
    reveal_strlit("edit");
    reveal_strlit("write");
    reveal_strlit("agent");
    assert("read"@.len() == 4);
    assert("read_file"@.len() == 9);
    assert("read_files"@.len() == 10);
    assert("bash"@.len() == 4);
    assert("search"@.len() == 6);
    assert("grep"@.len() == 4);
    assert("grep_files"@.len() == 10);
    assert("find"@.len() == 4);
    assert("find_files"@.len() == 10);
    assert("edit"@.len() == 4);
    assert("write"@.len() == 5);
    assert("agent"@.len() == 5);
    assert("read"@[0] == 'r');
    assert("bash"@[0] == 'b');
    assert("grep"@[0] == 'g');
    assert("find"@[0] == 'f');
    assert("edit"@[0] == 'e');
    assert("read_files"@[0] == 'r');
    assert("grep_files"@[0] == 'g');
    assert("find_files"@[0] == 'f');
    assert("write"@[0] == 'w');
    assert("agent"@[0] == 'a');
}

/// A call on one file shows its path, under whichever of the two names it comes; `path`
/// goes first.
pub proof fn files_are_shown(family: ToolFamily, args: Seq<char>, path: Seq<char>)
    requires
        family is Edit || family is Write || (family is Read && json_items(
            args,
            "paths"@,
        ).len() == 0),
        json_member(args, "path"@) == Some(path) || (json_member(args, "path"@) is None
            && json_member(args, "file_path"@) == Some(path)),
    ensures
        detail_of(family, args) == path,
        path_of(args) == path,
{
}

/// A call that reads several files shows how many there are and the first three of them.
pub proof fn read_files_are_counted(args: Seq<char>, k: int) -> (r: (Seq<char>, Seq<char>))
    requires
        json_items(args, "paths"@).len() > 1,
        0 <= k < json_items(args, "paths"@).len(),
        k < 3,
    ensures
        ({
            let items = json_items(args, "paths"@);
            let shown = match items[k] {
                ItemView::Text(words) => words,
                ItemView::Json(words) => words,
            };
            let all = detail_of(ToolFamily::Read, args);
            &&& all == text::decimal(items.len()) + " files · "@ + r.0 + shown + r.1
            &&& items.len() > 3 ==> all.last() == '…'
        }),
{
    let paths = args_of(args).paths;
    reveal_strlit("…");
    if paths.len() <= 3 {
        let (a, b) = text::joined_texts_stand_in_the_whole(paths, ", "@, k);
        assert(detail_of(ToolFamily::Read, args) =~= text::decimal(paths.len()) + " files · "@ + a
            + paths[k] + b);
        (a, b)
    } else {
        let (a, b) = text::joined_texts_stand_in_the_whole(paths.take(3), ", "@, k);
        let rest = b + ", "@ + "…"@;
        assert(detail_of(ToolFamily::Read, args) =~= text::decimal(paths.len()) + " files · "@ + a
            + paths[k] + rest);
        (a, rest)
    }
}

/// A call that searches shows in quotes what it looks for, and where, unless that is the
/// working directory.
pub proof fn searches_are_shown(args: Seq<char>, pattern: Seq<char>)
    requires
        json_items(args, "queries"@).len() == 0,
        json_member(args, "query"@) == Some(pattern) || (json_member(args, "query"@) is None
            && json_member(args, "pattern"@) == Some(pattern)),
    ensures
        match json_member(args, "path"@) {
            None => detail_of(ToolFamily::Search, args) == seq!['"'] + pattern + seq!['"'],
            Some(place) => detail_of(ToolFamily::Search, args) == seq!['"'] + pattern + seq!['"']
                + (if place.len() == 0 || place == seq!['.'] {
                Seq::empty()
            } else {
                seq![' ', 'i', 'n', ' '] + place
            }),
        },
{
    reveal_strlit("\"");
    reveal_strlit(" in ");
    reveal_strlit(".");
    assert("\""@ =~= seq!['"']);
    assert(" in "@ =~= seq![' ', 'i', 'n', ' ']);
    assert("."@ =~= seq!['.']);
    let all = detail_of(ToolFamily::Search, args);
    match json_member(args, "path"@) {
        None => {
            assert(all =~= seq!['"'] + pattern + seq!['"']);
        },
        Some(place) => {
            if place.len() == 0 || place == seq!['.'] {
                assert(all =~= seq!['"'] + pattern + seq!['"'] + Seq::<char>::empty());
            } else {
                assert(all =~= seq!['"'] + pattern + seq!['"'] + (seq![' ', 'i', 'n', ' ']
                    + place));
            }
        },
    }
}

/// A call that finds files shows in quotes what it looks for, and where.
pub proof fn found_patterns_are_shown(args: Seq<char>, pattern: Seq<char>) -> (rest: Seq<char>)
    requires
        json_items(args, "queries"@).len() == 0,
        json_member(args, "pattern"@) == Some(pattern),
    ensures
        detail_of(ToolFamily::Find, args) == seq!['"'] + pattern + seq!['"'] + rest,
        path_of(args).len() == 0 || path_of(args) == seq!['.'] ==> rest.len() == 0,
        path_of(args).len() > 0 && path_of(args) != seq!['.'] ==> text::finishes_with(
            rest,
            path_of(args),
        ),
{
    reveal_strlit("\"");
    reveal_strlit(".");
    assert("\""@ =~= seq!['"']);
    assert("."@ =~= seq!['.']);
    let all = detail_of(ToolFamily::Find, args);
    let place = path_of(args);
    if place.len() == 0 || place == seq!['.'] {
        assert(all =~= seq!['"'] + pattern + seq!['"'] + Seq::<char>::empty());
        Seq::empty()
    } else {
        let rest = " in "@ + place;
        assert(all =~= seq!['"'] + pattern + seq!['"'] + rest);
        assert(rest.subrange(rest.len() - place.len(), rest.len() as int) =~= place);
        rest
    }
}

/// Each of several queries is shown by its pattern; those of a search with their places.
pub proof fn queries_are_shown(family: ToolFamily, args: Seq<char>, k: int) -> (r: (
    Seq<char>,
    Seq<char>,
))
    requires
        family is Search || family is Find,
        0 <= k < json_items(args, "queries"@).len(),
        k < 2,
    ensures
        match json_items(args, "queries"@)[k] {
            ItemView::Json(object) => match json_member(object, "pattern"@) {
                Some(pattern) => detail_of(family, args) == r.0 + (seq!['"'] + pattern + seq!['"'])
                    + r.1,
                None => true,
            },
            ItemView::Text(_) => true,
        },
{
    reveal_strlit("\"");
    assert("\""@ =~= seq!['"']);
    let placed = family is Search;
    let queries = args_of(args).queries;
    let words = queries.map_values(|query: QueryView| query_words_of(query, placed));
    let all = detail_of(family, args);
    let unit = if placed {
        " queries · "@
    } else {
        " patterns · "@
    };
    let quoted = seq!['"'] + or_nothing(queries[k].pattern) + seq!['"'];
    let tail = words[k].subrange(quoted.len() as int, words[k].len() as int);
    assert(words[k] =~= quoted + tail);
    if words.len() == 1 {
        assert(all =~= Seq::<char>::empty() + quoted + tail);
        (Seq::empty(), tail)
    } else if words.len() == 2 {
        let (a, b) = text::joined_texts_stand_in_the_whole(words, "; "@, k);
        let before = text::decimal(words.len()) + unit + a;
        assert(all =~= before + quoted + (tail + b));
        (before, tail + b)
    } else {
        let (a, b) = text::joined_texts_stand_in_the_whole(words.take(2), "; "@, k);
        let before = text::decimal(words.len()) + unit + a;
        let rest = tail + b + "; "@ + "…"@;
        assert(all =~= before + quoted + rest);
        (before, rest)
    }
}

/// An agent that is called shows what it is called for.
pub proof fn agents_are_shown(args: Seq<char>, words: Seq<char>)
    requires
        json_member(args, "description"@) == Some(words),
    ensures
        detail_of(ToolFamily::Agent, args) == words,
        detail_of(ToolFamily::Other, args) == words,
{
}

/// A tool without a description shows its command, and one without either its file.
pub proof fn other_tools_show_what_they_have(args: Seq<char>)
    requires
        json_member(args, "description"@) is None,
    ensures
        match json_member(args, "command"@) {
            Some(command) => detail_of(ToolFamily::Other, args) == command,
            None => detail_of(ToolFamily::Other, args) == path_of(args),
        },
{
}

/// The heading of a known tool is one word, and no two families have the same one; other
/// tools have their own name.
pub proof fn headings_tell_tools_apart(a: ToolFamily, b: ToolFamily, name: Seq<char>)
    ensures
        label_of(ToolFamily::Other, name) == name,
        !(a is Other) && !(b is Other) && label_of(a, name) == label_of(b, name) ==> a == b,
        label_of(ToolFamily::Run, name) == "Run"@,
        label_of(ToolFamily::Edit, name) == "Edit"@,
        label_of(ToolFamily::Write, name) == "Write"@,
        label_of(ToolFamily::Read, name) == "Read"@,
        label_of(ToolFamily::Search, name) == "Search"@,
        label_of(ToolFamily::Find, name) == "Find"@,
        label_of(ToolFamily::Agent, name) == "Agent"@,
{
    reveal_strlit("Read");
    reveal_strlit("Run");
    reveal_strlit("Search");
    reveal_strlit("Find");
    reveal_strlit("Edit");
    reveal_strlit("Write");
    reveal_strlit("Agent");
    assert("Read"@.len() == 4);
    assert("Run"@.len() == 3);
    assert("Search"@.len() == 6);
    assert("Find"@.len() == 4);
    assert("Edit"@.len() == 4);
    assert("Write"@.len() == 5);
    assert("Agent"@.len() == 5);
    assert("Read"@[0] == 'R');
    assert("Find"@[0] == 'F');
    assert("Edit"@[0] == 'E');
    assert("Write"@[0] == 'W');
    assert("Agent"@[0] == 'A');
}

/// A tool that reads, runs, searches, changes or calls anything is never hidden.
pub proof fn working_tools_are_shown(name: Seq<char>)
    requires
        !(family_of(name) is Other),
    ensures
        !hidden(name),
{
    reveal_strlit("read");
    reveal_strlit("read_file");
    reveal_strlit("read_files");
    reveal_strlit("bash");
    reveal_strlit("search");
    reveal_strlit("grep");
    reveal_strlit("grep_files");
    reveal_strlit("find");
    reveal_strlit("find_files");
    reveal_strlit("edit");
    reveal_strlit("write");
    reveal_strlit("agent");
    reveal_strlit("update_plan");
    reveal_strlit("get_subagent_result");
    reveal_strlit("get_command_or_subagent_output");
    assert("read"@.len() == 4);
    assert("read_file"@.len() == 9);
    assert("read_files"@.len() == 10);
    assert("bash"@.len() == 4);
    assert("search"@.len() == 6);
    assert("grep"@.len() == 4);
    assert("grep_files"@.len() == 10);
    assert("find"@.len() == 4);
    assert("find_files"@.len() == 10);
    assert("edit"@.len() == 4);
    assert("write"@.len() == 5);
    assert("agent"@.len() == 5);
    assert("update_plan"@.len() == 11);
    assert("get_subagent_result"@.len() == 19);
    assert("get_command_or_subagent_output"@.len() == 30);
    assert("read"@[0] == 'r');
    assert("bash"@[0] == 'b');
    assert("grep"@[0] == 'g');
    assert("find"@[0] == 'f');
    assert("edit"@[0] == 'e');
    assert("read_files"@[0] == 'r');
    assert("grep_files"@[0] == 'g');
    assert("find_files"@[0] == 'f');
    assert("write"@[0] == 'w');
    assert("agent"@[0] == 'a');
}

/// What an edit shows is made of the text that it takes away and the text that it puts in
/// its place.
pub proof fn edits_show_both_texts(args: Seq<char>, old: Seq<char>, new: Seq<char>)
    requires
        json_items(args, "edits"@).len() == 0,
        json_member(args, "old_text"@) == Some(old) || (json_member(args, "old_text"@) is None
            && json_member(args, "old_string"@) == Some(old)),
        json_member(args, "new_text"@) == Some(new) || (json_member(args, "new_text"@) is None
            && json_member(args, "new_string"@) == Some(new)),
    ensures
        edit_changes(args) == Some(
            line_diff::changes(line_diff::lines_of(old), line_diff::lines_of(new)),
        ),
{
}

/// A duration under a second is in milliseconds; a longer one in seconds and tenths, less
/// than a tenth of a second short of it.
pub proof fn durations_are_near(milliseconds: nat) -> (r: (nat, nat))
    ensures
        milliseconds < 1000 ==> duration_of(milliseconds) == text::decimal(milliseconds)
            + seq!['m', 's'],
        milliseconds >= 1000 ==> {
            &&& duration_of(milliseconds) == text::decimal(r.0) + seq!['.'] + text::decimal(r.1)
                + seq!['s']
            &&& r.1 < 10
            &&& r.0 * 1000 + r.1 * 100 <= milliseconds < r.0 * 1000 + r.1 * 100 + 100
        },
{
    reveal_strlit("ms");
    reveal_strlit(".");
    reveal_strlit("s");
    assert("ms"@ =~= seq!['m', 's']);
    assert("."@ =~= seq!['.']);
    assert("s"@ =~= seq!['s']);
    (milliseconds / 1000, milliseconds % 1000 / 100)
}

/// An edit is shown where it has both texts, under whatever names they come; the plain name
/// goes before the others.
pub proof fn edits_have_two_texts(edit: EditTexts)
    ensures
        edit_pair(edit) is Some <==> (edit.old_text is Some || edit.old_string is Some
            || edit.old_camel is Some) && (edit.new_text is Some || edit.new_string is Some
            || edit.new_camel is Some),
        edit_pair(edit) matches Some((old, new)) ==> {
            &&& edit.old_text matches Some(t) ==> old == t@
            &&& edit.new_text matches Some(t) ==> new == t@
            &&& edit.old_text is None ==> (edit.old_string matches Some(t) ==> old == t@)
            &&& edit.new_text is None ==> (edit.new_string matches Some(t) ==> new == t@)
            &&& edit.old_text is None && edit.old_string is None ==> edit.old_camel is Some && old
                == edit.old_camel->0@
            &&& edit.new_text is None && edit.new_string is None ==> edit.new_camel is Some && new
                == edit.new_camel->0@
        },
{
}

} // verus!
