//! The payload types of the facts, the fact kinds in their fixed predicate
//! order, and the JSON text of one record of each kind.

use vstd::prelude::*;
use vstd::string::StringExecFns;
use crate::json::{
    append_array, array_json, decimal, json_i32, json_string, json_string_of, json_u64, pair_json,
    signed_decimal, views,
};

verus! {

/// The number of fact kinds.
pub const KIND_COUNT: usize = 14;

/// An identifier assigned to a fact by the indexer.
#[derive(Clone, Copy, Debug, PartialEq, Eq, Structural)]
pub struct ScipId(pub u64);

/// A language code, as the ingester numbers languages.
#[derive(Clone, Copy, Debug, PartialEq, Eq, Structural)]
pub struct LanguageId(pub u8);

/// A symbol kind code, as the ingester numbers symbol kinds.
#[derive(Clone, Copy, Debug, PartialEq, Eq, Structural)]
pub struct SymbolKind(pub u8);

/// A span of a file, from a start line and column to an end line and column.
#[derive(Clone, Copy, Debug, PartialEq, Eq, Structural)]
pub struct GleanRange {
    pub line_begin: u64,
    pub column_begin: u64,
    pub line_end: u64,
    pub column_end: u64,
}

/// The tool that produced an index: its name, its arguments and its version.
#[derive(Clone, Debug)]
pub struct ToolInfo {
    pub tool_name: String,
    pub tool_arguments: Vec<String>,
    pub version: String,
}

/// The kinds of fact, declared in the order in which their groups are
/// emitted.
#[derive(Clone, Copy, Debug, PartialEq, Eq, Structural)]
pub enum FactKind {
    SrcFile,
    Symbol,
    LocalName,
    Documentation,
    FileLanguage,
    FileRange,
    Definition,
    Reference,
    SymbolDocumentation,
    SymbolName,
    SymbolKindOf,
    Metadata,
    DisplayName,
    DisplayNameSymbol,
}

impl FactKind {
    /// The position of the kind in the emission order.
    pub open spec fn rank(self) -> int {
        match self {
            FactKind::SrcFile => 0,
            FactKind::Symbol => 1,
            FactKind::LocalName => 2,
            FactKind::Documentation => 3,
            FactKind::FileLanguage => 4,
            FactKind::FileRange => 5,
            FactKind::Definition => 6,
            FactKind::Reference => 7,
            FactKind::SymbolDocumentation => 8,
            FactKind::SymbolName => 9,
            FactKind::SymbolKindOf => 10,
            FactKind::Metadata => 11,
            FactKind::DisplayName => 12,
            FactKind::DisplayNameSymbol => 13,
        }
    }

    pub fn index(self) -> (r: usize)
        ensures
            r == self.rank(),
            r < KIND_COUNT,
    {
        match self {
            FactKind::SrcFile => 0,
            FactKind::Symbol => 1,
            FactKind::LocalName => 2,
            FactKind::Documentation => 3,
            FactKind::FileLanguage => 4,
            FactKind::FileRange => 5,
            FactKind::Definition => 6,
            FactKind::Reference => 7,
            FactKind::SymbolDocumentation => 8,
            FactKind::SymbolName => 9,
            FactKind::SymbolKindOf => 10,
            FactKind::Metadata => 11,
            FactKind::DisplayName => 12,
            FactKind::DisplayNameSymbol => 13,
        }
    }
}

/// The predicate name of the kind at position `i` of the emission order,
/// without its schema version.
pub open spec fn predicate_at(i: int) -> Seq<char> {
    if i == 0 {
        "src.File"@
    } else if i == 1 {
        "scip.Symbol"@
    } else if i == 2 {
        "scip.LocalName"@
    } else if i == 3 {
        "scip.Documentation"@
    } else if i == 4 {
        "scip.FileLanguage"@
    } else if i == 5 {
        "scip.FileRange"@
    } else if i == 6 {
        "scip.Definition"@
    } else if i == 7 {
        "scip.Reference"@
    } else if i == 8 {
        "scip.SymbolDocumentation"@
    } else if i == 9 {
        "scip.SymbolName"@
    } else if i == 10 {
        "scip.SymbolKind"@
    } else if i == 11 {
        "scip.Metadata"@
    } else if i == 12 {
        "scip.DisplayName"@
    } else {
        "scip.DisplayNameSymbol"@
    }
}

/// The predicate name of the kind at position `i` of the emission order.
pub fn predicate_name(i: usize) -> (r: &'static str)
    requires
        i < KIND_COUNT,
    ensures
        r@ == predicate_at(i as int),
{
    if i == 0 {
        "src.File"
    } else if i == 1 {
        "scip.Symbol"
    } else if i == 2 {
        "scip.LocalName"
    } else if i == 3 {
        "scip.Documentation"
    } else if i == 4 {
        "scip.FileLanguage"
    } else if i == 5 {
        "scip.FileRange"
    } else if i == 6 {
        "scip.Definition"
    } else if i == 7 {
        "scip.Reference"
    } else if i == 8 {
        "scip.SymbolDocumentation"
    } else if i == 9 {
        "scip.SymbolName"
    } else if i == 10 {
        "scip.SymbolKind"
    } else if i == 11 {
        "scip.Metadata"
    } else if i == 12 {
        "scip.DisplayName"
    } else {
        "scip.DisplayNameSymbol"
    }
}

/// The number of an identifier.
pub open spec fn id_json(id: ScipId) -> Seq<char> {
    decimal(id.0 as nat)
}

/// An identified record: `{"id":id,"key":key}`.
pub open spec fn id_key_json(id: ScipId, key: Seq<char>) -> Seq<char> {
    pair_json("id"@, id_json(id), "key"@, key)
}

/// An identified record whose payload is the string `s`.
pub open spec fn named_text_json(id: ScipId, s: Seq<char>) -> Seq<char> {
    id_key_json(id, json_string_of(s))
}

/// The JSON object of a range.
pub open spec fn range_json(r: GleanRange) -> Seq<char> {
    "{\"lineBegin\":"@ + decimal(r.line_begin as nat) + ",\"columnBegin\":"@ + decimal(
        r.column_begin as nat,
    ) + ",\"lineEnd\":"@ + decimal(r.line_end as nat) + ",\"columnEnd\":"@ + decimal(
        r.column_end as nat,
    ) + "}"@
}

/// The JSON object of a tool descriptor, given its name, arguments and version.
pub open spec fn tool_json(name: Seq<char>, args: Seq<Seq<char>>, version: Seq<char>) -> Seq<char> {
    "{\"toolName\":"@ + json_string_of(name) + ",\"toolArguments\":"@ + array_json(
        args.map_values(|a: Seq<char>| json_string_of(a)),
    ) + ",\"version\":"@ + json_string_of(version) + "}"@
}

/// The JSON value of an optional tool descriptor: `null` when absent.
pub open spec fn tool_option_json(t: Option<ToolInfo>) -> Seq<char> {
    match t {
        Some(t) => tool_json(t.tool_name@, views(t.tool_arguments@), t.version@),
        None => "null"@,
    }
}

/// The JSON object of a metadata payload.
pub open spec fn metadata_json(version: i32, text_encoding: i32, tool: Option<ToolInfo>) -> Seq<
    char,
> {
    "{\"textEncoding\":"@ + signed_decimal(text_encoding as int) + ",\"toolInfo\":"@
        + tool_option_json(tool) + ",\"version\":"@ + signed_decimal(version as int) + "}"@
}

/// Writes the JSON object of a range.
pub fn range_text(r: &GleanRange) -> (t: String)
    ensures
        t@ == range_json(*r),
{
    let mut t = String::from_str("{\"lineBegin\":");
    t.append(json_u64(r.line_begin).as_str());
    t.append(",\"columnBegin\":");
    t.append(json_u64(r.column_begin).as_str());
    t.append(",\"lineEnd\":");
    t.append(json_u64(r.line_end).as_str());
    t.append(",\"columnEnd\":");
    t.append(json_u64(r.column_end).as_str());
    t.append("}");
    t
}

/// Writes the JSON object of a tool descriptor.
pub fn tool_text(tool: &ToolInfo) -> (t: String)
    ensures
        t@ == tool_json(tool.tool_name@, views(tool.tool_arguments@), tool.version@),
{
    let mut args: Vec<String> = Vec::new();
    let mut i: usize = 0;
    while i < tool.tool_arguments.len()
        invariant
            i <= tool.tool_arguments@.len(),
            views(args@) =~= views(tool.tool_arguments@).subrange(0, i as int).map_values(
                |a: Seq<char>| json_string_of(a),
            ),
        decreases tool.tool_arguments@.len() - i,
    {
        let ghost before = args@;
        args.push(json_string(tool.tool_arguments[i].as_str()));
        proof {
            let a = views(tool.tool_arguments@);
            assert(a.subrange(0, i + 1) =~= a.subrange(0, i as int).push(a[i as int]));
            assert(views(args@) =~= views(before).push(args@.last()@));
        }
        i = i + 1;
    }
    assert(views(tool.tool_arguments@).subrange(0, i as int) =~= views(tool.tool_arguments@));
    let mut t = String::from_str("{\"toolName\":");
    t.append(json_string(tool.tool_name.as_str()).as_str());
    t.append(",\"toolArguments\":");
    append_array(&mut t, &args, 0, args.len());
    assert(views(args@).subrange(0, args@.len() as int) =~= views(args@));
    t.append(",\"version\":");
    t.append(json_string(tool.version.as_str()).as_str());
    t.append("}");
    t
}

/// Writes the JSON object of a metadata payload.
pub fn metadata_text(version: i32, text_encoding: i32, tool: &Option<ToolInfo>) -> (t: String)
    ensures
        t@ == metadata_json(version, text_encoding, *tool),
{
    let mut t = String::from_str("{\"textEncoding\":");
    t.append(json_i32(text_encoding).as_str());
    t.append(",\"toolInfo\":");
    match tool {
        Some(info) => {
            t.append(tool_text(info).as_str());
        },
        None => {
            t.append("null");
        },
    }
    t.append(",\"version\":");
    t.append(json_i32(version).as_str());
    t.append("}");
    t
}

} // verus!
