use scip_to_glean::facts::{GleanRange, LanguageId, ScipId, SymbolKind, ToolInfo};
use scip_to_glean::output::GleanJSONOutput;
use serde_json::Value;

fn text(s: &str) -> Box<str> {
    s.to_string().into_boxed_str()
}

fn parse(doc: &str) -> Vec<Value> {
    match serde_json::from_str::<Value>(doc) {
        Ok(Value::Array(groups)) => groups,
        other => panic!("not a JSON array: {:?}", other),
    }
}

fn predicates(doc: &str) -> Vec<String> {
    parse(doc)
        .iter()
        .map(|g| g["predicate"].as_str().unwrap().to_string())
        .collect()
}

#[test]
fn empty_accumulator_renders_empty_array() {
    let out = GleanJSONOutput::new();
    assert_eq!(out.to_json(), "[]\n");
}

#[test]
fn default_is_empty() {
    let out = GleanJSONOutput::default();
    assert_eq!(out.to_json(), "[]\n");
}

#[test]
fn three_source_files_are_reversed() {
    let mut out = GleanJSONOutput::new();
    out.src_file(ScipId(1), text("a"));
    out.src_file(ScipId(2), text("b"));
    out.src_file(ScipId(3), text("c"));
    assert_eq!(
        out.to_json(),
        "[{\"facts\":[{\"id\":3,\"key\":\"c\"},{\"id\":2,\"key\":\"b\"},{\"id\":1,\"key\":\"a\"}],\"predicate\":\"src.File.1\"}]\n"
    );
}

#[test]
fn ten_thousand_and_one_symbols_make_two_groups() {
    let mut out = GleanJSONOutput::new();
    for i in 1..=10001u64 {
        out.symbol(ScipId(i), text(&format!("s{}", i)));
    }
    let groups = parse(&out.to_json());
    assert_eq!(groups.len(), 2);
    let first = groups[0]["facts"].as_array().unwrap();
    let second = groups[1]["facts"].as_array().unwrap();
    assert_eq!(groups[0]["predicate"], "scip.Symbol.1");
    assert_eq!(groups[1]["predicate"], "scip.Symbol.1");
    assert_eq!(first.len(), 10000);
    assert_eq!(second.len(), 1);
    assert_eq!(first[0]["id"], 10001);
    assert_eq!(first[9999]["id"], 2);
    assert_eq!(second[0]["id"], 1);
    assert_eq!(second[0]["key"], "s1");
}

#[test]
fn exactly_twenty_thousand_records_make_two_full_groups() {
    let mut out = GleanJSONOutput::new();
    for i in 0..20000u64 {
        out.definition(ScipId(i), ScipId(i + 1));
    }
    let groups = parse(&out.to_json());
    assert_eq!(groups.len(), 2);
    assert_eq!(groups[0]["facts"].as_array().unwrap().len(), 10000);
    assert_eq!(groups[1]["facts"].as_array().unwrap().len(), 10000);
    assert_eq!(groups[0]["facts"][0]["key"]["symbol"], 19999);
    assert_eq!(groups[1]["facts"][9999]["key"]["symbol"], 0);
}

#[test]
fn only_metadata_gives_one_metadata_group() {
    let mut out = GleanJSONOutput::new();
    out.metadata(1, 2, None);
    let doc = out.to_json();
    assert_eq!(predicates(&doc), vec!["scip.Metadata.1".to_string()]);
    assert_eq!(
        doc,
        "[{\"facts\":[{\"key\":{\"textEncoding\":2,\"toolInfo\":null,\"version\":1}}],\"predicate\":\"scip.Metadata.1\"}]\n"
    );
}

#[test]
fn metadata_with_tool_and_negative_numbers() {
    let mut out = GleanJSONOutput::new();
    let tool = ToolInfo {
        tool_name: "indexer".to_string(),
        tool_arguments: vec!["--x".to_string(), "y".to_string()],
        version: "1.2".to_string(),
    };
    out.metadata(-5, 0, Some(tool));
    assert_eq!(
        out.to_json(),
        "[{\"facts\":[{\"key\":{\"textEncoding\":0,\"toolInfo\":{\"toolName\":\"indexer\",\"toolArguments\":[\"--x\",\"y\"],\"version\":\"1.2\"},\"version\":-5}}],\"predicate\":\"scip.Metadata.1\"}]\n"
    );
}

#[test]
fn tool_without_arguments_has_empty_array() {
    let mut out = GleanJSONOutput::new();
    let tool = ToolInfo {
        tool_name: "t".to_string(),
        tool_arguments: Vec::new(),
        version: String::new(),
    };
    out.metadata(i32::MAX, i32::MIN, Some(tool));
    assert_eq!(
        out.to_json(),
        "[{\"facts\":[{\"key\":{\"textEncoding\":-2147483648,\"toolInfo\":{\"toolName\":\"t\",\"toolArguments\":[],\"version\":\"\"},\"version\":2147483647}}],\"predicate\":\"scip.Metadata.1\"}]\n"
    );
}

#[test]
fn groups_follow_fixed_order_whatever_the_append_order() {
    let mut out = GleanJSONOutput::new();
    out.display_name_symbol(ScipId(1), ScipId(2));
    out.display_name(ScipId(3), text("d"));
    out.metadata(1, 1, None);
    out.symbol_kind(ScipId(4), SymbolKind(7));
    out.symbol_name(ScipId(5), ScipId(6));
    out.symbol_documentation(ScipId(7), ScipId(8));
    out.reference(ScipId(9), ScipId(10));
    out.definition(ScipId(11), ScipId(12));
    let range = GleanRange { line_begin: 1, column_begin: 2, line_end: 3, column_end: 4 };
    out.file_range(ScipId(13), ScipId(14), range);
    out.file_lang(ScipId(15), ScipId(16), LanguageId(9));
    out.documentation(ScipId(17), text("doc"));
    out.local_name(ScipId(18), text("local"));
    out.symbol(ScipId(19), text("sym"));
    out.src_file(ScipId(20), text("f.rs"));
    let expected: Vec<String> = [
        "src.File",
        "scip.Symbol",
        "scip.LocalName",
        "scip.Documentation",
        "scip.FileLanguage",
        "scip.FileRange",
        "scip.Definition",
        "scip.Reference",
        "scip.SymbolDocumentation",
        "scip.SymbolName",
        "scip.SymbolKind",
        "scip.Metadata",
        "scip.DisplayName",
        "scip.DisplayNameSymbol",
    ]
    .iter()
    .map(|p| format!("{}.1", p))
    .collect();
    assert_eq!(predicates(&out.to_json()), expected);
}

#[test]
fn record_shapes_of_every_kind() {
    let mut out = GleanJSONOutput::new();
    out.src_file(ScipId(20), text("f.rs"));
    out.symbol(ScipId(19), text("sym"));
    out.local_name(ScipId(18), text("local"));
    out.documentation(ScipId(17), text("doc"));
    out.file_lang(ScipId(15), ScipId(16), LanguageId(9));
    let range = GleanRange { line_begin: 1, column_begin: 2, line_end: 3, column_end: 4 };
    out.file_range(ScipId(13), ScipId(14), range);
    out.definition(ScipId(11), ScipId(12));
    out.reference(ScipId(9), ScipId(10));
    out.symbol_documentation(ScipId(7), ScipId(8));
    out.symbol_name(ScipId(5), ScipId(6));
    out.symbol_kind(ScipId(4), SymbolKind(7));
    out.display_name(ScipId(3), text("d"));
    out.display_name_symbol(ScipId(1), ScipId(2));
    let expected = [
        "[{\"facts\":[{\"id\":20,\"key\":\"f.rs\"}],\"predicate\":\"src.File.1\"},\n",
        "{\"facts\":[{\"id\":19,\"key\":\"sym\"}],\"predicate\":\"scip.Symbol.1\"},\n",
        "{\"facts\":[{\"id\":18,\"key\":\"local\"}],\"predicate\":\"scip.LocalName.1\"},\n",
        "{\"facts\":[{\"id\":17,\"key\":\"doc\"}],\"predicate\":\"scip.Documentation.1\"},\n",
        "{\"facts\":[{\"id\":15,\"key\":{\"file\":16,\"language\":9}}],\"predicate\":\"scip.FileLanguage.1\"},\n",
        "{\"facts\":[{\"id\":13,\"key\":{\"file\":14,\"range\":{\"lineBegin\":1,\"columnBegin\":2,\"lineEnd\":3,\"columnEnd\":4}}}],\"predicate\":\"scip.FileRange.1\"},\n",
        "{\"facts\":[{\"key\":{\"location\":12,\"symbol\":11}}],\"predicate\":\"scip.Definition.1\"},\n",
        "{\"facts\":[{\"key\":{\"location\":10,\"symbol\":9}}],\"predicate\":\"scip.Reference.1\"},\n",
        "{\"facts\":[{\"id\":8,\"key\":{\"docs\":8,\"symbol\":7}}],\"predicate\":\"scip.SymbolDocumentation.1\"},\n",
        "{\"facts\":[{\"key\":{\"name\":6,\"symbol\":5}}],\"predicate\":\"scip.SymbolName.1\"},\n",
        "{\"facts\":[{\"key\":{\"kind\":7,\"symbol\":4}}],\"predicate\":\"scip.SymbolKind.1\"},\n",
        "{\"facts\":[{\"id\":3,\"key\":\"d\"}],\"predicate\":\"scip.DisplayName.1\"},\n",
        "{\"facts\":[{\"key\":{\"displayName\":2,\"symbol\":1}}],\"predicate\":\"scip.DisplayNameSymbol.1\"}]\n",
    ]
    .concat();
    assert_eq!(out.to_json(), expected);
}

#[test]
fn empty_kinds_have_no_group() {
    let mut out = GleanJSONOutput::new();
    out.reference(ScipId(1), ScipId(2));
    out.reference(ScipId(3), ScipId(4));
    let doc = out.to_json();
    assert_eq!(predicates(&doc), vec!["scip.Reference.1".to_string()]);
    assert_eq!(
        doc,
        "[{\"facts\":[{\"key\":{\"location\":4,\"symbol\":3}},{\"key\":{\"location\":2,\"symbol\":1}}],\"predicate\":\"scip.Reference.1\"}]\n"
    );
}

#[test]
fn same_appends_give_identical_documents() {
    let build = || {
        let mut out = GleanJSONOutput::new();
        for i in 0..25000u64 {
            out.local_name(ScipId(i), text(&format!("n{}", i)));
            if i % 3 == 0 {
                out.symbol_kind(ScipId(i), SymbolKind((i % 200) as u8));
            }
        }
        out.metadata(4, 1, None);
        out.to_json()
    };
    let a = build();
    let b = build();
    assert_eq!(a, b);
    let groups = parse(&a);
    // 25000 local names make three groups, 8334 kinds one, metadata one
    assert_eq!(groups.len(), 5);
    for g in &groups {
        let obj = g.as_object().unwrap();
        assert_eq!(obj.len(), 2);
        assert!(obj.contains_key("facts") && obj.contains_key("predicate"));
    }
    assert_eq!(groups[2]["facts"].as_array().unwrap().len(), 5000);
}

#[test]
fn strings_are_escaped() {
    let mut out = GleanJSONOutput::new();
    out.documentation(ScipId(0), text("say \"hi\"\n\\ é"));
    assert_eq!(
        out.to_json(),
        "[{\"facts\":[{\"id\":0,\"key\":\"say \\\"hi\\\"\\n\\\\ é\"}],\"predicate\":\"scip.Documentation.1\"}]\n"
    );
}

#[test]
fn largest_identifier_is_written_in_full() {
    let mut out = GleanJSONOutput::new();
    out.display_name(ScipId(u64::MAX), text(""));
    assert_eq!(
        out.to_json(),
        "[{\"facts\":[{\"id\":18446744073709551615,\"key\":\"\"}],\"predicate\":\"scip.DisplayName.1\"}]\n"
    );
}
