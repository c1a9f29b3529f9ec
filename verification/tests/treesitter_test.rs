use dart_re_analyzer::treesitter::print::render_tree;
use dart_re_analyzer::treesitter::queries;
use dart_re_analyzer::treesitter::{
    extract_classes, extract_expressions, extract_fields, extract_imports, extract_methods,
    extract_tokens, extract_type_annotations, extract_type_parameters, extract_variables,
    parse_dart, query_tree, syntax_of, Edit, IncrementalParser,
};

#[test]
fn test_parse_simple_class() {
    let source = r#"
class MyClass {
    int x = 1;
    void myMethod() {
        print(x);
    }
}
        "#;

    let tree = parse_dart(source).expect("Failed to parse");
    let root = tree.root_node();
    assert_eq!(root.kind(), "program");
    assert!(!root.has_error());
}

#[test]
fn test_extract_tokens() {
    let source = "class A { int x = 1; }";
    let tree = parse_dart(source).expect("Failed to parse");
    let tokens = extract_tokens(&syntax_of(&tree), source);

    // Should have multiple tokens including keywords, identifiers, etc.
    assert!(!tokens.is_empty());

    // Find the 'class' keyword token
    let has_class = tokens.iter().any(|t| t.text == "class");
    assert!(has_class, "Should find 'class' keyword");
}

#[test]
fn test_extract_classes() {
    let source = r#"
class FirstClass {
    int x;
}

class SecondClass {
    String name;
}
        "#;

    let tree = parse_dart(source).expect("Failed to parse");
    let root = syntax_of(&tree);
    let classes = extract_classes(&root, source);

    assert_eq!(classes.len(), 2);
    assert_eq!(classes[0].name, "FirstClass");
    assert_eq!(classes[1].name, "SecondClass");
}

#[test]
fn test_extract_imports() {
    let source = r#"
import 'dart:core';
import 'package:flutter/material.dart';

class MyClass {}
        "#;

    let tree = parse_dart(source).expect("Failed to parse");
    let root = syntax_of(&tree);
    let imports = extract_imports(&root, source);

    assert!(!imports.is_empty());
}

#[test]
fn test_error_recovery() {
    // Test with incomplete/invalid code - tree-sitter should still parse
    let source = "class { incomplete";
    let tree = parse_dart(source).expect("Failed to parse");
    let root = tree.root_node();

    // Tree-sitter should parse it but mark errors
    assert_eq!(root.kind(), "program");
    // Note: has_error() checks if there are error nodes in the tree
}

#[test]
fn test_token_positions() {
    let source = "class A {}";
    let tree = parse_dart(source).expect("Failed to parse");
    let tokens = extract_tokens(&syntax_of(&tree), source);

    for token in &tokens {
        // All tokens should have valid positions
        assert!(token.end_byte >= token.start_byte);
        assert_eq!(&source[token.start_byte..token.end_byte], token.text);
    }
}

#[test]
fn test_extract_fields() {
    let source = r#"
class MyClass {
    static final int staticField = 10;
    String name;
    final double value = 3.14;
    const String constant = 'hello';
}
        "#;

    let tree = parse_dart(source).expect("Failed to parse");
    let root = syntax_of(&tree);
    let fields = extract_fields(&root, source);

    assert!(!fields.is_empty(), "Should extract at least one field");

    // Check for specific field properties
    let has_static = fields.iter().any(|f| f.is_static);
    let has_final = fields.iter().any(|f| f.is_final);
    let has_const = fields.iter().any(|f| f.is_const);

    assert!(has_static || has_final || has_const, "Should detect field modifiers");
}

#[test]
fn test_extract_variables() {
    let source = r#"
void main() {
    var x = 10;
    final String name = 'test';
    const double pi = 3.14;
    int count = 0;
}
        "#;

    let tree = parse_dart(source).expect("Failed to parse");
    let root = syntax_of(&tree);
    let variables = extract_variables(&root, source);

    assert!(!variables.is_empty(), "Should extract variables");

    let has_final = variables.iter().any(|v| v.is_final);
    let has_const = variables.iter().any(|v| v.is_const);

    assert!(has_final || has_const, "Should detect variable modifiers");
}

#[test]
fn test_extract_type_annotations() {
    let source = r#"
class MyClass {
    String name;
    int? nullableValue;
    List<String> items;
    Map<String, int> mapping;
}
        "#;

    let tree = parse_dart(source).expect("Failed to parse");
    let root = syntax_of(&tree);
    let type_annotations = extract_type_annotations(&root, source);

    assert!(!type_annotations.is_empty(), "Should extract type annotations");

    // Check for common types
    let has_string = type_annotations.iter().any(|t| t.name == "String");
    let has_int = type_annotations.iter().any(|t| t.name == "int");

    assert!(has_string || has_int, "Should detect common type annotations");
}

#[test]
fn test_extract_type_parameters() {
    let source = r#"
class GenericClass<T, E extends Exception> {
    T value;
    E error;
}

class SimpleGeneric<T> {
    T data;
}
        "#;

    let tree = parse_dart(source).expect("Failed to parse");
    let root = syntax_of(&tree);
    let type_params = extract_type_parameters(&root, source);

    assert!(!type_params.is_empty(), "Should extract type parameters");

    // At least one type parameter should exist
    assert!(type_params.len() >= 1, "Should find at least one type parameter");
}

#[test]
fn test_extract_expressions() {
    let source = r#"
void main() {
    var x = 1 + 2;
    var y = x * 3;
    var list = [1, 2, 3];
    var map = {'key': 'value'};
    var str = 'hello';
    var flag = true;
    var nothing = null;
}
        "#;

    let tree = parse_dart(source).expect("Failed to parse");
    let root = syntax_of(&tree);
    let expressions = extract_expressions(&root, source);

    assert!(!expressions.is_empty(), "Should extract expressions");

    // Should find various expression types
    let has_binary = expressions.iter().any(|e| e.kind == "binary_expression");
    let has_literal = expressions.iter().any(|e| e.kind.contains("literal"));

    assert!(has_binary || has_literal, "Should detect various expression types");
}

#[test]
fn test_query_classes() {
    let source = r#"
class FirstClass {}
class SecondClass {}
        "#;

    let tree = parse_dart(source).expect("Failed to parse");
    let matches = query_tree(&tree, source, queries::CLASSES).expect("Query failed");

    assert!(!matches.is_empty(), "Should find classes");

    // Check we found class names
    let class_names: Vec<_> = matches
        .iter()
        .flat_map(|m| &m.captures)
        .filter(|c| c.name == "class.name")
        .map(|c| c.text.as_str())
        .collect();

    assert!(class_names.contains(&"FirstClass") || class_names.contains(&"SecondClass"));
}

#[test]
fn test_query_methods() {
    let source = r#"
void myFunction() {}

class MyClass {
    void myMethod() {}
}
        "#;

    let tree = parse_dart(source).expect("Failed to parse");
    let matches = query_tree(&tree, source, queries::METHODS).expect("Query failed");

    assert!(!matches.is_empty(), "Should find methods/functions");
}

#[test]
fn test_custom_query() {
    let source = r#"
class TestClass {
    int value = 42;
}
        "#;

    let tree = parse_dart(source).expect("Failed to parse");

    // Custom query to find integer literals
    let query_str = r#"(decimal_integer_literal) @number"#;
    let matches = query_tree(&tree, source, query_str).expect("Query failed");

    assert!(!matches.is_empty(), "Should find integer literals");

    let numbers: Vec<_> = matches
        .iter()
        .flat_map(|m| &m.captures)
        .filter(|c| c.name == "number")
        .map(|c| c.text.as_str())
        .collect();

    assert!(numbers.contains(&"42"), "Should find the number 42");
}

#[test]
fn test_query_type_parameters() {
    let source = r#"
class GenericClass<T, E> {
    T value;
}
        "#;

    let tree = parse_dart(source).expect("Failed to parse");
    let matches = query_tree(&tree, source, queries::TYPE_PARAMETERS).expect("Query failed");

    assert!(!matches.is_empty(), "Should find type parameters");
}

#[test]
fn test_query_imports() {
    let source = r#"
import 'dart:core';
import 'package:flutter/material.dart';

class MyClass {}
        "#;

    let tree = parse_dart(source).expect("Failed to parse");
    let matches = query_tree(&tree, source, queries::IMPORTS).expect("Query failed");

    assert!(!matches.is_empty(), "Should find imports");
    assert!(matches.len() >= 2, "Should find at least 2 imports");
}

#[test]
fn test_incremental_parser_initial() {
    let mut parser = IncrementalParser::new().expect("Failed to create parser");
    let source = "class MyClass {}";

    parser.parse(source).expect("Failed to parse");
    let tree = parser.tree().unwrap();
    assert_eq!(tree.root_node().kind(), "program");
    assert_eq!(parser.source(), source);
}

#[test]
fn test_incremental_parser_insert() {
    let mut parser = IncrementalParser::new().expect("Failed to create parser");
    let initial = "class MyClass {}";
    parser.parse(initial).expect("Failed to parse initial");

    // Insert " extends Object" before the closing brace
    // Position: "class MyClass" (13 chars) + " extends Object" (15 chars)
    let edit = Edit::insert(13, 15, 0, 13);
    let new_source = "class MyClass extends Object {}";

    parser.reparse(edit, new_source).expect("Failed to reparse");
    let tree = parser.tree().unwrap();
    assert!(!tree.root_node().has_error(), "Tree should not have errors");

    // Verify we can still extract the class
    let classes = extract_classes(parser.root().unwrap(), new_source);
    assert_eq!(classes.len(), 1);
    assert_eq!(classes[0].name, "MyClass");
}

#[test]
fn test_incremental_parser_delete() {
    let mut parser = IncrementalParser::new().expect("Failed to create parser");
    let initial = "class MyClass extends Object {}";
    parser.parse(initial).expect("Failed to parse initial");

    // Delete " extends Object" (from position 13 to 28)
    let edit = Edit::delete(13, 28, 0, 13, 0, 28);
    let new_source = "class MyClass {}";

    parser.reparse(edit, new_source).expect("Failed to reparse");
    let tree = parser.tree().unwrap();
    assert!(!tree.root_node().has_error(), "Tree should not have errors");

    let classes = extract_classes(parser.root().unwrap(), new_source);
    assert_eq!(classes.len(), 1);
    assert_eq!(classes[0].name, "MyClass");
}

#[test]
fn test_incremental_parser_replace() {
    let mut parser = IncrementalParser::new().expect("Failed to create parser");
    let initial = "class OldName {}";
    parser.parse(initial).expect("Failed to parse initial");

    // Replace "OldName" with "NewName" (position 6 to 13, length 7)
    let edit = Edit::replace(6, 13, 7, 0, 6, 0, 13, 13);
    let new_source = "class NewName {}";

    parser.reparse(edit, new_source).expect("Failed to reparse");
    let tree = parser.tree().unwrap();
    assert!(!tree.root_node().has_error(), "Tree should not have errors");

    let classes = extract_classes(parser.root().unwrap(), new_source);
    assert_eq!(classes.len(), 1);
    assert_eq!(classes[0].name, "NewName");
}

#[test]
fn test_incremental_parser_multiple_edits() {
    let mut parser = IncrementalParser::new().expect("Failed to create parser");
    let initial = "class A {} class B {}";
    parser.parse(initial).expect("Failed to parse initial");

    // Make multiple insertions
    let edit1 = Edit::insert(7, 13, 0, 7); // Insert " implements X" after "class A"
    let new_source1 = "class A implements X {} class B {}";
    parser.reparse(edit1, new_source1).expect("Failed to reparse 1");

    let edit2 = Edit::insert(31, 13, 0, 31); // Insert " implements Y" after "class B"
    let new_source2 = "class A implements X {} class B implements Y {}";

    parser.reparse(edit2, new_source2).expect("Failed to reparse 2");
    let classes = extract_classes(parser.root().unwrap(), new_source2);
    assert_eq!(classes.len(), 2);
}

#[test]
fn test_incremental_parser_multiple_edits_batch() {
    let mut parser = IncrementalParser::new().expect("Failed to create parser");
    let initial = "class A {} class B {}";
    parser.parse(initial).expect("Failed to parse initial");

    // Apply multiple edits at once
    // Note: When using batch edits, positions should be relative to the first state
    let edits = vec![
        Edit::insert(7, 5, 0, 7),   // Insert "Final" after "class A"
        Edit::insert(17, 5, 0, 17), // Insert "Final" after "class B" (position in the first text)
    ];

    let new_source = "class AFinal {} class BFinal {}";
    parser.reparse_with_edits(&edits, new_source).expect("Failed to reparse");

    let classes = extract_classes(parser.root().unwrap(), new_source);
    assert_eq!(classes.len(), 2);
    // Note: Testing that batch edits work correctly
}

#[test]
fn methods_and_functions_are_found_by_their_signatures() {
    let source = "void myFunction() {}\n\nclass MyClass {\n    void myMethod() {}\n}\n";
    let tree = parse_dart(source).expect("Failed to parse");
    let root = syntax_of(&tree);
    let methods = extract_methods(&root, source);
    let names: Vec<&str> = methods.iter().map(|m| m.name.as_str()).collect();
    assert!(names.contains(&"myFunction"), "{:?}", names);
    assert!(names.contains(&"myMethod"), "{:?}", names);
    for m in &methods {
        assert_eq!(m.start_byte, m.node.start_byte);
        assert_eq!(m.end_byte, m.node.end_byte);
    }
}

#[test]
fn edits_describe_what_changed() {
    let insert = Edit::insert(13, 15, 2, 4);
    assert_eq!(
        (insert.start_byte, insert.old_end_byte, insert.new_end_byte),
        (13, 13, 28)
    );
    assert_eq!(insert.start_position, (2, 4));
    assert_eq!(insert.old_end_position, (2, 4));
    assert_eq!(insert.new_end_position, (2, 19));
    let delete = Edit::delete(13, 28, 0, 13, 1, 3);
    assert_eq!(
        (delete.start_byte, delete.old_end_byte, delete.new_end_byte),
        (13, 28, 13)
    );
    assert_eq!(delete.start_position, (0, 13));
    assert_eq!(delete.old_end_position, (1, 3));
    assert_eq!(delete.new_end_position, (0, 13));
    let replace = Edit::replace(6, 13, 9, 0, 6, 0, 13, 15);
    assert_eq!(
        (replace.start_byte, replace.old_end_byte, replace.new_end_byte),
        (6, 13, 15)
    );
    assert_eq!(replace.start_position, (0, 6));
    assert_eq!(replace.old_end_position, (0, 13));
    assert_eq!(replace.new_end_position, (0, 15));
}

#[test]
fn classes_carry_their_extent_and_node() {
    let source = "class A {}\nclass B {}";
    let tree = parse_dart(source).expect("Failed to parse");
    let root = syntax_of(&tree);
    let classes = extract_classes(&root, source);
    assert_eq!(classes.len(), 2);
    assert_eq!(&source[classes[0].start_byte..classes[0].end_byte], "class A {}");
    assert_eq!(&source[classes[1].start_byte..classes[1].end_byte], "class B {}");
    assert_eq!(classes[1].node.kind, "class_definition");
    assert_eq!(classes[1].node.start_point.row, 1);
    assert_eq!(classes[1].node.start_point.column, 0);
    assert_eq!(root.text(source).as_deref(), Some(source));
    assert_eq!(root.text("cl"), None);
    assert_eq!(root.kind, "program");
    assert!(!root.has_error);
    assert_eq!(root.children.len(), 2);
    assert_eq!(root.end_byte, source.len());
}

#[test]
fn the_copy_of_a_tree_holds_what_the_tree_holds() {
    fn same(node: tree_sitter::Node, copy: &dart_re_analyzer::treesitter::syntax::SyntaxNode) {
        assert_eq!(node.kind(), copy.kind);
        assert_eq!(node.start_byte(), copy.start_byte);
        assert_eq!(node.end_byte(), copy.end_byte);
        assert_eq!(node.start_position().row, copy.start_point.row);
        assert_eq!(node.start_position().column, copy.start_point.column);
        assert_eq!(node.end_position().row, copy.end_point.row);
        assert_eq!(node.end_position().column, copy.end_point.column);
        assert_eq!(node.has_error(), copy.has_error);
        assert_eq!(node.child_count() as usize, copy.children.len());
        match (node.child_by_field_name("name"), &copy.name) {
            (Some(n), Some(c)) => same(n, c),
            (None, None) => {}
            _ => panic!("the names differ"),
        }
        let mut cursor = node.walk();
        for (child, copied) in node.children(&mut cursor).zip(copy.children.iter()) {
            same(child, copied);
        }
    }
    let source = "import 'a.dart';\nclass A<T> { final int? x = 1; void f() { var y = [x]; } }\nclass {";
    let tree = parse_dart(source).expect("Failed to parse");
    let root = syntax_of(&tree);
    same(tree.root_node(), &root);
    assert!(root.has_error);
}

#[test]
fn fields_variables_and_types_are_told_in_full() {
    let source = "class C<T, E extends Exception> {\n  static final int count = 1;\n  String? name;\n  List<String> items;\n}\nvoid main() {\n  final String s = 'x';\n  var n = 1;\n}\n";
    let tree = parse_dart(source).expect("Failed to parse");
    let root = syntax_of(&tree);

    let fields = extract_fields(&root, source);
    let count = fields.iter().find(|f| f.name == "count").expect("the field count");
    assert!(count.is_static && count.is_final && !count.is_const);
    assert_eq!(count.type_annotation.as_deref(), Some("int"));
    assert_eq!(count.node.kind, "declaration");
    assert_eq!(count.start_byte, count.node.start_byte);
    assert_eq!(count.end_byte, count.node.end_byte);

    let variables = extract_variables(&root, source);
    let names: Vec<&str> = variables.iter().map(|v| v.name.as_str()).collect();
    assert_eq!(names, vec!["s", "n"]);
    assert!(variables[0].is_final && !variables[0].is_const);
    assert_eq!(variables[0].type_annotation.as_deref(), Some("String"));
    assert!(!variables[1].is_final);
    assert_eq!(variables[1].type_annotation.as_deref(), Some("var"));

    let annotations = extract_type_annotations(&root, source);
    let nullable: Vec<&str> = annotations.iter().filter(|t| t.is_nullable).map(|t| t.name.as_str()).collect();
    assert_eq!(nullable, vec!["String"]);
    let argument = annotations
        .iter()
        .find(|t| !t.type_parameters.is_empty())
        .expect("a type argument");
    assert_eq!(argument.name, "String");
    assert_eq!(argument.type_parameters, vec!["String"]);

    let parameters = extract_type_parameters(&root, source);
    let told: Vec<(&str, Option<&str>)> =
        parameters.iter().map(|p| (p.name.as_str(), p.bound.as_deref())).collect();
    assert_eq!(told, vec![("T", None), ("E", None)]);
    assert!(parameters.iter().all(|p| p.node.kind == "type_parameter"));

    let expressions = extract_expressions(&root, source);
    assert!(expressions.iter().any(|e| e.kind == "string_literal" && e.text == "'x'"));
}

#[test]
fn a_text_that_is_no_query_is_refused() {
    let source = "class A {}";
    let tree = parse_dart(source).expect("Failed to parse");
    let result = query_tree(&tree, source, "(no_such_node_kind) @x");
    match result {
        Err(e) => assert_eq!(e.to_string(), "Parse error: Failed to parse tree-sitter query"),
        Ok(_) => panic!("the query was accepted"),
    }
    let matches = query_tree(&tree, source, queries::CLASSES).expect("Query failed");
    assert_eq!(matches.len(), 1);
    assert_eq!(matches[0].pattern_index, 0);
    let told: Vec<(&str, &str)> = matches[0]
        .captures
        .iter()
        .map(|c| (c.name.as_str(), c.text.as_str()))
        .collect();
    assert!(told.contains(&("class.name", "A")));
    assert!(told.contains(&("class.def", "class A {}")));
    match query_tree(&tree, "cl", queries::CLASSES) {
        Err(e) => assert_eq!(e.to_string(), "Parse error: Source is shorter than the syntax tree"),
        Ok(_) => panic!("the short source was accepted"),
    }
    match query_tree(&tree, "", "((identifier) @i (#eq? @i \"A\"))") {
        Err(e) => assert_eq!(e.to_string(), "Parse error: Source is shorter than the syntax tree"),
        Ok(_) => panic!("the empty source was accepted"),
    }
    let other = "\u{e9}\u{e9}\u{e9}\u{e9}\u{e9}";
    assert_eq!(other.len(), source.len());
    let shown = query_tree(&tree, other, queries::CLASSES).expect("Query failed");
    let told: Vec<(&str, &str)> =
        shown[0].captures.iter().map(|c| (c.name.as_str(), c.text.as_str())).collect();
    assert!(told.contains(&("class.name", "<error>")));
    assert!(told.contains(&("class.def", other)));
    let longer = "class A {} // more";
    let found = query_tree(&tree, longer, "((identifier) @i (#eq? @i \"A\"))").expect("Query failed");
    assert_eq!(found.len(), 1);
}

#[test]
fn a_tree_is_written_one_line_for_each_node() {
    let source = "class A {}";
    let tree = parse_dart(source).expect("Failed to parse");
    let text = render_tree(&syntax_of(&tree), source).expect("the tree as text");
    let lines: Vec<&str> = text.lines().collect();
    assert_eq!(lines[0], "program [0..10] \"class A {}\"");
    assert_eq!(lines[1], "  class_definition [0..10] \"class A {}\"");
    assert!(lines.contains(&"    identifier [6..7] \"A\""), "{}", text);
    assert!(text.ends_with("\n"));
    let mut expected = 0;
    fn count(node: tree_sitter::Node) -> usize {
        let mut cursor = node.walk();
        1 + node.children(&mut cursor).map(count).sum::<usize>()
    }
    expected += count(tree.root_node());
    assert_eq!(lines.len(), expected);
}

#[test]
fn long_and_multi_line_texts_are_shown_in_part() {
    let long = format!("class A {{ var x = '{}'; }}\nclass B {{}}", "y".repeat(60));
    let tree = parse_dart(&long).expect("Failed to parse");
    let text = render_tree(&syntax_of(&tree), &long).expect("the tree as text");
    let first = text.lines().next().unwrap();
    assert_eq!(first, format!("program [0..{}] {:?}", long.len(), format!("{}...", &long[..50])));
    let cut = format!("class A {{ var x = '{}é'; }}", "y".repeat(30));
    assert!(cut.len() > 50 && !cut.is_char_boundary(50));
    let tree = parse_dart(&cut).expect("Failed to parse");
    assert_eq!(render_tree(&syntax_of(&tree), &cut), None);
}

#[test]
fn a_new_parser_has_the_grammar_of_dart() {
    let parser = dart_re_analyzer::treesitter::create_dart_parser().expect("the parser");
    assert!(parser.language().is_some());
    let incremental = IncrementalParser::new().expect("the parser");
    assert!(incremental.tree().is_none());
    assert!(incremental.root().is_none());
    assert_eq!(incremental.source(), "");
}

#[test]
fn a_source_is_parsed_as_a_parser_for_dart_parses_it() {
    for source in ["", "class A {}", "void f() { print(1); }\n", "class {"] {
        let tree = parse_dart(source).expect("Failed to parse");
        let mut parser = dart_re_analyzer::treesitter::create_dart_parser().expect("the parser");
        let expected = parser.parse(source, None).expect("a tree");
        assert_eq!(tree.root_node().to_sexp(), expected.root_node().to_sexp());
        assert_eq!(tree.root_node().end_byte(), source.len());
    }
    let a = parse_dart("class A {}").unwrap();
    let b = parse_dart("void f() {}").unwrap();
    assert_ne!(a.root_node().to_sexp(), b.root_node().to_sexp());
}

#[test]
fn matches_come_with_pattern_names_and_nodes_in_order() {
    let source = "class A {}\nclass Bee {}";
    let tree = parse_dart(source).expect("Failed to parse");
    let query = "(class_definition name: (identifier) @n) @c\n(identifier) @i";
    let matches = query_tree(&tree, source, query).expect("Query failed");
    let told: Vec<(usize, Vec<(&str, &str, usize)>)> = matches
        .iter()
        .map(|m| {
            (
                m.pattern_index,
                m.captures.iter().map(|c| (c.name.as_str(), c.text.as_str(), c.node.start_byte())).collect(),
            )
        })
        .collect();
    assert_eq!(
        told,
        vec![
            (0, vec![("c", "class A {}", 0), ("n", "A", 6)]),
            (1, vec![("i", "A", 6)]),
            (0, vec![("c", "class Bee {}", 11), ("n", "Bee", 17)]),
            (1, vec![("i", "Bee", 17)]),
        ]
    );
    assert!(query_tree(&tree, source, "((identifier) @i (#eq? @i \"Zed\"))").unwrap().is_empty());
    assert_eq!(query_tree(&tree, source, "((identifier) @i (#eq? @i \"Bee\"))").unwrap().len(), 1);
}

#[test]
fn a_parser_keeps_what_it_parsed_and_turns_to_the_new_text() {
    let mut parser = IncrementalParser::new().expect("Failed to create parser");
    parser.reparse(Edit::insert(0, 1, 0, 0), "class A {}").expect("Failed to parse");
    assert_eq!(parser.source(), "class A {}");
    let first = parser.tree().unwrap().root_node().to_sexp();
    assert_eq!(first, parse_dart("class A {}").unwrap().root_node().to_sexp());
    assert_eq!(parser.root().unwrap().end_byte, 10);
    parser.parse("void f() {}").expect("Failed to parse");
    assert_eq!(parser.source(), "void f() {}");
    assert_eq!(
        parser.tree().unwrap().root_node().to_sexp(),
        parse_dart("void f() {}").unwrap().root_node().to_sexp()
    );
    assert_eq!(parser.root().unwrap().end_byte, 11);
    assert_eq!(parser.root().unwrap().kind, "program");
    let classes = extract_classes(parser.root().unwrap(), parser.source());
    assert!(classes.is_empty());
}
