//! Queries for what is often looked for in a Dart source.

use vstd::prelude::*;

verus! {

/// Finds all class definitions.
pub const CLASSES: &'static str = r#"
        (class_definition 
          name: (identifier) @class.name) @class.def
    "#;

/// Finds all method and function definitions.
pub const METHODS: &'static str = r#"
        [
          (method_signature) @method.def
          (function_signature) @function.def
        ]
    "#;

/// Finds all field declarations in classes.
pub const FIELDS: &'static str = r#"
        (class_member_definition
          (declaration) @field.decl)
    "#;

/// Finds all import statements.
pub const IMPORTS: &'static str = r#"
        (import_or_export) @import.stmt
    "#;

/// Finds all uses of the type `dynamic`.
pub const DYNAMIC_TYPES: &'static str = r#"
        (type_identifier) @type.name
        (#eq? @type.name "dynamic")
    "#;

/// Finds all calls of `print`.
pub const PRINT_CALLS: &'static str = r#"
        (selector_expression
          (identifier) @function (#eq? @function "print")
          (argument_part) @args)
    "#;

/// Finds empty catch blocks.
pub const EMPTY_CATCH: &'static str = r#"
        (catch_clause
          body: (block) @catch.body
          (#match? @catch.body "^\\{\\s*\\}$"))
    "#;

/// Finds null assertion operators.
pub const NULL_ASSERTIONS: &'static str = r#"
        (postfix_expression
          (identifier)
          "!" @null.assertion)
    "#;

/// Finds all variable declarations with a type annotation.
pub const TYPED_VARIABLES: &'static str = r#"
        (local_variable_declaration
          (initialized_variable_definition
            (type_identifier) @var.type
            (identifier) @var.name))
    "#;

/// Finds the type parameters of generic declarations.
pub const TYPE_PARAMETERS: &'static str = r#"
        (type_parameter
          (type_identifier) @param.name) @param.def
    "#;

} // verus!
