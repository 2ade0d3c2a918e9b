//! Rewriting a fixture's binding test for the local test framework.
//!
//! Upstream binding tests come in three known shapes. The file is not parsed:
//! markers in its text select one of three fixed replacements.

use crate::text::{contains, occurs_in};
use vstd::prelude::*;

verus! {

/// The replacement for the test of a grammar repository that exports the two
/// PHP grammars.
pub const PHP_TEMPLATE: &'static str = "import { describe, it, expect } from \"bun:test\";
import Parser from \"tree-sitter\";

const { php, php_only } = await import(\"../../index.js\");

describe(\"PHP\", () => {
  const parser = new Parser();
  parser.setLanguage(php);

  it(\"should be named php\", () => {
    expect(parser.getLanguage().name).toBe(\"php\");
  });

  it(\"should parse source code\", () => {
    const sourceCode = \"<?php echo 'Hello, World!';\";
    const tree = parser.parse(sourceCode);
    expect(tree.rootNode.hasError).toBe(false);
  });
});

describe(\"PHP Only\", () => {
  const parser = new Parser();
  parser.setLanguage(php_only);

  it(\"should be named php_only\", () => {
    expect(parser.getLanguage().name).toBe(\"php_only\");
  });

  it(\"should parse source code\", () => {
    const sourceCode = \"echo 'Hello, World!';\";
    const tree = parser.parse(sourceCode);
    expect(tree.rootNode.hasError).toBe(false);
  });
});
";

/// The replacement for the test of the repository that holds the TypeScript
/// and the TSX grammar.
pub const TYPESCRIPT_TEMPLATE: &'static str = "import { test, expect } from \"bun:test\";
import Parser from \"tree-sitter\";

test(\"can load TypeScript grammar\", async () => {
  const parser = new Parser();
  const { default: language } = await import(\"./typescript/index.js\");
  expect(() => parser.setLanguage(language)).not.toThrow();
});

test(\"can load TSX grammar\", async () => {
  const parser = new Parser();
  const { default: language } = await import(\"./tsx/index.js\");
  expect(() => parser.setLanguage(language)).not.toThrow();
});
";

/// The replacement for the test of a repository with a single grammar.
pub const SINGLE_TEMPLATE: &'static str = "import { test, expect } from \"bun:test\";
import Parser from \"tree-sitter\";

test(\"can load grammar\", async () => {
  const parser = new Parser();
  const { default: language } = await import(\"./index.js\");
  expect(() => parser.setLanguage(language)).not.toThrow();
});
";

/// The shape of an upstream binding test.
#[derive(Clone, Copy, Debug, PartialEq, Eq, Structural)]
pub enum BindingShape {
    /// Two PHP grammars behind named exports.
    Php,
    /// The TypeScript and the TSX grammar, each in a directory of its own.
    TypeScript,
    /// One grammar: every other repository.
    Single,
}

/// Why a binding test is left as it is.
#[derive(Clone, Copy, Debug, PartialEq, Eq, Structural)]
pub enum BindingError {
    /// The file already uses the local test framework.
    AlreadyRewritten,
    /// The file does not use the framework that the replacements stand for.
    NotLegacy,
}

/// Whether a text names the local test framework.
pub open spec fn names_local_framework(content: Seq<char>) -> bool {
    occurs_in("bun:test"@, content)
}

/// Whether a text names the framework of the upstream tests.
pub open spec fn names_legacy_framework(content: Seq<char>) -> bool {
    occurs_in("node:test"@, content)
}

/// The shape that the markers in a text select. The PHP marker wins over the
/// TypeScript markers; a text with none of them has the single-grammar shape.
pub open spec fn shape_of(content: Seq<char>) -> BindingShape {
    if occurs_in("php_only"@, content) {
        BindingShape::Php
    } else if occurs_in("./typescript"@, content) || occurs_in("./tsx"@, content) {
        BindingShape::TypeScript
    } else {
        BindingShape::Single
    }
}

/// The replacement text for a shape.
pub open spec fn template_text(shape: BindingShape) -> Seq<char> {
    match shape {
        BindingShape::Php => PHP_TEMPLATE@,
        BindingShape::TypeScript => TYPESCRIPT_TEMPLATE@,
        BindingShape::Single => SINGLE_TEMPLATE@,
    }
}

/// What becomes of a binding test: the replacement for its shape where it uses
/// the upstream framework and not yet the local one; else the reason why the
/// file stays.
pub open spec fn rewritten_test(content: Seq<char>) -> Result<Seq<char>, BindingError> {
    if names_local_framework(content) {
        Err(BindingError::AlreadyRewritten)
    } else if !names_legacy_framework(content) {
        Err(BindingError::NotLegacy)
    } else {
        Ok(template_text(shape_of(content)))
    }
}

/// Tells the shape of an upstream binding test by the markers in its text.
pub fn classify(content: &str) -> (shape: BindingShape)
    ensures
        shape == shape_of(content@),
{
    if contains(content, "php_only") {
        BindingShape::Php
    } else if contains(content, "./typescript") || contains(content, "./tsx") {
        BindingShape::TypeScript
    } else {
        BindingShape::Single
    }
}

/// The replacement text for a shape.
pub fn template(shape: BindingShape) -> (text: &'static str)
    ensures
        text@ == template_text(shape),
{
    match shape {
        BindingShape::Php => PHP_TEMPLATE,
        BindingShape::TypeScript => TYPESCRIPT_TEMPLATE,
        BindingShape::Single => SINGLE_TEMPLATE,
    }
}

/// The new content of a binding test file, or the reason to leave the file as
/// it is.
pub fn rewrite_binding_test(content: &str) -> (r: Result<&'static str, BindingError>)
    ensures
        match r {
            Ok(text) => rewritten_test(content@) == Ok::<Seq<char>, BindingError>(text@),
            Err(e) => rewritten_test(content@) == Err::<Seq<char>, BindingError>(e),
        },
{
    if contains(content, "bun:test") {
        Err(BindingError::AlreadyRewritten)
    } else if !contains(content, "node:test") {
        Err(BindingError::NotLegacy)
    } else {
        Ok(template(classify(content)))
    }
}

/// A test with the PHP marker, in need of rewriting, becomes the PHP
/// replacement, whatever else it holds.
pub proof fn law_php_marker_selects_php(content: Seq<char>)
    requires
        names_legacy_framework(content),
        !names_local_framework(content),
        occurs_in("php_only"@, content),
    ensures
        rewritten_test(content) == Ok::<Seq<char>, BindingError>(PHP_TEMPLATE@),
{
}

/// A test with a TypeScript marker and without the PHP marker, in need of
/// rewriting, becomes the TypeScript replacement.
pub proof fn law_typescript_marker_selects_typescript(content: Seq<char>)
    requires
        names_legacy_framework(content),
        !names_local_framework(content),
        !occurs_in("php_only"@, content),
        occurs_in("./typescript"@, content) || occurs_in("./tsx"@, content),
    ensures
        rewritten_test(content) == Ok::<Seq<char>, BindingError>(TYPESCRIPT_TEMPLATE@),
{
}

/// A test without any marker, in need of rewriting, becomes the single-grammar
/// replacement.
pub proof fn law_unmarked_selects_single(content: Seq<char>)
    requires
        names_legacy_framework(content),
        !names_local_framework(content),
        !occurs_in("php_only"@, content),
        !occurs_in("./typescript"@, content),
        !occurs_in("./tsx"@, content),
    ensures
        rewritten_test(content) == Ok::<Seq<char>, BindingError>(SINGLE_TEMPLATE@),
{
}

/// A test that already names the local framework is never rewritten.
pub proof fn law_rewritten_test_stays(content: Seq<char>)
    requires
        names_local_framework(content),
    ensures
        rewritten_test(content) == Err::<Seq<char>, BindingError>(BindingError::AlreadyRewritten),
{
}

} // verus!
