//! Template bodies of the files a new project starts with, and how a body
//! becomes the text of a file.

use vstd::prelude::*;

verus! {

/// What a template writes where the project's name belongs.
pub const PLACEHOLDER: &'static str = "<PROJECT>";

/// Manifest of an application.
pub const MANIFEST_BIN: &'static str = r#"
[project]
name = "<PROJECT>"
version = "0.1.0"
type = "bin"
"#;

/// Manifest of a library.
pub const MANIFEST_LIB: &'static str = r#"
[project]
name = "<PROJECT>"
version = "0.1.0"
type = "lib"
"#;

/// Top-level build description of an application.
pub const ROOT_BUILD_BIN: &'static str = r#"
project(
  '<PROJECT>',
  'c',
  version: '0.1.0',
)

subdir('src')
"#;

/// Top-level build description of a library.
pub const ROOT_BUILD_LIB: &'static str = r#"
project(
  '<PROJECT>',
  'c',
  version: '0.1.0',
)

include = include_directories('include')

subdir('include')
subdir('src')
subdir('tests')
"#;

/// Build description of a library's public headers.
pub const HEADER_BUILD: &'static str = r#"
install_headers('<PROJECT>.h')
"#;

/// Public header of a library.
pub const HEADER_SOURCE: &'static str = r#"
#pragma once

int add_two(int x, int y);
"#;

/// Build description of an application's sources.
pub const SOURCE_BUILD_BIN: &'static str = r#"
src = [
    'main.c'
]

bin = executable(
  '<PROJECT>',
  src,
)
"#;

/// First source file of an application.
pub const SOURCE_BIN: &'static str = r#"
#include <stdio.h>

int main(void) {
    printf("Hello, World!\n");
    return 0;
}
"#;

/// Build description of a library's sources.
pub const SOURCE_BUILD_LIB: &'static str = r#"
src = [
    'lib.c'
]
lib = library(
  '<PROJECT>',
  src,
  include_directories: include,
  install: true
)
"#;

/// First source file of a library.
pub const SOURCE_LIB: &'static str = r#"
#include <<PROJECT>.h>

int add_two(int x, int y) {
    return x + y;
}
"#;

/// Build description of a library's tests.
pub const TEST_BUILD: &'static str = r#"
tester = executable(
  'tester',
  'test.c',
  include_directories: include,
  link_with: lib
)

test('it_works', tester)
"#;

/// First test of a library.
pub const TEST_SOURCE: &'static str = r#"
#include <assert.h>
#include <<PROJECT>.h>

int main(void) {
    assert(add_two(1, 2) == 3);
    return 0;
}
"#;

/// Formatter settings.
pub const FORMAT_STYLE: &'static str = r#"
AccessModifierOffset: -2
AlignAfterOpenBracket: AlwaysBreak
AlignConsecutiveMacros: false
AlignConsecutiveAssignments: false
AlignConsecutiveDeclarations: false
AlignEscapedNewlines: DontAlign
AlignOperands: false
AlignTrailingComments: false
AllowAllArgumentsOnNextLine: false
AllowAllConstructorInitializersOnNextLine: false
AllowAllParametersOfDeclarationOnNextLine: false
AllowShortBlocksOnASingleLine: false
AllowShortCaseLabelsOnASingleLine: false
AllowShortFunctionsOnASingleLine: Empty
AllowShortIfStatementsOnASingleLine: Never
AllowShortLambdasOnASingleLine: All
AllowShortLoopsOnASingleLine: false
AlwaysBreakAfterReturnType: None
AlwaysBreakBeforeMultilineStrings: true
AlwaysBreakTemplateDeclarations: Yes
BinPackArguments: false
BinPackParameters: false
BreakBeforeBinaryOperators: NonAssignment
BreakBeforeBraces: Attach
BreakBeforeTernaryOperators: true
BreakConstructorInitializers: AfterColon
BreakInheritanceList: AfterColon
BreakStringLiterals: false
ColumnLimit: 80
CompactNamespaces: false
ConstructorInitializerAllOnOneLineOrOnePerLine: true
ConstructorInitializerIndentWidth: 4
ContinuationIndentWidth: 4
Cpp11BracedListStyle: true
DerivePointerAlignment: false
FixNamespaceComments: true
IncludeBlocks: Regroup
IncludeCategories:
  - Regex:           '^<ext/.*\.h>'
    Priority:        2
    SortPriority:    0
    CaseSensitive:   false
  - Regex:           '^<.*\.h>'
    Priority:        1
    SortPriority:    0
    CaseSensitive:   false
  - Regex:           '^<.*'
    Priority:        2
    SortPriority:    0
    CaseSensitive:   false
  - Regex:           '.*'
    Priority:        3
    SortPriority:    0
    CaseSensitive:   false
IncludeIsMainRegex: '([-_](test|unittest))?$'
IndentCaseLabels: true
IndentPPDirectives: BeforeHash
IndentWidth: 4
IndentWrappedFunctionNames: false
KeepEmptyLinesAtTheStartOfBlocks: false
MaxEmptyLinesToKeep: 1
NamespaceIndentation: Inner
PointerAlignment: Left
ReflowComments: false
SortIncludes: true
SortUsingDeclarations: true
SpaceAfterCStyleCast: false
SpaceAfterLogicalNot: false
SpaceAfterTemplateKeyword: false
SpaceBeforeAssignmentOperators: true
SpaceBeforeCpp11BracedList: true
SpaceBeforeCtorInitializerColon: true
SpaceBeforeInheritanceColon: false
SpaceBeforeParens: ControlStatements
SpaceBeforeRangeBasedForLoopColon: true
SpaceInEmptyParentheses: false
SpacesBeforeTrailingComments: 2
SpacesInAngles: false
SpacesInCStyleCastParentheses: false
SpacesInContainerLiterals: false
SpacesInParentheses: false
SpacesInSquareBrackets: false
Standard: Cpp11
TabWidth: 4
UseTab: Never
"#;

/// Paths that version control leaves out.
pub const IGNORE_RULES: &'static str = r#"
/target
"#;

/// Whether `c` is white space: the characters with the Unicode property
/// `White_Space`.
pub open spec fn is_space(c: char) -> bool {
    let n = c as u32;
    ||| 0x09 <= n <= 0x0D
    ||| n == 0x20
    ||| n == 0x85
    ||| n == 0xA0
    ||| n == 0x1680
    ||| 0x2000 <= n <= 0x200A
    ||| n == 0x2028
    ||| n == 0x2029
    ||| n == 0x202F
    ||| n == 0x205F
    ||| n == 0x3000
}

/// `s` without the white space it starts with.
pub open spec fn trim_start(s: Seq<char>) -> Seq<char>
    decreases s.len(),
{
    if s.len() > 0 && is_space(s[0]) {
        trim_start(s.skip(1))
    } else {
        s
    }
}

/// `s` without the white space it ends with.
pub open spec fn trim_end(s: Seq<char>) -> Seq<char>
    decreases s.len(),
{
    if s.len() > 0 && is_space(s.last()) {
        trim_end(s.drop_last())
    } else {
        s
    }
}

/// `s` without the white space around it.
pub open spec fn trim(s: Seq<char>) -> Seq<char> {
    trim_end(trim_start(s))
}

/// `text` with `value` in place of each occurrence of `pattern`, found from
/// left to right, an occurrence beginning only where the one before it has
/// ended. An empty pattern occurs nowhere.
pub open spec fn replace_all(text: Seq<char>, pattern: Seq<char>, value: Seq<char>) -> Seq<char>
    decreases text.len(),
{
    if text.len() == 0 {
        text
    } else if pattern.len() > 0 && pattern.is_prefix_of(text) {
        value + replace_all(text.skip(pattern.len() as int), pattern, value)
    } else {
        seq![text[0]] + replace_all(text.skip(1), pattern, value)
    }
}

/// The text of a file: the template without the white space around it, and
/// with the project's name in place of every placeholder.
pub open spec fn rendered(template: Seq<char>, project: Seq<char>) -> Seq<char> {
    replace_all(trim(template), PLACEHOLDER@, project)
}

/// Whether `c` is white space.
pub fn is_whitespace(c: char) -> (yes: bool)
    ensures
        yes == is_space(c),
{
    let n: u32 = c as u32;
    (0x09 <= n && n <= 0x0D) || n == 0x20 || n == 0x85 || n == 0xA0 || n == 0x1680 || (0x2000 <= n
        && n <= 0x200A) || n == 0x2028 || n == 0x2029 || n == 0x202F || n == 0x205F || n == 0x3000
}

/// Whether `pattern` stands in `text` at position `at`, within the first
/// `end` characters.
fn occurs_at(text: &str, at: usize, end: usize, pattern: &str, len: usize) -> (yes: bool)
    requires
        at <= end <= text@.len(),
        len == pattern@.len(),
    ensures
        yes == pattern@.is_prefix_of(text@.subrange(at as int, end as int)),
{
    if len > end - at {
        return false;
    }
    let ghost rest = text@.subrange(at as int, end as int);
    let mut k: usize = 0;
    while k < len
        invariant
            k <= len,
            len == pattern@.len(),
            at + len <= end <= text@.len(),
            rest == text@.subrange(at as int, end as int),
            forall|j: int| 0 <= j < k ==> rest[j] == pattern@[j],
        decreases len - k,
    {
        if text.get_char(at + k) != pattern.get_char(k) {
            assert(rest[k as int] != pattern@[k as int]);
            assert(rest.subrange(0, len as int)[k as int] == rest[k as int]);
            return false;
        }
        k = k + 1;
    }
    assert(rest.subrange(0, len as int) =~= pattern@);
    true
}

/// Renders a template for a project: strips the white space around the
/// template and puts the project's name in place of every placeholder.
pub fn render(template: &str, project: &str) -> (text: String)
    ensures
        text@ == rendered(template@, project@),
{
    let n = template.unicode_len();
    let plen = PLACEHOLDER.unicode_len();
    let mut start: usize = 0;
    assert(template@.skip(0) =~= template@);
    while start < n && is_whitespace(template.get_char(start))
        invariant
            start <= n == template@.len(),
            trim_start(template@) == trim_start(template@.skip(start as int)),
        decreases n - start,
    {
        assert(template@.skip(start as int).skip(1) =~= template@.skip(start as int + 1));
        start = start + 1;
    }
    assert(trim_start(template@) == template@.subrange(start as int, n as int)) by {
        assert(template@.skip(start as int) =~= template@.subrange(start as int, n as int));
    }
    let mut end: usize = n;
    while end > start && is_whitespace(template.get_char(end - 1))
        invariant
            start <= end <= n == template@.len(),
            trim(template@) == trim_end(template@.subrange(start as int, end as int)),
        decreases end,
    {
        assert(template@.subrange(start as int, end as int).drop_last() =~= template@.subrange(
            start as int,
            end as int - 1,
        ));
        end = end - 1;
    }
    let ghost body = template@.subrange(start as int, end as int);
    assert(trim(template@) == body);
    let mut out = String::new();
    let mut run: usize = start;
    let mut i: usize = start;
    while i < end
        invariant
            start <= run <= i <= end <= n == template@.len(),
            plen == PLACEHOLDER@.len(),
            body == template@.subrange(start as int, end as int),
            out@ + template@.subrange(run as int, i as int) + replace_all(
                template@.subrange(i as int, end as int),
                PLACEHOLDER@,
                project@,
            ) == replace_all(body, PLACEHOLDER@, project@),
        decreases end - i,
    {
        let ghost rest = template@.subrange(i as int, end as int);
        if plen > 0 && occurs_at(template, i, end, PLACEHOLDER, plen) {
            assert(rest.skip(plen as int) =~= template@.subrange(i as int + plen, end as int));
            out.append(template.substring_char(run, i));
            out.append(project);
            i = i + plen;
            run = i;
            assert(template@.subrange(run as int, i as int) =~= Seq::<char>::empty());
        } else {
            assert(rest.skip(1) =~= template@.subrange(i as int + 1, end as int));
            assert(template@.subrange(run as int, i as int) + seq![rest[0]]
                =~= template@.subrange(run as int, i as int + 1));
            i = i + 1;
        }
    }
    out.append(template.substring_char(run, end));
    assert(template@.subrange(end as int, end as int) =~= Seq::<char>::empty());
    out
}

} // verus!
