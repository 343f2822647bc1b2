//! The evaluation session: classification of input, names of declarations,
//! redefinition, and the accumulated source text.

use crate::text::{
    chars_of, contains_str, contains_text, find_char, first_token, first_word, index_of,
    join_lines, joined, lemma_index_of, lines, lines_of, slice_chars, starts_with_str, string_of,
    trim, trimmed, views,
};
use vstd::prelude::*;

verus! {

/// The text begins with a keyword that opens a declaration.
pub open spec fn starts_with_keyword(t: Seq<char>) -> bool {
    ||| "fn "@.is_prefix_of(t)
    ||| "pub fn"@.is_prefix_of(t)
    ||| "type "@.is_prefix_of(t)
    ||| "pub type"@.is_prefix_of(t)
    ||| "const "@.is_prefix_of(t)
    ||| "pub const"@.is_prefix_of(t)
    ||| "use "@.is_prefix_of(t)
    ||| "import "@.is_prefix_of(t)
    ||| "test "@.is_prefix_of(t)
    ||| "validator"@.is_prefix_of(t)
}

/// A declaration keyword occurs somewhere in the text.
pub open spec fn contains_keyword(t: Seq<char>) -> bool {
    ||| contains_text(t, "fn "@)
    ||| contains_text(t, "pub fn"@)
    ||| contains_text(t, "type "@)
    ||| contains_text(t, "pub type"@)
    ||| contains_text(t, "const "@)
    ||| contains_text(t, "pub const"@)
    ||| contains_text(t, "use "@)
    ||| contains_text(t, "import "@)
    ||| contains_text(t, "test "@)
    ||| contains_text(t, "validator"@)
}

/// Input is an expression unless, trimmed, it opens with a declaration
/// keyword, or spans several lines and holds such a keyword anywhere.
pub open spec fn expression_like(code: Seq<char>) -> bool {
    let t = trimmed(code);
    !starts_with_keyword(t) && !(t.contains('\n') && contains_keyword(t))
}

fn opens_with_keyword(t: &[char]) -> (r: bool)
    ensures
        r == starts_with_keyword(t@),
{
    starts_with_str(t, "fn ") || starts_with_str(t, "pub fn") || starts_with_str(t, "type ")
        || starts_with_str(t, "pub type") || starts_with_str(t, "const ") || starts_with_str(
        t,
        "pub const",
    ) || starts_with_str(t, "use ") || starts_with_str(t, "import ") || starts_with_str(
        t,
        "test ",
    ) || starts_with_str(t, "validator")
}

fn holds_keyword(t: &[char]) -> (r: bool)
    ensures
        r == contains_keyword(t@),
{
    contains_str(t, "fn ") || contains_str(t, "pub fn") || contains_str(t, "type ")
        || contains_str(t, "pub type") || contains_str(t, "const ") || contains_str(
        t,
        "pub const",
    ) || contains_str(t, "use ") || contains_str(t, "import ") || contains_str(t, "test ")
        || contains_str(t, "validator")
}

/// Classifies input as an expression (`true`) or a block of declarations.
pub fn looks_like_expression(code: &str) -> (r: bool)
    ensures
        r == expression_like(code@),
{
    let chars = chars_of(code);
    let t = trim(chars.as_slice());
    if opens_with_keyword(t.as_slice()) {
        return false;
    }
    let nl = find_char(t.as_slice(), 0, '\n');
    proof {
        assert(t@.subrange(0, t@.len() as int) =~= t@);
        lemma_index_of(t@, '\n');
    }
    if nl < t.len() {
        assert(t@.contains('\n'));
        if holds_keyword(t.as_slice()) {
            return false;
        }
    }
    true
}

/// What follows `prefix` in `line`, where `line` begins with it.
pub open spec fn after_prefix(line: Seq<char>, prefix: Seq<char>) -> Seq<char> {
    line.subrange(prefix.len() as int, line.len() as int)
}

/// The name in front of the first opening parenthesis, trimmed; the whole
/// text where there is no parenthesis.
pub open spec fn name_before_paren(rest: Seq<char>) -> Seq<char> {
    trimmed(rest.subrange(0, index_of(rest, '(')))
}

/// The name that a line declares as a function, if it opens with `pub fn `
/// or `fn `.
pub open spec fn declared_function(line: Seq<char>) -> Option<Seq<char>> {
    if "pub fn "@.is_prefix_of(line) {
        Some(name_before_paren(after_prefix(line, "pub fn "@)))
    } else if "fn "@.is_prefix_of(line) {
        Some(name_before_paren(after_prefix(line, "fn "@)))
    } else {
        None
    }
}

/// The name that a line declares as a constant: the first word after
/// `pub const ` or `const `.
pub open spec fn declared_constant(line: Seq<char>) -> Option<Seq<char>> {
    if "pub const "@.is_prefix_of(line) {
        first_word(after_prefix(line, "pub const "@))
    } else if "const "@.is_prefix_of(line) {
        first_word(after_prefix(line, "const "@))
    } else {
        None
    }
}

/// The name that a line declares as a type: the first word after
/// `pub type ` or `type `.
pub open spec fn declared_type(line: Seq<char>) -> Option<Seq<char>> {
    if "pub type "@.is_prefix_of(line) {
        first_word(after_prefix(line, "pub type "@))
    } else if "type "@.is_prefix_of(line) {
        first_word(after_prefix(line, "type "@))
    } else {
        None
    }
}

/// The rest of `line` behind `prefix`, if `line` begins with it.
pub fn strip_prefix(line: &[char], prefix: &str) -> (r: Option<Vec<char>>)
    ensures
        match r {
            Some(rest) => prefix@.is_prefix_of(line@) && rest@ == after_prefix(line@, prefix@),
            None => !prefix@.is_prefix_of(line@),
        },
{
    let p = chars_of(prefix);
    if crate::text::starts_with(line, p.as_slice()) {
        Some(slice_chars(line, p.len(), line.len()))
    } else {
        None
    }
}

fn before_paren(rest: &[char]) -> (name: Vec<char>)
    ensures
        name@ == name_before_paren(rest@),
{
    let end = find_char(rest, 0, '(');
    assert(rest@.subrange(0, rest@.len() as int) =~= rest@);
    let head = slice_chars(rest, 0, end);
    trim(head.as_slice())
}

/// The function name that a line declares, on characters.
pub fn function_name_of(line: &[char]) -> (r: Option<Vec<char>>)
    ensures
        match r {
            Some(n) => declared_function(line@) == Some(n@),
            None => declared_function(line@).is_none(),
        },
{
    match strip_prefix(line, "pub fn ") {
        Some(rest) => Some(before_paren(rest.as_slice())),
        None => match strip_prefix(line, "fn ") {
            Some(rest) => Some(before_paren(rest.as_slice())),
            None => None,
        },
    }
}

/// The constant name that a line declares, on characters.
pub fn constant_name_of(line: &[char]) -> (r: Option<Vec<char>>)
    ensures
        match r {
            Some(n) => declared_constant(line@) == Some(n@),
            None => declared_constant(line@).is_none(),
        },
{
    match strip_prefix(line, "pub const ") {
        Some(rest) => first_token(rest.as_slice()),
        None => match strip_prefix(line, "const ") {
            Some(rest) => first_token(rest.as_slice()),
            None => None,
        },
    }
}

/// The type name that a line declares, on characters.
pub fn type_name_of(line: &[char]) -> (r: Option<Vec<char>>)
    ensures
        match r {
            Some(n) => declared_type(line@) == Some(n@),
            None => declared_type(line@).is_none(),
        },
{
    match strip_prefix(line, "pub type ") {
        Some(rest) => first_token(rest.as_slice()),
        None => match strip_prefix(line, "type ") {
            Some(rest) => first_token(rest.as_slice()),
            None => None,
        },
    }
}

fn to_string_option(name: Option<Vec<char>>) -> (r: Option<String>)
    ensures
        match r {
            Some(s) => name.is_some() && s@ == name.unwrap()@,
            None => name.is_none(),
        },
{
    match name {
        Some(n) => Some(string_of(n.as_slice())),
        None => None,
    }
}

/// The function name that a line declares.
pub fn extract_function_name(line: &str) -> (r: Option<String>)
    ensures
        match r {
            Some(n) => declared_function(line@) == Some(n@),
            None => declared_function(line@).is_none(),
        },
{
    let chars = chars_of(line);
    to_string_option(function_name_of(chars.as_slice()))
}

/// The constant name that a line declares.
pub fn extract_constant_name(line: &str) -> (r: Option<String>)
    ensures
        match r {
            Some(n) => declared_constant(line@) == Some(n@),
            None => declared_constant(line@).is_none(),
        },
{
    let chars = chars_of(line);
    to_string_option(constant_name_of(chars.as_slice()))
}

/// The type name that a line declares.
pub fn extract_type_name(line: &str) -> (r: Option<String>)
    ensures
        match r {
            Some(n) => declared_type(line@) == Some(n@),
            None => declared_type(line@).is_none(),
        },
{
    let chars = chars_of(line);
    to_string_option(type_name_of(chars.as_slice()))
}

/// The kinds of declaration that the session tracks by name.
#[derive(Debug, Clone, Copy, PartialEq, Eq, Structural)]
pub enum DefinitionKind {
    Function,
    Type,
    Constant,
}

/// The names that a block of declarations introduces, each list without
/// repetition and in order of first appearance.
#[derive(Debug)]
pub struct DefinitionNames {
    pub functions: Vec<String>,
    pub constants: Vec<String>,
    pub types: Vec<String>,
}

/// The three name lists as sequences of texts.
pub struct NamesView {
    pub functions: Seq<Seq<char>>,
    pub constants: Seq<Seq<char>>,
    pub types: Seq<Seq<char>>,
}

/// The texts of a list of strings.
pub open spec fn texts(v: Seq<String>) -> Seq<Seq<char>> {
    v.map_values(|s: String| s@)
}

impl View for DefinitionNames {
    type V = NamesView;

    open spec fn view(&self) -> NamesView {
        NamesView {
            functions: texts(self.functions@),
            constants: texts(self.constants@),
            types: texts(self.types@),
        }
    }
}

impl NamesView {
    /// The list of one kind.
    pub open spec fn of_kind(self, kind: DefinitionKind) -> Seq<Seq<char>> {
        match kind {
            DefinitionKind::Function => self.functions,
            DefinitionKind::Constant => self.constants,
            DefinitionKind::Type => self.types,
        }
    }

    /// No list holds a name twice.
    pub open spec fn wf(self) -> bool {
        self.functions.no_duplicates() && self.constants.no_duplicates()
            && self.types.no_duplicates()
    }
}

/// The name of the given kind that a line declares.
pub open spec fn declared(kind: DefinitionKind, line: Seq<char>) -> Option<Seq<char>> {
    match kind {
        DefinitionKind::Function => declared_function(line),
        DefinitionKind::Constant => declared_constant(line),
        DefinitionKind::Type => declared_type(line),
    }
}

/// `names` with `name` added at the end unless it is absent or already there.
pub open spec fn with_name(names: Seq<Seq<char>>, name: Option<Seq<char>>) -> Seq<Seq<char>> {
    match name {
        Some(n) => if names.contains(n) {
            names
        } else {
            names.push(n)
        },
        None => names,
    }
}

/// The names of one kind that the lines declare, each once, in order of
/// first appearance. A line is trimmed before it is read.
pub open spec fn collected(kind: DefinitionKind, ls: Seq<Seq<char>>) -> Seq<Seq<char>>
    decreases ls.len(),
{
    if ls.len() == 0 {
        Seq::empty()
    } else {
        with_name(collected(kind, ls.drop_last()), declared(kind, trimmed(ls[ls.len() - 1])))
    }
}

/// Adding a name keeps a list free of repetition.
pub proof fn lemma_with_name_no_duplicates(names: Seq<Seq<char>>, name: Option<Seq<char>>)
    requires
        names.no_duplicates(),
    ensures
        with_name(names, name).no_duplicates(),
{
    if let Some(n) = name {
        if !names.contains(n) {
            let r = names.push(n);
            assert forall|i: int, j: int| 0 <= i < r.len() && 0 <= j < r.len() && i != j implies r[i]
                != r[j] by {
                if i == names.len() {
                    assert(names.contains(r[j]));
                } else if j == names.len() {
                    assert(names.contains(r[i]));
                }
            }
        }
    }
}

/// Whether the list holds the name.
pub fn holds_name(names: &Vec<String>, name: &String) -> (r: bool)
    ensures
        r == texts(names@).contains(name@),
{
    let mut i: usize = 0;
    while i < names.len()
        invariant
            i <= names.len(),
            forall|j: int| 0 <= j < i ==> texts(names@)[j] != name@,
        decreases names.len() - i,
    {
        if names[i] == *name {
            assert(texts(names@)[i as int] == name@);
            return true;
        }
        i += 1;
    }
    false
}

fn add_name(names: &mut Vec<String>, name: Option<Vec<char>>)
    ensures
        texts(final(names)@) == with_name(
            texts(old(names)@),
            match name {
                Some(n) => Some(n@),
                None => None,
            },
        ),
{
    if let Some(n) = name {
        let s = string_of(n.as_slice());
        if !holds_name(names, &s) {
            names.push(s);
            assert(texts(names@) =~= texts(old(names)@).push(n@));
        }
    }
}

/// Collects the names that a block of source text declares.
pub fn collect_definition_names(code: &str) -> (names: DefinitionNames)
    ensures
        names@.wf(),
        forall|kind: DefinitionKind|
            names@.of_kind(kind) == #[trigger] collected(kind, lines_of(code@)),
{
    let chars = chars_of(code);
    let ls = lines(chars.as_slice());
    let mut names = DefinitionNames {
        functions: Vec::new(),
        constants: Vec::new(),
        types: Vec::new(),
    };
    let mut i: usize = 0;
    assert(views(ls@).subrange(0, 0) =~= Seq::<Seq<char>>::empty());
    assert(texts(names.functions@) =~= Seq::<Seq<char>>::empty());
    assert(texts(names.constants@) =~= Seq::<Seq<char>>::empty());
    assert(texts(names.types@) =~= Seq::<Seq<char>>::empty());
    while i < ls.len()
        invariant
            i <= ls.len(),
            names@.wf(),
            forall|kind: DefinitionKind|
                names@.of_kind(kind) == #[trigger] collected(
                    kind,
                    views(ls@).subrange(0, i as int),
                ),
        decreases ls.len() - i,
    {
        let ghost before = names@;
        let line = trim(ls[i].as_slice());
        let f = function_name_of(line.as_slice());
        let c = constant_name_of(line.as_slice());
        let t = type_name_of(line.as_slice());
        add_name(&mut names.functions, f);
        add_name(&mut names.constants, c);
        add_name(&mut names.types, t);
        proof {
            let next = views(ls@).subrange(0, i + 1);
            assert(next.drop_last() =~= views(ls@).subrange(0, i as int));
            assert(next[next.len() - 1] == ls@[i as int]@);
            lemma_with_name_no_duplicates(before.functions, declared_function(line@));
            lemma_with_name_no_duplicates(before.constants, declared_constant(line@));
            lemma_with_name_no_duplicates(before.types, declared_type(line@));
            assert forall|kind: DefinitionKind|
                names@.of_kind(kind) == #[trigger] collected(kind, next) by {
                assert(before.of_kind(kind) == collected(kind, views(ls@).subrange(0, i as int)));
            }
        }
        i += 1;
    }
    assert(views(ls@).subrange(0, ls@.len() as int) =~= views(ls@));
    names
}

/// The line, trimmed, opens a declaration whose name is among `names`.
/// A line is read as a function first, then as a constant, then as a type.
pub open spec fn opens_replaced(line: Seq<char>, names: NamesView) -> bool {
    let t = trimmed(line);
    match declared_function(t) {
        Some(n) => names.functions.contains(n),
        None => match declared_constant(t) {
            Some(n) => names.constants.contains(n),
            None => match declared_type(t) {
                Some(n) => names.types.contains(n),
                None => false,
            },
        },
    }
}

/// The line, trimmed, opens a new top-level item, which ends the body of a
/// declaration that is being removed.
pub open spec fn opens_item(line: Seq<char>) -> bool {
    let t = trimmed(line);
    ||| "pub "@.is_prefix_of(t)
    ||| "const "@.is_prefix_of(t)
    ||| "fn "@.is_prefix_of(t)
    ||| "type "@.is_prefix_of(t)
    ||| "use "@.is_prefix_of(t)
}

/// The lines that stay when every declaration named in `names` is removed
/// with its body. `skipping` says that the line before belonged to a removed
/// declaration: then lines are dropped up to the next one that opens an item.
pub open spec fn kept_lines(ls: Seq<Seq<char>>, names: NamesView, skipping: bool) -> Seq<
    Seq<char>,
>
    decreases ls.len(),
{
    if ls.len() == 0 {
        Seq::empty()
    } else if skipping && !opens_item(ls[0]) {
        kept_lines(ls.drop_first(), names, true)
    } else if opens_replaced(ls[0], names) {
        kept_lines(ls.drop_first(), names, true)
    } else {
        seq![ls[0]] + kept_lines(ls.drop_first(), names, false)
    }
}

/// The accumulated text without the declarations that `names` replaces.
pub open spec fn without_definitions(definitions: Seq<char>, names: NamesView) -> Seq<char> {
    joined(kept_lines(lines_of(definitions), names, false))
}

fn line_opens_item(t: &[char]) -> (r: bool)
    ensures
        r == ("pub "@.is_prefix_of(t@) || "const "@.is_prefix_of(t@) || "fn "@.is_prefix_of(t@)
            || "type "@.is_prefix_of(t@) || "use "@.is_prefix_of(t@)),
{
    starts_with_str(t, "pub ") || starts_with_str(t, "const ") || starts_with_str(t, "fn ")
        || starts_with_str(t, "type ") || starts_with_str(t, "use ")
}

fn line_opens_replaced(t: &[char], names: &DefinitionNames) -> (r: bool)
    ensures
        r == match declared_function(t@) {
            Some(n) => names@.functions.contains(n),
            None => match declared_constant(t@) {
                Some(n) => names@.constants.contains(n),
                None => match declared_type(t@) {
                    Some(n) => names@.types.contains(n),
                    None => false,
                },
            },
        },
{
    if let Some(n) = function_name_of(t) {
        let s = string_of(n.as_slice());
        return holds_name(&names.functions, &s);
    }
    if let Some(n) = constant_name_of(t) {
        let s = string_of(n.as_slice());
        return holds_name(&names.constants, &s);
    }
    if let Some(n) = type_name_of(t) {
        let s = string_of(n.as_slice());
        return holds_name(&names.types, &s);
    }
    false
}

/// Removes from the accumulated text every declaration that `new_names`
/// is about to replace, so that a name can be defined anew.
pub fn remove_existing_definitions(definitions: &str, new_names: &DefinitionNames) -> (out: String)
    ensures
        out@ == without_definitions(definitions@, new_names@),
{
    let chars = chars_of(definitions);
    let ls = lines(chars.as_slice());
    let mut kept: Vec<Vec<char>> = Vec::new();
    let mut skipping = false;
    let mut i: usize = 0;
    let ghost all = views(ls@);
    assert(all.subrange(0, all.len() as int) =~= all);
    assert(views(kept@) =~= Seq::<Seq<char>>::empty());
    while i < ls.len()
        invariant
            i <= ls.len(),
            all == views(ls@),
            kept_lines(all, new_names@, false) == views(kept@) + kept_lines(
                all.subrange(i as int, all.len() as int),
                new_names@,
                skipping,
            ),
        decreases ls.len() - i,
    {
        let ghost rest = all.subrange(i as int, all.len() as int);
        let ghost shown = views(kept@);
        assert(rest[0] == ls@[i as int]@);
        assert(rest.drop_first() =~= all.subrange(i + 1, all.len() as int));
        let t = trim(ls[i].as_slice());
        if skipping && !line_opens_item(t.as_slice()) {
        } else if line_opens_replaced(t.as_slice(), new_names) {
            skipping = true;
        } else {
            let copy = slice_chars(ls[i].as_slice(), 0, ls[i].len());
            assert(copy@ =~= ls@[i as int]@);
            kept.push(copy);
            skipping = false;
            assert(views(kept@) =~= shown + seq![rest[0]]);
        }
        i += 1;
    }
    let text = join_lines(&kept);
    string_of(text.as_slice())
}

/// After the removal no line is left that opens a declaration under one of
/// the replaced names.
pub proof fn law_replaced_declarations_are_gone(
    ls: Seq<Seq<char>>,
    names: NamesView,
    skipping: bool,
    i: int,
)
    requires
        0 <= i < kept_lines(ls, names, skipping).len(),
    ensures
        !opens_replaced(kept_lines(ls, names, skipping)[i], names),
    decreases ls.len(),
{
    if ls.len() == 0 {
    } else if skipping && !opens_item(ls[0]) {
        law_replaced_declarations_are_gone(ls.drop_first(), names, true, i);
    } else if opens_replaced(ls[0], names) {
        law_replaced_declarations_are_gone(ls.drop_first(), names, true, i);
    } else if i > 0 {
        law_replaced_declarations_are_gone(ls.drop_first(), names, false, i - 1);
    }
}

/// Where no name is replaced, every line stays.
pub proof fn law_nothing_replaced_keeps_all(ls: Seq<Seq<char>>, names: NamesView)
    requires
        names.functions.len() == 0,
        names.constants.len() == 0,
        names.types.len() == 0,
    ensures
        kept_lines(ls, names, false) == ls,
    decreases ls.len(),
{
    if ls.len() > 0 {
        law_nothing_replaced_keeps_all(ls.drop_first(), names);
        assert(seq![ls[0]] + ls.drop_first() =~= ls);
    }
}

} // verus!
