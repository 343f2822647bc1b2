//! The evaluator's state and results: what is sent to the evaluation engine
//! for one input, and what the session becomes once the engine has answered.

use crate::crypto::{hex_encode, hex_lower};
use crate::session::{
    collect_definition_names, collected, expression_like, looks_like_expression,
    remove_existing_definitions, texts, without_definitions, DefinitionKind, DefinitionNames,
    NamesView,
};
use crate::text::{
    chars_of, decimal, join, joined_by, lines_of, push_chars, push_decimal, push_str, string_of,
    views,
};
use vstd::prelude::*;

verus! {

/// Why an evaluation did not give a result.
#[derive(Debug, Clone)]
pub enum ReplError {
    /// The engine rejected the source; the text is its diagnostic.
    ProjectError(String),
    /// The engine could not write its working files.
    TempFileError(String),
    /// The engine ran and produced nothing.
    NoResult,
    /// The expression could not be evaluated.
    EvaluationFailed { message: String },
}

impl ReplError {
    /// The error as one line of text.
    pub open spec fn text(self) -> Seq<char> {
        match self {
            ReplError::ProjectError(_) => "REPL evaluation failed"@,
            ReplError::TempFileError(e) => "Failed to create temporary file: "@ + e@,
            ReplError::NoResult => "Evaluation produced no result"@,
            ReplError::EvaluationFailed { message } => "Expression evaluation failed: "@
                + message@,
        }
    }

    /// The error as one line of text.
    pub fn message(&self) -> (out: String)
        ensures
            out@ == self.text(),
    {
        let mut out: Vec<char> = Vec::new();
        match self {
            ReplError::ProjectError(_) => {
                push_str(&mut out, "REPL evaluation failed");
            },
            ReplError::TempFileError(e) => {
                push_str(&mut out, "Failed to create temporary file: ");
                push_str(&mut out, e.as_str());
            },
            ReplError::NoResult => {
                push_str(&mut out, "Evaluation produced no result");
            },
            ReplError::EvaluationFailed { message } => {
                push_str(&mut out, "Expression evaluation failed: ");
                push_str(&mut out, message.as_str());
            },
        }
        assert(out@ =~= self.text());
        string_of(out.as_slice())
    }
}

/// A term as the engine hands it back, reduced to what is shown of it.
#[derive(Debug, Clone)]
pub enum TermValue {
    /// An integer constant, in decimal.
    Integer(String),
    /// A byte-string constant.
    ByteString(Vec<u8>),
    /// A text constant.
    Text(String),
    /// A boolean constant.
    Bool(bool),
    /// The unit constant.
    Unit,
    /// A list constant, each item as the engine prints it.
    List(Vec<String>),
    /// A pair constant, each side as the engine prints it.
    Pair(String, String),
    /// Any other constant, as the engine prints it.
    Constant(String),
    /// A term that is no constant, as the engine prints it.
    Term(String),
}

impl TermValue {
    /// Whether the term is a constant.
    pub open spec fn is_constant_spec(self) -> bool {
        !(self is Term)
    }

    /// Whether the term is a constant.
    pub fn is_constant(&self) -> (r: bool)
        ensures
            r == self.is_constant_spec(),
    {
        match self {
            TermValue::Term(_) => false,
            _ => true,
        }
    }
}

/// How a term is displayed.
pub open spec fn term_text(term: TermValue) -> Seq<char> {
    match term {
        TermValue::Integer(i) => i@,
        TermValue::ByteString(bs) => seq!['#'] + hex_lower(bs@),
        TermValue::Text(s) => seq!['"'] + s@ + seq!['"'],
        TermValue::Bool(b) => if b {
            "True"@
        } else {
            "False"@
        },
        TermValue::Unit => "Void"@,
        TermValue::List(items) => seq!['['] + joined_by(texts(items@), ", "@) + seq![']'],
        TermValue::Pair(first, second) => "Pair("@ + first@ + ", "@ + second@ + ")"@,
        TermValue::Constant(c) => c@,
        TermValue::Term(t) => t@,
    }
}

/// The characters of each string of a list.
pub fn chars_of_all(items: &Vec<String>) -> (out: Vec<Vec<char>>)
    ensures
        views(out@) == texts(items@),
{
    let mut out: Vec<Vec<char>> = Vec::new();
    let mut i: usize = 0;
    while i < items.len()
        invariant
            i <= items.len(),
            views(out@) == texts(items@).subrange(0, i as int),
        decreases items.len() - i,
    {
        let ghost before = views(out@);
        let c = chars_of(items[i].as_str());
        assert(c@ == texts(items@)[i as int]);
        out.push(c);
        assert(views(out@) =~= before.push(c@));
        i += 1;
        assert(views(out@) =~= texts(items@).subrange(0, i as int));
    }
    assert(texts(items@).subrange(0, items@.len() as int) =~= texts(items@));
    out
}

/// Displays a term.
pub fn term_to_string(term: &TermValue) -> (out: String)
    ensures
        out@ == term_text(*term),
{
    let mut out: Vec<char> = Vec::new();
    match term {
        TermValue::Integer(i) => {
            push_str(&mut out, i.as_str());
        },
        TermValue::ByteString(bs) => {
            out.push('#');
            let hex = hex_encode(bs.as_slice());
            push_str(&mut out, hex.as_str());
        },
        TermValue::Text(s) => {
            out.push('"');
            push_str(&mut out, s.as_str());
            out.push('"');
        },
        TermValue::Bool(b) => {
            if *b {
                push_str(&mut out, "True");
            } else {
                push_str(&mut out, "False");
            }
        },
        TermValue::Unit => {
            push_str(&mut out, "Void");
        },
        TermValue::List(items) => {
            out.push('[');
            let parts = chars_of_all(items);
            let sep = chars_of(", ");
            let inner = join(&parts, sep.as_slice());
            push_chars(&mut out, inner.as_slice());
            out.push(']');
        },
        TermValue::Pair(first, second) => {
            push_str(&mut out, "Pair(");
            push_str(&mut out, first.as_str());
            push_str(&mut out, ", ");
            push_str(&mut out, second.as_str());
            push_str(&mut out, ")");
        },
        TermValue::Constant(c) => {
            push_str(&mut out, c.as_str());
        },
        TermValue::Term(t) => {
            push_str(&mut out, t.as_str());
        },
    }
    assert(out@ =~= term_text(*term));
    string_of(out.as_slice())
}

/// What one evaluation produced.
#[allow(inconsistent_fields)]
#[derive(Debug, Clone)]
pub enum EvaluationResult {
    /// A value was computed: its display text, its type, and the constant
    /// behind it where the term is one.
    Value { value: String, tipo: String, uplc_result: Option<TermValue> },
    /// Declarations were added.
    Definition { name: String, kind: DefinitionKind, tipo: Option<String> },
    /// Nothing to show.
    NoResult,
}

/// The word for a kind of declaration.
pub open spec fn kind_text(kind: DefinitionKind) -> Seq<char> {
    match kind {
        DefinitionKind::Function => "function"@,
        DefinitionKind::Type => "type"@,
        DefinitionKind::Constant => "constant"@,
    }
}

impl EvaluationResult {
    /// The result as the user sees it.
    pub open spec fn shown(self) -> Seq<char> {
        match self {
            EvaluationResult::Value { value, tipo, uplc_result } => value@ + " : "@ + tipo@,
            EvaluationResult::Definition { name, kind, tipo } => match tipo {
                Some(t) => "Defined "@ + kind_text(kind) + " "@ + name@ + " : "@ + t@,
                None => "Defined "@ + kind_text(kind) + " "@ + name@,
            },
            EvaluationResult::NoResult => Seq::empty(),
        }
    }

    /// The result as the user sees it.
    pub fn display(&self) -> (out: String)
        ensures
            out@ == self.shown(),
    {
        let mut out: Vec<char> = Vec::new();
        match self {
            EvaluationResult::Value { value, tipo, uplc_result } => {
                push_str(&mut out, value.as_str());
                push_str(&mut out, " : ");
                push_str(&mut out, tipo.as_str());
            },
            EvaluationResult::Definition { name, kind, tipo } => {
                push_str(&mut out, "Defined ");
                match kind {
                    DefinitionKind::Function => push_str(&mut out, "function"),
                    DefinitionKind::Type => push_str(&mut out, "type"),
                    DefinitionKind::Constant => push_str(&mut out, "constant"),
                }
                push_str(&mut out, " ");
                push_str(&mut out, name.as_str());
                if let Some(t) = tipo {
                    push_str(&mut out, " : ");
                    push_str(&mut out, t.as_str());
                }
            },
            EvaluationResult::NoResult => {},
        }
        assert(out@ =~= self.shown());
        string_of(out.as_slice())
    }
}

/// What the evaluation engine is asked to do for one input.
#[allow(inconsistent_fields)]
#[derive(Debug)]
pub enum EvalRequest {
    /// Compile `module_code`, run its function `fn_name`, and report the value.
    Expression { fn_name: String, module_code: String },
    /// Type-check `module_code`; it becomes the session's text if it passes.
    Definitions { names: DefinitionNames, module_code: String },
}

/// The name of the function that wraps the `n`-th expression.
pub open spec fn wrapper_name(n: nat) -> Seq<char> {
    "repl_eval_"@ + decimal(n)
}

/// An expression as the body of a public function without arguments.
pub open spec fn wrapped_expression(name: Seq<char>, code: Seq<char>) -> Seq<char> {
    "pub fn "@ + name + "() { "@ + code + " }"@
}

/// The accumulated text, an empty line, and what is added to it.
pub open spec fn module_with(definitions: Seq<char>, addition: Seq<char>) -> Seq<char> {
    definitions + "\n\n"@ + addition
}

/// The counter after one more expression; it wraps at the end of its range.
pub open spec fn next_counter(counter: u64) -> u64 {
    if counter == u64::MAX {
        0
    } else {
        (counter + 1) as u64
    }
}

/// `job` asks for `code` to be run as the expression numbered `counter`
/// against `definitions`.
pub open spec fn is_expression_request(
    job: EvalRequest,
    definitions: Seq<char>,
    counter: u64,
    code: Seq<char>,
) -> bool {
    &&& job matches EvalRequest::Expression { fn_name, module_code }
    &&& fn_name@ == wrapper_name(counter as nat)
    &&& module_code@ == module_with(definitions, wrapped_expression(fn_name@, code))
}

/// `job` asks for `code` to be checked as declarations that replace those of
/// the same names in `definitions`.
pub open spec fn is_definitions_request(
    job: EvalRequest,
    definitions: Seq<char>,
    code: Seq<char>,
) -> bool {
    &&& job matches EvalRequest::Definitions { names, module_code }
    &&& names@.wf()
    &&& forall|kind: DefinitionKind|
        names@.of_kind(kind) == #[trigger] collected(kind, lines_of(code))
    &&& module_code@ == module_with(without_definitions(definitions, names@), code)
}

/// All names of a block: functions, then constants, then types.
pub open spec fn all_names(names: NamesView) -> Seq<Seq<char>> {
    names.functions + names.constants + names.types
}

/// The kind of the only name of a block that declares one name.
pub open spec fn only_kind(names: NamesView) -> DefinitionKind {
    if names.functions.len() > 0 {
        DefinitionKind::Function
    } else if names.constants.len() > 0 {
        DefinitionKind::Constant
    } else {
        DefinitionKind::Type
    }
}

/// `result` reports the declarations `names`: nothing for none, the name and
/// its kind for one, and for several a list of all of them.
pub open spec fn reports(result: EvaluationResult, names: NamesView) -> bool {
    let all = all_names(names);
    if all.len() == 0 {
        result is NoResult
    } else if all.len() == 1 {
        &&& result matches EvaluationResult::Definition { name, kind, tipo }
        &&& name@ == all[0]
        &&& kind == only_kind(names)
        &&& tipo is None
    } else {
        &&& result matches EvaluationResult::Definition { name, kind, tipo }
        &&& name@ == "Multiple definitions: "@ + joined_by(all, ", "@)
        &&& kind == DefinitionKind::Function
        &&& tipo is None
    }
}

/// `result` is what the engine's answer to an expression amounts to: the
/// displayed value with its type, or a failure that quotes the engine.
pub open spec fn is_expression_result(
    result: Result<EvaluationResult, ReplError>,
    outcome: Result<TermValue, String>,
    tipo: Seq<char>,
) -> bool {
    match outcome {
        Ok(term) => {
            &&& result matches Ok(EvaluationResult::Value { value, tipo: t, uplc_result })
            &&& value@ == term_text(term)
            &&& t@ == tipo
            &&& uplc_result == if term.is_constant_spec() {
                Some(term)
            } else {
                None
            }
        },
        Err(err) => {
            &&& result matches Err(ReplError::EvaluationFailed { message })
            &&& message@ == "Evaluation failed: "@ + err@
        },
    }
}

/// Turns the engine's answer to an expression into the evaluation's result.
pub fn expression_result(outcome: Result<TermValue, String>, tipo: String) -> (result: Result<
    EvaluationResult,
    ReplError,
>)
    ensures
        is_expression_result(result, outcome, tipo@),
{
    match outcome {
        Ok(term) => {
            let value = term_to_string(&term);
            let uplc_result = if term.is_constant() {
                Some(term)
            } else {
                None
            };
            Ok(EvaluationResult::Value { value, tipo, uplc_result })
        },
        Err(err) => {
            let mut out: Vec<char> = Vec::new();
            push_str(&mut out, "Evaluation failed: ");
            push_str(&mut out, err.as_str());
            assert(out@ =~= "Evaluation failed: "@ + err@);
            Err(ReplError::EvaluationFailed { message: string_of(out.as_slice()) })
        },
    }
}

/// The session: the accumulated source text and the number of the next
/// expression wrapper.
#[derive(Debug)]
pub struct ReplEvaluator {
    /// All declarations accepted so far.
    pub definitions: String,
    /// How many expressions were wrapped since the start or the last reset.
    pub eval_counter: u64,
}

impl ReplEvaluator {
    /// A session without declarations.
    pub fn new() -> (repl: ReplEvaluator)
        ensures
            repl.definitions@ == Seq::<char>::empty(),
            repl.eval_counter == 0,
    {
        ReplEvaluator { definitions: String::new(), eval_counter: 0 }
    }

    /// Forgets all declarations and starts numbering anew.
    pub fn reset(&mut self)
        ensures
            final(self).definitions@ == Seq::<char>::empty(),
            final(self).eval_counter == 0,
    {
        self.definitions = String::new();
        self.eval_counter = 0;
    }

    /// The accumulated text, or a note that there is none.
    pub fn context_info(&self) -> (out: String)
        ensures
            out@ == if self.definitions@.len() == 0 {
                "Empty context"@
            } else {
                self.definitions@
            },
    {
        let chars = chars_of(self.definitions.as_str());
        if chars.len() == 0 {
            let note = chars_of("Empty context");
            string_of(note.as_slice())
        } else {
            string_of(chars.as_slice())
        }
    }

    /// Classifies the input and prepares the engine's task for it. An
    /// expression takes the next wrapper number; declarations change nothing
    /// until they are committed.
    pub fn eval(&mut self, code: &str) -> (job: EvalRequest)
        ensures
            final(self).definitions@ == old(self).definitions@,
            expression_like(code@) ==> is_expression_request(
                job,
                old(self).definitions@,
                old(self).eval_counter,
                code@,
            ) && final(self).eval_counter == next_counter(old(self).eval_counter),
            !expression_like(code@) ==> is_definitions_request(job, old(self).definitions@, code@)
                && final(self).eval_counter == old(self).eval_counter,
    {
        if looks_like_expression(code) {
            self.eval_expression(code)
        } else {
            self.eval_definitions(code)
        }
    }

    /// Wraps an expression in a function of a fresh name and puts it behind
    /// the accumulated declarations.
    pub fn eval_expression(&mut self, code: &str) -> (job: EvalRequest)
        ensures
            final(self).definitions@ == old(self).definitions@,
            final(self).eval_counter == next_counter(old(self).eval_counter),
            is_expression_request(job, old(self).definitions@, old(self).eval_counter, code@),
    {
        let count = self.eval_counter;
        self.eval_counter = if count == u64::MAX {
            0
        } else {
            count + 1
        };
        let mut name: Vec<char> = Vec::new();
        push_str(&mut name, "repl_eval_");
        push_decimal(&mut name, count);
        assert(name@ =~= wrapper_name(count as nat));
        let mut module: Vec<char> = Vec::new();
        push_str(&mut module, self.definitions.as_str());
        push_str(&mut module, "\n\n");
        push_str(&mut module, "pub fn ");
        push_chars(&mut module, name.as_slice());
        push_str(&mut module, "() { ");
        push_str(&mut module, code);
        push_str(&mut module, " }");
        assert(module@ =~= module_with(self.definitions@, wrapped_expression(name@, code@)));
        EvalRequest::Expression {
            fn_name: string_of(name.as_slice()),
            module_code: string_of(module.as_slice()),
        }
    }

    /// Reads the names that the new text declares, removes the declarations
    /// that they replace, and puts the new text behind what is left.
    pub fn eval_definitions(&self, code: &str) -> (job: EvalRequest)
        ensures
            is_definitions_request(job, self.definitions@, code@),
    {
        let names = collect_definition_names(code);
        let left = remove_existing_definitions(self.definitions.as_str(), &names);
        let mut module: Vec<char> = Vec::new();
        push_str(&mut module, left.as_str());
        push_str(&mut module, "\n\n");
        push_str(&mut module, code);
        assert(module@ =~= module_with(without_definitions(self.definitions@, names@), code@));
        EvalRequest::Definitions { names, module_code: string_of(module.as_slice()) }
    }

    /// Ends an evaluation of declarations. If the engine accepted the text it
    /// becomes the session's text and the declared names are reported; if
    /// not, the session stays as it was and the engine's error is returned.
    pub fn commit_definitions(
        &mut self,
        names: &DefinitionNames,
        module_code: String,
        checked: Result<(), ReplError>,
    ) -> (result: Result<EvaluationResult, ReplError>)
        ensures
            final(self).eval_counter == old(self).eval_counter,
            match checked {
                Ok(_) => final(self).definitions@ == module_code@ && result.is_ok() && reports(
                    result.unwrap(),
                    names@,
                ),
                Err(e) => final(self).definitions@ == old(self).definitions@ && result == Err::<
                    EvaluationResult,
                    ReplError,
                >(e),
            },
    {
        match checked {
            Err(e) => Err(e),
            Ok(_) => {
                self.definitions = module_code;
                Ok(report_definitions(names))
            },
        }
    }
}

/// Reports the names that a committed block declared.
pub fn report_definitions(names: &DefinitionNames) -> (result: EvaluationResult)
    ensures
        reports(result, names@),
{
    let f = names.functions.len();
    let c = names.constants.len();
    let t = names.types.len();
    if f == 0 && c == 0 && t == 0 {
        return EvaluationResult::NoResult;
    }
    let mut all = chars_of_all(&names.functions);
    let mut cs = chars_of_all(&names.constants);
    let mut ts = chars_of_all(&names.types);
    all.append(&mut cs);
    all.append(&mut ts);
    assert(views(all@) =~= all_names(names@));
    if all.len() == 1 {
        let kind = if f > 0 {
            DefinitionKind::Function
        } else if c > 0 {
            DefinitionKind::Constant
        } else {
            DefinitionKind::Type
        };
        assert(views(all@)[0] == all@[0]@);
        EvaluationResult::Definition { name: string_of(all[0].as_slice()), kind, tipo: None }
    } else {
        let sep = chars_of(", ");
        let list = join(&all, sep.as_slice());
        let mut name: Vec<char> = Vec::new();
        push_str(&mut name, "Multiple definitions: ");
        push_chars(&mut name, list.as_slice());
        EvaluationResult::Definition {
            name: string_of(name.as_slice()),
            kind: DefinitionKind::Function,
            tipo: None,
        }
    }
}

} // verus!
