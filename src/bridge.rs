use vstd::prelude::*;

verus! {

/// The text shown where a script value has no text form.
pub const PLACEHOLDER: &'static str = "[Unknown]";

/// A value of the script interpreter, as the host sees it.
#[derive(Debug, PartialEq, Eq)]
pub enum ScriptValue {
    Nil,
    Boolean(bool),
    /// A number, held as the text the interpreter renders it as.
    Number(String),
    Text(String),
    /// A handle of a shared cell, by its index in the cell store.
    Cell(usize),
    /// A table, a function or another value without a text form.
    Other,
}

/// The mathematical model of a `ScriptValue`.
pub enum ScriptVal {
    Nil,
    Boolean(bool),
    Number(Seq<char>),
    Text(Seq<char>),
    Cell(nat),
    Other,
}

impl View for ScriptValue {
    type V = ScriptVal;

    open spec fn view(&self) -> ScriptVal {
        match self {
            ScriptValue::Nil => ScriptVal::Nil,
            ScriptValue::Boolean(b) => ScriptVal::Boolean(*b),
            ScriptValue::Number(s) => ScriptVal::Number(s@),
            ScriptValue::Text(s) => ScriptVal::Text(s@),
            ScriptValue::Cell(i) => ScriptVal::Cell(*i as nat),
            ScriptValue::Other => ScriptVal::Other,
        }
    }
}

/// A script value that cannot be read as the host type asked for.
#[derive(Debug, Clone, Copy, PartialEq, Eq)]
pub struct ConversionError;

/// The text form of a script value: strings as they are, numbers as the
/// interpreter renders them; nothing else has one.
pub open spec fn text_of(v: ScriptVal) -> Option<Seq<char>> {
    match v {
        ScriptVal::Text(s) => Some(s),
        ScriptVal::Number(s) => Some(s),
        _ => None,
    }
}

/// What a text-producing call site shows for a script value.
pub open spec fn display_text(v: ScriptVal) -> Seq<char> {
    match text_of(v) {
        Some(s) => s,
        None => PLACEHOLDER@,
    }
}

/// The text to show for `v`, with the placeholder where `v` has no text form.
pub fn label_text(v: &ScriptValue) -> (r: String)
    ensures
        r@ == display_text(v@),
{
    match v {
        ScriptValue::Text(s) => s.clone(),
        ScriptValue::Number(s) => s.clone(),
        _ => PLACEHOLDER.to_string(),
    }
}

/// A host type that converts to and from script values.
pub trait ScriptConvert: Sized + View {
    /// The script value that `push` makes of a host value.
    spec fn script_of(v: Self::V) -> ScriptVal;

    /// The host value that `pull` reads from a script value, if any.
    spec fn from_script(s: ScriptVal) -> Option<Self::V>;

    fn push(&self) -> (r: ScriptValue)
        ensures
            r@ == Self::script_of(self@),
    ;

    fn pull(v: &ScriptValue) -> (r: Result<Self, ConversionError>)
        ensures
            match r {
                Ok(x) => Self::from_script(v@) == Some(x@),
                Err(_) => Self::from_script(v@) is None,
            },
    ;

    /// Pulling what was pushed gives the value back.
    proof fn lemma_pull_push(v: Self::V)
        ensures
            Self::from_script(Self::script_of(v)) == Some(v),
    ;
}

impl ScriptConvert for String {
    open spec fn script_of(v: Seq<char>) -> ScriptVal {
        ScriptVal::Text(v)
    }

    open spec fn from_script(s: ScriptVal) -> Option<Seq<char>> {
        text_of(s)
    }

    fn push(&self) -> (r: ScriptValue) {
        ScriptValue::Text(self.clone())
    }

    fn pull(v: &ScriptValue) -> (r: Result<String, ConversionError>) {
        match v {
            ScriptValue::Text(s) => Ok(s.clone()),
            ScriptValue::Number(s) => Ok(s.clone()),
            _ => Err(ConversionError),
        }
    }

    proof fn lemma_pull_push(v: Seq<char>) {
    }
}

} // verus!
