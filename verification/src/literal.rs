//! Literals: a text, the way it is written down, and a language or datatype tag.
//!
//! A literal keeps its text as it is. Quotes and escapes belong to its lexical
//! form, which is made when the literal is handed to a sink.

use vstd::prelude::*;
use vstd::string::StringExecFns;
use crate::escape::{debug_quote, debug_text};
use crate::text::{decimal, decimal_string, prefixed, texts};
use crate::vocab::{XSD_INTEGER, XSD_STRING};

verus! {

/// How the text of a literal is written in its lexical form.
#[derive(Debug, Clone, Copy, PartialEq, Eq, Structural)]
pub enum Notation {
    /// Between double quotes, with the escapes of a string literal.
    Escaped,
    /// Between double quotes, as it stands.
    Quoted,
    /// As it stands, without quotes.
    Bare,
}

/// What a literal is tagged with.
#[derive(Debug, Clone, PartialEq, Eq)]
pub enum LiteralTag {
    /// A language code.
    Language(String),
    /// The identifier of a datatype.
    Datatype(String),
}

/// A literal value.
#[derive(Debug, Clone, PartialEq, Eq)]
pub struct Literal {
    /// The text, as it is.
    pub text: String,
    /// How the text is written in the lexical form.
    pub notation: Notation,
    /// The language or the datatype.
    pub tag: LiteralTag,
}

/// A tag, as specifications see it.
pub enum TagView {
    Language(Seq<char>),
    Datatype(Seq<char>),
}

/// A literal, as specifications see it.
pub struct LiteralView {
    pub text: Seq<char>,
    pub notation: Notation,
    pub tag: TagView,
}

impl View for LiteralTag {
    type V = TagView;

    open spec fn view(&self) -> TagView {
        match self {
            LiteralTag::Language(code) => TagView::Language(code@),
            LiteralTag::Datatype(iri) => TagView::Datatype(iri@),
        }
    }
}

impl View for Literal {
    type V = LiteralView;

    open spec fn view(&self) -> LiteralView {
        LiteralView { text: self.text@, notation: self.notation, tag: self.tag@ }
    }
}

/// A text in the given notation.
pub open spec fn written(text: Seq<char>, notation: Notation) -> Seq<char> {
    match notation {
        Notation::Escaped => debug_text(text),
        Notation::Quoted => "\""@ + text + "\""@,
        Notation::Bare => text,
    }
}

/// What follows the text in a lexical form: `@` and the language, or `^^` and
/// the datatype between single quotes.
pub open spec fn tag_suffix(tag: TagView) -> Seq<char> {
    match tag {
        TagView::Language(code) => "@"@ + code,
        TagView::Datatype(iri) => "^^'"@ + iri + "'"@,
    }
}

/// The lexical form of a literal: its text as written, then its tag.
pub open spec fn rendered(literal: LiteralView) -> Seq<char> {
    written(literal.text, literal.notation) + tag_suffix(literal.tag)
}

/// A text in English, written with escapes.
pub open spec fn english_literal(text: Seq<char>) -> LiteralView {
    LiteralView { text, notation: Notation::Escaped, tag: TagView::Language("en"@) }
}

/// A label in English, written between quotes as it stands.
pub open spec fn english_label(text: Seq<char>) -> LiteralView {
    LiteralView { text, notation: Notation::Quoted, tag: TagView::Language("en"@) }
}

/// A text as a literal of type string, written with escapes.
pub open spec fn string_literal(text: Seq<char>) -> LiteralView {
    LiteralView { text, notation: Notation::Escaped, tag: TagView::Datatype(XSD_STRING@) }
}

/// A natural number as a literal of type integer: its decimal numeral, bare.
pub open spec fn integer_literal(n: nat) -> LiteralView {
    LiteralView { text: decimal(n), notation: Notation::Bare, tag: TagView::Datatype(XSD_INTEGER@) }
}

/// The quoted forms of `items`, from position `from` on, each after a comma and a space.
pub open spec fn quoted_tail(items: Seq<Seq<char>>, from: int) -> Seq<char>
    decreases items.len() - from,
{
    if from < 0 || from >= items.len() {
        Seq::empty()
    } else {
        ", "@ + debug_text(items[from]) + quoted_tail(items, from + 1)
    }
}

/// A list of texts as `{:?}` formatting writes a list of strings: the quoted
/// items between square brackets, separated by a comma and a space.
pub open spec fn quoted_list(items: Seq<Seq<char>>) -> Seq<char> {
    if items.len() == 0 {
        "[]"@
    } else {
        "["@ + debug_text(items[0]) + quoted_tail(items, 1) + "]"@
    }
}

impl Literal {
    /// A text in English, written with escapes.
    pub fn english(text: &str) -> (literal: Literal)
        ensures
            literal@ == english_literal(text@),
    {
        Literal {
            text: String::from_str(text),
            notation: Notation::Escaped,
            tag: LiteralTag::Language(String::from_str("en")),
        }
    }

    /// A label in English, written between quotes as it stands.
    pub fn label(text: &str) -> (literal: Literal)
        ensures
            literal@ == english_label(text@),
    {
        Literal {
            text: String::from_str(text),
            notation: Notation::Quoted,
            tag: LiteralTag::Language(String::from_str("en")),
        }
    }

    /// A text as a literal of type string.
    pub fn string(text: &str) -> (literal: Literal)
        ensures
            literal@ == string_literal(text@),
    {
        Literal {
            text: String::from_str(text),
            notation: Notation::Escaped,
            tag: LiteralTag::Datatype(String::from_str(XSD_STRING)),
        }
    }

    /// A number as a literal of type integer.
    pub fn integer(n: usize) -> (literal: Literal)
        ensures
            literal@ == integer_literal(n as nat),
    {
        Literal {
            text: decimal_string(n),
            notation: Notation::Bare,
            tag: LiteralTag::Datatype(String::from_str(XSD_INTEGER)),
        }
    }

    /// The lexical form: the text as written, then the tag.
    pub fn render(&self) -> (out: String)
        ensures
            out@ == rendered(self@),
    {
        let text = self.text.as_str();
        let mut out = match self.notation {
            Notation::Escaped => debug_quote(text),
            Notation::Quoted => {
                let mut quoted = prefixed("\"", text);
                quoted.append("\"");
                quoted
            },
            Notation::Bare => String::from_str(text),
        };
        match &self.tag {
            LiteralTag::Language(code) => {
                out.append("@");
                out.append(code.as_str());
            },
            LiteralTag::Datatype(iri) => {
                out.append("^^'");
                out.append(iri.as_str());
                out.append("'");
            },
        }
        out
    }
}

proof fn lemma_quoted_tail_step(items: Seq<Seq<char>>, from: int, upto: int)
    requires
        0 <= from <= upto < items.len(),
    ensures
        quoted_tail(items.take(upto + 1), from) == quoted_tail(items.take(upto), from) + ", "@
            + debug_text(items[upto]),
    decreases upto - from,
{
    let longer = items.take(upto + 1);
    let shorter = items.take(upto);
    if from < upto {
        lemma_quoted_tail_step(items, from + 1, upto);
    } else {
        assert(quoted_tail(longer, from) =~= ", "@ + debug_text(longer[from]) + quoted_tail(
            longer,
            from + 1,
        ));
    }
}

pub fn quoted_list_of(items: &Vec<String>) -> (out: String)
    ensures
        out@ == quoted_list(texts(items@)),
{
    if items.len() == 0 {
        return String::from_str("[]");
    }
    let mut out = String::from_str("[");
    let first = debug_quote(items[0].as_str());
    out.append(first.as_str());
    let mut i: usize = 1;
    let ghost all = texts(items@);
    while i < items.len()
        invariant
            1 <= i <= items.len(),
            all == texts(items@),
            out@ == "["@ + debug_text(all[0]) + quoted_tail(all.take(i as int), 1),
        decreases items.len() - i,
    {
        let item = debug_quote(items[i].as_str());
        out.append(", ");
        out.append(item.as_str());
        proof {
            lemma_quoted_tail_step(all, 1, i as int);
        }
        i = i + 1;
    }
    assert(all.take(items.len() as int) =~= all);
    out.append("]");
    out
}

} // verus!
