//! Operation requests and the command builder that turns a request into
//! the argument vector handed to the backend.

use crate::decimal::Number;
use crate::text::{blank, i64_text, is_blank, int_digits, nat_digits, texts, u32_text};
use vstd::prelude::*;

verus! {

/// A named field that is emitted only when it has a value.
#[derive(Debug, Clone, PartialEq, Eq)]
pub struct OptionalField {
    pub flag: String,
    pub value: Option<String>,
}

/// One backend operation: what is acted on, what is done, the required
/// tokens in their order and the optional fields in their order.
#[derive(Debug, Clone, PartialEq, Eq)]
pub struct OperationRequest {
    pub subject: String,
    pub verb: Option<String>,
    pub positional: Vec<String>,
    pub optional: Vec<OptionalField>,
}

/// Mathematical content of an [`OptionalField`].
pub struct FieldView {
    pub flag: Seq<char>,
    pub value: Option<Seq<char>>,
}

/// Mathematical content of an [`OperationRequest`].
pub struct RequestView {
    pub subject: Seq<char>,
    pub verb: Option<Seq<char>>,
    pub positional: Seq<Seq<char>>,
    pub optional: Seq<FieldView>,
}

/// The view of an optional string.
pub open spec fn option_text(value: Option<String>) -> Option<Seq<char>> {
    match value {
        Some(s) => Some(s@),
        None => None,
    }
}

impl View for OptionalField {
    type V = FieldView;

    open spec fn view(&self) -> FieldView {
        FieldView { flag: self.flag@, value: option_text(self.value) }
    }
}

/// The views of a sequence of optional fields, in order.
pub open spec fn field_views(fields: Seq<OptionalField>) -> Seq<FieldView> {
    fields.map_values(|f: OptionalField| f@)
}

impl View for OperationRequest {
    type V = RequestView;

    open spec fn view(&self) -> RequestView {
        RequestView {
            subject: self.subject@,
            verb: option_text(self.verb),
            positional: texts(self.positional@),
            optional: field_views(self.optional@),
        }
    }
}

/// Tokens of one optional field: the flag and the value when the value
/// is present, nothing otherwise.
pub open spec fn field_tokens(field: FieldView) -> Seq<Seq<char>> {
    match field.value {
        Some(v) => seq![field.flag, v],
        None => Seq::empty(),
    }
}

/// Tokens of a run of optional fields, in declared order.
pub open spec fn optional_tokens(fields: Seq<FieldView>) -> Seq<Seq<char>>
    decreases fields.len(),
{
    if fields.len() == 0 {
        Seq::empty()
    } else {
        optional_tokens(fields.drop_last()) + field_tokens(fields.last())
    }
}

/// Tokens of the verb: one when there is a verb.
pub open spec fn verb_tokens(verb: Option<Seq<char>>) -> Seq<Seq<char>> {
    match verb {
        Some(v) => seq![v],
        None => Seq::empty(),
    }
}

/// The argument vector of a request: subject, verb, the positional
/// tokens in declared order, then the flag and value of every optional
/// field that has a value, in declared order.
pub open spec fn argv_of(request: RequestView) -> Seq<Seq<char>> {
    seq![request.subject] + verb_tokens(request.verb) + request.positional + optional_tokens(
        request.optional,
    )
}

/// A field with a text value, omitted when the value is absent.
pub open spec fn text_field_view(flag: Seq<char>, value: Option<String>) -> FieldView {
    FieldView { flag, value: option_text(value) }
}

/// A field with a text value, omitted when the value is absent or blank
/// after trimming. A value that is emitted is emitted untrimmed.
pub open spec fn non_blank_field_view(flag: Seq<char>, value: Option<String>) -> FieldView {
    FieldView {
        flag,
        value: match value {
            Some(s) => if is_blank(s@) {
                None
            } else {
                Some(s@)
            },
            None => None,
        },
    }
}

/// A field with an unsigned count, omitted when the value is absent.
pub open spec fn count_field_view(flag: Seq<char>, value: Option<u32>) -> FieldView {
    FieldView {
        flag,
        value: match value {
            Some(n) => Some(nat_digits(n as nat)),
            None => None,
        },
    }
}

/// A field with a signed integer, omitted when the value is absent.
pub open spec fn integer_field_view(flag: Seq<char>, value: Option<i64>) -> FieldView {
    FieldView {
        flag,
        value: match value {
            Some(n) => Some(int_digits(n as int)),
            None => None,
        },
    }
}

/// A field with a number, omitted when the value is absent.
pub open spec fn number_field_view(flag: Seq<char>, value: Option<Number>) -> FieldView {
    FieldView {
        flag,
        value: match value {
            Some(d) => Some(d.text()),
            None => None,
        },
    }
}

/// A field with a number for which zero means "nothing to say": omitted
/// when the value is absent or not greater than zero.
pub open spec fn positive_number_field_view(flag: Seq<char>, value: Option<Number>) -> FieldView {
    FieldView {
        flag,
        value: match value {
            Some(d) => if d.is_positive() {
                Some(d.text())
            } else {
                None
            },
            None => None,
        },
    }
}

/// Builds a text field.
pub fn text_field(flag: &str, value: &Option<String>) -> (field: OptionalField)
    ensures
        field@ == text_field_view(flag@, *value),
{
    let value = match value {
        Some(s) => Some(s.clone()),
        None => None,
    };
    OptionalField { flag: flag.to_owned(), value }
}

/// Builds a text field that blank values leave out.
pub fn non_blank_field(flag: &str, value: &Option<String>) -> (field: OptionalField)
    ensures
        field@ == non_blank_field_view(flag@, *value),
{
    let value = match value {
        Some(s) => if blank(s.as_str()) {
            None
        } else {
            Some(s.clone())
        },
        None => None,
    };
    OptionalField { flag: flag.to_owned(), value }
}

/// Builds a count field.
pub fn count_field(flag: &str, value: Option<u32>) -> (field: OptionalField)
    ensures
        field@ == count_field_view(flag@, value),
{
    let value = match value {
        Some(n) => Some(u32_text(n)),
        None => None,
    };
    OptionalField { flag: flag.to_owned(), value }
}

/// Builds an integer field.
pub fn integer_field(flag: &str, value: Option<i64>) -> (field: OptionalField)
    ensures
        field@ == integer_field_view(flag@, value),
{
    let value = match value {
        Some(n) => Some(i64_text(n)),
        None => None,
    };
    OptionalField { flag: flag.to_owned(), value }
}

/// Builds a number field.
pub fn number_field(flag: &str, value: &Option<Number>) -> (field: OptionalField)
    ensures
        field@ == number_field_view(flag@, *value),
{
    let value = match value {
        Some(d) => Some(d.render()),
        None => None,
    };
    OptionalField { flag: flag.to_owned(), value }
}

/// Builds a number field that values not greater than zero leave out.
pub fn positive_number_field(flag: &str, value: &Option<Number>) -> (field: OptionalField)
    ensures
        field@ == positive_number_field_view(flag@, *value),
{
    let value = match value {
        Some(d) => if d.positive() {
            Some(d.render())
        } else {
            None
        },
        None => None,
    };
    OptionalField { flag: flag.to_owned(), value }
}

/// Appends copies of `tokens` to `out`.
pub fn push_tokens(out: &mut Vec<String>, tokens: &Vec<String>)
    ensures
        texts(final(out)@) == texts(old(out)@) + texts(tokens@),
{
    let mut i: usize = 0;
    while i < tokens.len()
        invariant
            i <= tokens.len(),
            texts(out@) == texts(old(out)@) + texts(tokens@).subrange(0, i as int),
        decreases tokens.len() - i,
    {
        let token = tokens[i].clone();
        proof {
            assert(texts(out@.push(token)) == texts(out@).push(token@));
        }
        out.push(token);
        i += 1;
    }
    assert(texts(tokens@).subrange(0, tokens.len() as int) == texts(tokens@));
}

/// Appends the tokens of the optional fields to `out`.
pub fn push_optional(out: &mut Vec<String>, fields: &Vec<OptionalField>)
    ensures
        texts(final(out)@) == texts(old(out)@) + optional_tokens(field_views(fields@)),
{
    let ghost views = field_views(fields@);
    let mut i: usize = 0;
    assert(views.subrange(0, 0) == Seq::<FieldView>::empty());
    while i < fields.len()
        invariant
            i <= fields.len(),
            views == field_views(fields@),
            texts(out@) == texts(old(out)@) + optional_tokens(views.subrange(0, i as int)),
        decreases fields.len() - i,
    {
        let field = &fields[i];
        proof {
            let upto = views.subrange(0, i + 1);
            assert(upto.drop_last() == views.subrange(0, i as int));
            assert(upto.last() == field@);
        }
        match &field.value {
            Some(v) => {
                let flag = field.flag.clone();
                let value = v.clone();
                proof {
                    assert(texts(out@.push(flag).push(value)) == texts(out@) + seq![flag@, value@]);
                }
                out.push(flag);
                out.push(value);
            },
            None => {
                assert(texts(out@) + Seq::<Seq<char>>::empty() == texts(out@));
            },
        }
        i += 1;
    }
    assert(views.subrange(0, fields.len() as int) == views);
}

/// The command builder: the argument vector of `request`. It never
/// fails, and it depends on nothing but the request.
pub fn build(request: &OperationRequest) -> (argv: Vec<String>)
    ensures
        texts(argv@) == argv_of(request@),
{
    let mut argv: Vec<String> = Vec::new();
    let subject = request.subject.clone();
    proof {
        assert(texts(argv@.push(subject)) == seq![subject@]);
    }
    argv.push(subject);
    match &request.verb {
        Some(v) => {
            let verb = v.clone();
            proof {
                assert(texts(argv@.push(verb)) == texts(argv@) + seq![verb@]);
            }
            argv.push(verb);
        },
        None => {
            assert(texts(argv@) + Seq::<Seq<char>>::empty() == texts(argv@));
        },
    }
    push_tokens(&mut argv, &request.positional);
    push_optional(&mut argv, &request.optional);
    argv
}

/// Requests with the same content have the same argument vector, token
/// for token and in the same order.
pub proof fn lemma_build_is_deterministic(a: OperationRequest, b: OperationRequest)
    requires
        a@ == b@,
    ensures
        argv_of(a@) == argv_of(b@),
{
}

/// A field without a value contributes no token, and a field with a
/// value contributes exactly its flag followed by the value.
pub proof fn lemma_field_emission(field: FieldView)
    ensures
        field.value is None ==> field_tokens(field).len() == 0,
        field.value matches Some(v) ==> field_tokens(field) == seq![field.flag, v],
{
}

/// A number equal to the zero sentinel is left out: the field emits
/// neither its flag nor a value.
pub proof fn lemma_sentinel_is_never_emitted(flag: Seq<char>, value: Number)
    requires
        value.is_zero(),
    ensures
        field_tokens(positive_number_field_view(flag, Some(value))) == Seq::<Seq<char>>::empty(),
{
}

} // verus!
