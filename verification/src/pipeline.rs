//! Pipeline configuration: errors, processor fields and the YAML readers that build them.

use vstd::prelude::*;
use crate::value::{Value, ValueModel, first_match, lemma_first_match};
use crate::yaml::{Yaml, YamlModel, spec_as_str, spec_as_bool, spec_as_vec, nodes_model};

verus! {

broadcast use vstd::std_specs::vec::group_vec_axioms;

/// The configuration key that names a single field.
pub const FIELD_NAME: &'static str = "field";

/// The configuration key that names a list of fields.
pub const FIELDS_NAME: &'static str = "fields";

/// The configuration key that tells a processor to skip missing fields.
pub const IGNORE_MISSING_NAME: &'static str = "ignore_missing";

/// Errors raised while building or running a pipeline processor.
#[derive(Debug)]
pub enum PipelineError {
    /// A configuration key is not a string.
    KeyMustBeString { k: Yaml },
    /// A configuration value does not have the expected type.
    FieldMustBeType { field: String, ty: String },
    /// A field description names no input field.
    EmptyInputField,
    /// The value handed to a processor is not an object.
    ValueMustBeMap,
    /// A field that a processor needs is missing.
    ProcessorMissingField { processor: String, field: String },
    /// A processor that works on text got another kind of value.
    ProcessorExpectString { processor: String, v: Value },
}

/// The model of a [`PipelineError`].
pub enum PipelineErrorModel {
    KeyMustBeString { k: YamlModel },
    FieldMustBeType { field: Seq<char>, ty: Seq<char> },
    EmptyInputField,
    ValueMustBeMap,
    ProcessorMissingField { processor: Seq<char>, field: Seq<char> },
    ProcessorExpectString { processor: Seq<char>, v: ValueModel },
}

impl View for PipelineError {
    type V = PipelineErrorModel;

    open spec fn view(&self) -> PipelineErrorModel {
        match *self {
            PipelineError::KeyMustBeString { k } => PipelineErrorModel::KeyMustBeString { k: k@ },
            PipelineError::FieldMustBeType { field, ty } => PipelineErrorModel::FieldMustBeType {
                field: field@,
                ty: ty@,
            },
            PipelineError::EmptyInputField => PipelineErrorModel::EmptyInputField,
            PipelineError::ValueMustBeMap => PipelineErrorModel::ValueMustBeMap,
            PipelineError::ProcessorMissingField {
                processor,
                field,
            } => PipelineErrorModel::ProcessorMissingField { processor: processor@, field: field@ },
            PipelineError::ProcessorExpectString {
                processor,
                v,
            } => PipelineErrorModel::ProcessorExpectString { processor: processor@, v: v@ },
        }
    }
}

/// The model of a `Result` whose error is a [`PipelineError`].
pub open spec fn result_model<T, M>(r: Result<T, PipelineError>, m: spec_fn(T) -> M) -> Result<
    M,
    PipelineErrorModel,
> {
    match r {
        Ok(t) => Ok(m(t)),
        Err(e) => Err(e@),
    }
}

/// A field a processor reads, and the field it writes its result to.
#[derive(Debug)]
pub struct Field {
    input_field: String,
    target_field: Option<String>,
}

/// The model of a [`Field`].
pub struct FieldModel {
    pub input: Seq<char>,
    pub target: Option<Seq<char>>,
}

impl View for Field {
    type V = FieldModel;

    closed spec fn view(&self) -> FieldModel {
        FieldModel {
            input: self.input_field@,
            target: match self.target_field {
                Some(t) => Some(t@),
                None => None,
            },
        }
    }
}

/// The field that a processor writes to: the target field, or else the input field.
pub open spec fn target_or_input(f: FieldModel) -> Seq<char> {
    match f.target {
        Some(t) => t,
        None => f.input,
    }
}

impl Field {
    /// A field that reads `input_field` and writes to `target_field` (or back to the input).
    pub fn new(input_field: String, target_field: Option<String>) -> (f: Field)
        ensures
            f@.input == input_field@,
            f@.target == (match target_field {
                Some(t) => Some(t@),
                None => None,
            }),
    {
        Field { input_field, target_field }
    }

    pub fn input_field(&self) -> (r: &String)
        ensures
            r@ == self@.input,
    {
        &self.input_field
    }

    pub fn target_or_input_field(&self) -> (r: &String)
        ensures
            r@ == target_or_input(self@),
    {
        match &self.target_field {
            Some(t) => t,
            None => &self.input_field,
        }
    }

    /// Parses a field description `input[, target]`: the text before the first comma
    /// is the input field, the text after it up to the next comma the target field,
    /// each trimmed of white space. An empty input field is refused.
    pub fn parse(s: &str) -> (r: Result<Field, PipelineError>)
        ensures
            result_model(r, |f: Field| f@) == parse_field(s@),
    {
        let n = s.unicode_len();
        let p = find_comma(s);
        let head = s.substring_char(0, p);
        let input = String::from_str(trim(head));
        let target = if p < n {
            let rest = s.substring_char(p + 1, n);
            let q = find_comma(rest);
            let part = rest.substring_char(0, q);
            Some(String::from_str(trim(part)))
        } else {
            None
        };
        if input.as_str().is_empty() {
            Err(PipelineError::EmptyInputField)
        } else {
            Ok(Field { input_field: input, target_field: target })
        }
    }
}

/// A white-space character: one with the Unicode `White_Space` property.
pub open spec fn is_white_space(c: char) -> bool {
    ||| ('\t' <= c && c <= '\r')
    ||| c == ' '
    ||| c == '\u{85}'
    ||| c == '\u{a0}'
    ||| c == '\u{1680}'
    ||| ('\u{2000}' <= c && c <= '\u{200a}')
    ||| c == '\u{2028}'
    ||| c == '\u{2029}'
    ||| c == '\u{202f}'
    ||| c == '\u{205f}'
    ||| c == '\u{3000}'
}

/// `s` without its leading white space.
pub open spec fn trim_start_spec(s: Seq<char>) -> Seq<char>
    decreases s.len(),
{
    if s.len() > 0 && is_white_space(s[0]) {
        trim_start_spec(s.drop_first())
    } else {
        s
    }
}

/// `s` without its trailing white space.
pub open spec fn trim_end_spec(s: Seq<char>) -> Seq<char>
    decreases s.len(),
{
    if s.len() > 0 && is_white_space(s.last()) {
        trim_end_spec(s.drop_last())
    } else {
        s
    }
}

/// `s` without its leading and trailing white space.
pub open spec fn trim_spec(s: Seq<char>) -> Seq<char> {
    trim_end_spec(trim_start_spec(s))
}

/// Whether `c` is white space, as [`is_white_space`] states.
fn white_space(c: char) -> (r: bool)
    ensures
        r == is_white_space(c),
{
    ('\t' <= c && c <= '\r') || c == ' ' || c == '\u{85}' || c == '\u{a0}' || c == '\u{1680}' || (
    '\u{2000}' <= c && c <= '\u{200a}') || c == '\u{2028}' || c == '\u{2029}' || c == '\u{202f}'
        || c == '\u{205f}' || c == '\u{3000}'
}

/// `s` without its leading and trailing white space.
fn trim(s: &str) -> (r: &str)
    ensures
        r@ == trim_spec(s@),
{
    let n = s.unicode_len();
    let mut a: usize = 0;
    assert(s@.subrange(0, n as int) =~= s@);
    while a < n && white_space(s.get_char(a))
        invariant
            n == s@.len(),
            a <= n,
            trim_start_spec(s@) == trim_start_spec(s@.subrange(a as int, n as int)),
        decreases n - a,
    {
        assert(s@.subrange(a as int, n as int).drop_first() =~= s@.subrange(a + 1, n as int));
        a = a + 1;
    }
    proof {
        if a == n {
            assert(s@.subrange(a as int, n as int) =~= Seq::<char>::empty());
        }
        if a < n {
            assert(s@.subrange(a as int, n as int)[0] == s@[a as int]);
        }
    }
    let ghost t = trim_start_spec(s@);
    assert(t == s@.subrange(a as int, n as int));
    let mut b: usize = n;
    while b > a && white_space(s.get_char(b - 1))
        invariant
            n == s@.len(),
            a <= b <= n,
            trim_end_spec(t) == trim_end_spec(s@.subrange(a as int, b as int)),
        decreases b - a,
    {
        assert(s@.subrange(a as int, b as int).drop_last() =~= s@.subrange(a as int, b - 1));
        assert(s@.subrange(a as int, b as int).last() == s@[b - 1]);
        b = b - 1;
    }
    proof {
        if b == a {
            assert(s@.subrange(a as int, b as int) =~= Seq::<char>::empty());
        } else {
            assert(s@.subrange(a as int, b as int).last() == s@[b - 1]);
        }
    }
    s.substring_char(a, b)
}

/// The position of the first comma in `s`, or `s.len()`.
pub open spec fn comma_position(s: Seq<char>) -> int {
    first_match(s, |c: char| c == ',')
}

fn find_comma(s: &str) -> (p: usize)
    ensures
        p == comma_position(s@),
        p <= s@.len(),
{
    let n = s.unicode_len();
    let ghost pred = |c: char| c == ',';
    let mut i: usize = 0;
    while i < n
        invariant
            n == s@.len(),
            i <= n,
            pred == (|c: char| c == ','),
            forall|j: int| 0 <= j < i ==> !pred(#[trigger] s@[j]),
        decreases n - i,
    {
        if s.get_char(i) == ',' {
            proof {
                lemma_first_match(s@, pred, i as int);
            }
            return i;
        }
        i = i + 1;
    }
    proof {
        lemma_first_match(s@, pred, i as int);
    }
    i
}

/// What parsing a field description gives.
pub open spec fn parse_field(s: Seq<char>) -> Result<FieldModel, PipelineErrorModel> {
    let p = comma_position(s);
    let input = trim_spec(s.subrange(0, p));
    let target = if p < s.len() {
        let rest = s.subrange(p + 1, s.len() as int);
        Some(trim_spec(rest.subrange(0, comma_position(rest))))
    } else {
        None
    };
    if input.len() == 0 {
        Err(PipelineErrorModel::EmptyInputField)
    } else {
        Ok(FieldModel { input, target })
    }
}

/// The fields a processor works on, in order.
#[derive(Debug)]
pub struct Fields {
    fields: Vec<Field>,
}

/// The model of a list of fields.
pub open spec fn fields_model(fs: Seq<Field>) -> Seq<FieldModel> {
    Seq::new(fs.len(), |i: int| fs[i]@)
}

impl View for Fields {
    type V = Seq<FieldModel>;

    closed spec fn view(&self) -> Seq<FieldModel> {
        fields_model(self.fields@)
    }
}

impl Fields {
    pub fn new(fields: Vec<Field>) -> (r: Fields)
        ensures
            r@ == fields_model(fields@),
    {
        Fields { fields }
    }

    pub fn one(field: Field) -> (r: Fields)
        ensures
            r@ == seq![field@],
    {
        let mut v: Vec<Field> = Vec::new();
        v.push(field);
        let r = Fields { fields: v };
        assert(r@ =~= seq![v@[0]@]);
        r
    }

    pub fn len(&self) -> (n: usize)
        ensures
            n == self@.len(),
    {
        self.fields.len()
    }

    pub fn get(&self, i: usize) -> (f: &Field)
        requires
            i < self@.len(),
        ensures
            f@ == self@[i as int],
    {
        &self.fields[i]
    }
}

impl Default for Fields {
    fn default() -> (r: Fields)
        ensures
            r@ == Seq::<FieldModel>::empty(),
    {
        let r = Fields { fields: Vec::new() };
        assert(r@ =~= Seq::<FieldModel>::empty());
        r
    }
}

/// What reading a boolean configuration value gives.
pub open spec fn spec_yaml_bool(v: YamlModel, field: Seq<char>) -> Result<bool, PipelineErrorModel> {
    match spec_as_bool(v) {
        Some(b) => Ok(b),
        None => Err(PipelineErrorModel::FieldMustBeType { field, ty: "boolean"@ }),
    }
}

/// Reads a boolean configuration value.
pub fn yaml_bool(v: &Yaml, field: &str) -> (r: Result<bool, PipelineError>)
    ensures
        result_model(r, |b: bool| b) == spec_yaml_bool(v@, field@),
{
    match v.as_bool() {
        Some(b) => Ok(b),
        None => Err(
            PipelineError::FieldMustBeType {
                field: String::from_str(field),
                ty: String::from_str("boolean"),
            },
        ),
    }
}

/// What reading a field description from a configuration value gives.
pub open spec fn spec_yaml_new_field(v: YamlModel, field: Seq<char>) -> Result<
    FieldModel,
    PipelineErrorModel,
> {
    match spec_as_str(v) {
        Some(s) => parse_field(s),
        None => Err(PipelineErrorModel::FieldMustBeType { field, ty: "string"@ }),
    }
}

/// Reads a field description from a configuration value.
pub fn yaml_new_field(v: &Yaml, field: &str) -> (r: Result<Field, PipelineError>)
    ensures
        result_model(r, |f: Field| f@) == spec_yaml_new_field(v@, field@),
{
    match v.as_str() {
        Some(s) => Field::parse(s),
        None => Err(
            PipelineError::FieldMustBeType {
                field: String::from_str(field),
                ty: String::from_str("string"),
            },
        ),
    }
}

/// The text of each item of a list: a string item's text, the empty text for any other item.
pub open spec fn item_texts(items: Seq<YamlModel>) -> Seq<Seq<char>> {
    Seq::new(
        items.len(),
        |i: int|
            match spec_as_str(items[i]) {
                Some(s) => s,
                None => Seq::empty(),
            },
    )
}

/// Parses each text in turn; the first error ends the parse.
pub open spec fn parse_fields(texts: Seq<Seq<char>>) -> Result<Seq<FieldModel>, PipelineErrorModel>
    decreases texts.len(),
{
    if texts.len() == 0 {
        Ok(Seq::empty())
    } else {
        match parse_fields(texts.drop_last()) {
            Err(e) => Err(e),
            Ok(fs) => match parse_field(texts.last()) {
                Err(e) => Err(e),
                Ok(f) => Ok(fs.push(f)),
            },
        }
    }
}

/// Once a prefix of the texts fails to parse, the whole list fails with the same error.
pub proof fn lemma_parse_fields_error_persists(texts: Seq<Seq<char>>, n: int)
    requires
        0 <= n <= texts.len(),
        parse_fields(texts.take(n)) is Err,
    ensures
        parse_fields(texts) == parse_fields(texts.take(n)),
    decreases texts.len() - n,
{
    if n < texts.len() {
        assert(texts.drop_last().take(n) =~= texts.take(n));
        lemma_parse_fields_error_persists(texts.drop_last(), n);
    } else {
        assert(texts.take(n) =~= texts);
    }
}

/// What reading a list of field descriptions from a configuration value gives.
pub open spec fn spec_yaml_new_fields(v: YamlModel, field: Seq<char>) -> Result<
    Seq<FieldModel>,
    PipelineErrorModel,
> {
    match spec_as_vec(v) {
        Some(items) => parse_fields(item_texts(items)),
        None => Err(PipelineErrorModel::FieldMustBeType { field, ty: "list of string"@ }),
    }
}

/// Reads a list of field descriptions from a configuration value.
pub fn yaml_new_fields(v: &Yaml, field: &str) -> (r: Result<Fields, PipelineError>)
    ensures
        result_model(r, |f: Fields| f@) == spec_yaml_new_fields(v@, field@),
{
    match v.as_vec() {
        None => Err(
            PipelineError::FieldMustBeType {
                field: String::from_str(field),
                ty: String::from_str("list of string"),
            },
        ),
        Some(items) => {
            let ghost texts = item_texts(nodes_model(items@));
            let mut out: Vec<Field> = Vec::new();
            let mut i: usize = 0;
            assert(texts.take(0) =~= Seq::<Seq<char>>::empty());
            assert(fields_model(out@) =~= Seq::<FieldModel>::empty());
            while i < items.len()
                invariant
                    i <= items.len(),
                    texts == item_texts(nodes_model(items@)),
                    spec_as_vec(v@) is Some,
                    spec_as_vec(v@)->0 == nodes_model(items@),
                    parse_fields(texts.take(i as int)) == Ok::<Seq<FieldModel>, PipelineErrorModel>(
                        fields_model(out@),
                    ),
                decreases items.len() - i,
            {
                let text = match items[i].as_str() {
                    Some(s) => s,
                    None => "",
                };
                proof {
                    reveal_strlit("");
                    assert(texts.take(i + 1).drop_last() =~= texts.take(i as int));
                    assert(text@ =~= texts[i as int]);
                }
                match Field::parse(text) {
                    Err(e) => {
                        proof {
                            assert(texts.take(i + 1).last() == texts[i as int]);
                            assert(parse_fields(texts.take(i + 1)) == Err::<Seq<FieldModel>, PipelineErrorModel>(e@));
                            lemma_parse_fields_error_persists(texts, i + 1);
                        }
                        return Err(e);
                    },
                    Ok(f) => {
                        let ghost prev = out@;
                        let ghost fm = f@;
                        out.push(f);
                        assert(fields_model(out@) =~= fields_model(prev).push(fm));
                    },
                }
                i = i + 1;
            }
            assert(texts.take(items.len() as int) =~= texts);
            Ok(Fields { fields: out })
        },
    }
}

} // verus!
