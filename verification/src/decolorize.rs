//! The decolorize processor: removes ANSI color control codes from text fields.

use vstd::prelude::*;
use crate::ansi::{strip_color_codes, remove_color_codes, utf8_lossy, lossy_utf8};
use crate::pipeline::{
    Fields, FieldModel, PipelineError, PipelineErrorModel, result_model, target_or_input,
    yaml_bool, yaml_new_field, yaml_new_fields, spec_yaml_bool, spec_yaml_new_field,
    spec_yaml_new_fields, FIELD_NAME, FIELDS_NAME, IGNORE_MISSING_NAME,
};
use crate::value::{
    Value, ValueModel, object_get, object_insert, entries_model, find_key, insert_entry,
    lemma_object_model, key_is, lemma_first_match_bounds,
};
use crate::yaml::{Yaml, YamlModel, pairs_model, spec_as_str, spec_as_bool};
use vstd::utf8::{encode_utf8, decode_utf8, valid_utf8};

verus! {

broadcast use vstd::std_specs::vec::group_vec_axioms;

/// The kind name of the decolorize processor.
pub const PROCESSOR_DECOLORIZE: &'static str = "decolorize";

/// The bytes of a text value after decolorizing: decoded as UTF-8 (with invalid
/// sequences replaced), stripped of color codes, encoded again.
pub open spec fn decolorize_bytes(b: Seq<u8>) -> Seq<u8> {
    encode_utf8(strip_color_codes(lossy_utf8(b)))
}

/// What processing one value gives: a text value with its color codes removed,
/// or an error for any other kind of value.
pub open spec fn spec_process(v: ValueModel) -> Result<ValueModel, PipelineErrorModel> {
    match v {
        ValueModel::Bytes(b) => Ok(ValueModel::Bytes(decolorize_bytes(b))),
        _ => Err(PipelineErrorModel::ProcessorExpectString { processor: PROCESSOR_DECOLORIZE@, v }),
    }
}

/// What handling one field of the event `cur` gives.
pub open spec fn exec_step(f: FieldModel, ignore_missing: bool, cur: ValueModel) -> Result<
    ValueModel,
    PipelineErrorModel,
> {
    match cur {
        ValueModel::Object(m) => match object_get(m, f.input) {
            Some(v) => if v is Null {
                if ignore_missing {
                    Ok(cur)
                } else {
                    Err(
                        PipelineErrorModel::ProcessorMissingField {
                            processor: PROCESSOR_DECOLORIZE@,
                            field: f.input,
                        },
                    )
                }
            } else {
                match spec_process(v) {
                    Err(e) => Err(e),
                    Ok(r) => Ok(ValueModel::Object(object_insert(m, target_or_input(f), r))),
                }
            },
            None => if ignore_missing {
                Ok(cur)
            } else {
                Err(
                    PipelineErrorModel::ProcessorMissingField {
                        processor: PROCESSOR_DECOLORIZE@,
                        field: f.input,
                    },
                )
            },
        },
        _ => Err(PipelineErrorModel::ValueMustBeMap),
    }
}

/// What running the processor on the event `val` gives: the fields are handled
/// in order, and the first error ends the run.
pub open spec fn spec_exec(fields: Seq<FieldModel>, ignore_missing: bool, val: ValueModel) -> Result<
    ValueModel,
    PipelineErrorModel,
>
    decreases fields.len(),
{
    if fields.len() == 0 {
        Ok(val)
    } else {
        match spec_exec(fields.drop_last(), ignore_missing, val) {
            Err(e) => Err(e),
            Ok(cur) => exec_step(fields.last(), ignore_missing, cur),
        }
    }
}

/// The configuration a processor is built from: its fields and whether missing
/// fields are skipped.
pub struct ConfigModel {
    pub fields: Seq<FieldModel>,
    pub ignore_missing: bool,
}

/// What reading one configuration pair gives.
pub open spec fn config_step(st: ConfigModel, k: YamlModel, v: YamlModel) -> Result<
    ConfigModel,
    PipelineErrorModel,
> {
    match spec_as_str(k) {
        None => Err(PipelineErrorModel::KeyMustBeString { k }),
        Some(key) => if key == FIELD_NAME@ {
            match spec_yaml_new_field(v, FIELD_NAME@) {
                Ok(f) => Ok(ConfigModel { fields: seq![f], ..st }),
                Err(e) => Err(e),
            }
        } else if key == FIELDS_NAME@ {
            match spec_yaml_new_fields(v, FIELDS_NAME@) {
                Ok(fs) => Ok(ConfigModel { fields: fs, ..st }),
                Err(e) => Err(e),
            }
        } else if key == IGNORE_MISSING_NAME@ {
            match spec_yaml_bool(v, IGNORE_MISSING_NAME@) {
                Ok(b) => Ok(ConfigModel { ignore_missing: b, ..st }),
                Err(e) => Err(e),
            }
        } else {
            Ok(st)
        },
    }
}

/// What reading a configuration mapping gives: its pairs are read in order, later
/// keys overriding earlier ones, and the first error ends the reading.
pub open spec fn spec_config(pairs: Seq<(YamlModel, YamlModel)>) -> Result<
    ConfigModel,
    PipelineErrorModel,
>
    decreases pairs.len(),
{
    if pairs.len() == 0 {
        Ok(ConfigModel { fields: Seq::empty(), ignore_missing: false })
    } else {
        match spec_config(pairs.drop_last()) {
            Err(e) => Err(e),
            Ok(st) => config_step(st, pairs.last().0, pairs.last().1),
        }
    }
}

/// Removes ANSI color control codes from the text of the configured fields.
#[derive(Debug)]
pub struct DecolorizeProcessor {
    fields: Fields,
    ignore_missing: bool,
}

impl View for DecolorizeProcessor {
    type V = ConfigModel;

    closed spec fn view(&self) -> ConfigModel {
        ConfigModel { fields: self.fields@, ignore_missing: self.ignore_missing }
    }
}

impl Default for DecolorizeProcessor {
    fn default() -> (r: DecolorizeProcessor)
        ensures
            r@ == (ConfigModel { fields: Seq::empty(), ignore_missing: false }),
    {
        DecolorizeProcessor { fields: Fields::default(), ignore_missing: false }
    }
}

/// Whether two texts are equal.
fn text_eq(a: &str, b: &str) -> (r: bool)
    ensures
        r == (a@ == b@),
{
    String::from_str(a) == String::from_str(b)
}

impl DecolorizeProcessor {
    /// A processor working on `fields`, skipping missing fields if `ignore_missing`.
    pub fn new(fields: Fields, ignore_missing: bool) -> (p: DecolorizeProcessor)
        ensures
            p@ == (ConfigModel { fields: fields@, ignore_missing }),
    {
        DecolorizeProcessor { fields, ignore_missing }
    }

    /// Removes the color codes from `val`; the result is a text value.
    pub fn process_string(&self, val: &str) -> (r: Result<Value, PipelineError>)
        ensures
            r is Ok,
            r->Ok_0@ == ValueModel::Bytes(encode_utf8(strip_color_codes(val@))),
    {
        let s = remove_color_codes(val);
        Ok(Value::Bytes(s.as_str().as_bytes_vec()))
    }

    /// Removes the color codes from a text value; any other value is refused.
    pub fn process(&self, val: &Value) -> (r: Result<Value, PipelineError>)
        ensures
            result_model(r, |v: Value| v@) == spec_process(val@),
            match *val {
                Value::Bytes(b) => valid_utf8(b@) ==> (r is Ok && r->Ok_0@ == ValueModel::Bytes(
                    encode_utf8(strip_color_codes(decode_utf8(b@))),
                )),
                _ => true,
            },
    {
        match val {
            Value::Bytes(b) => {
                let text = utf8_lossy(b.as_slice());
                self.process_string(text.as_str())
            },
            _ => Err(
                PipelineError::ProcessorExpectString {
                    processor: String::from_str(PROCESSOR_DECOLORIZE),
                    v: val.deep_copy(),
                },
            ),
        }
    }

    /// Builds the processor from its configuration mapping.
    pub fn try_from(value: &Vec<(Yaml, Yaml)>) -> (r: Result<DecolorizeProcessor, PipelineError>)
        ensures
            result_model(r, |p: DecolorizeProcessor| p@) == spec_config(pairs_model(value@)),
    {
        let ghost pairs = pairs_model(value@);
        let mut fields = Fields::default();
        let mut ignore_missing = false;
        let mut i: usize = 0;
        assert(pairs.take(0) =~= Seq::<(YamlModel, YamlModel)>::empty());
        while i < value.len()
            invariant
                i <= value.len(),
                pairs == pairs_model(value@),
                spec_config(pairs.take(i as int)) == Ok::<ConfigModel, PipelineErrorModel>(
                    ConfigModel { fields: fields@, ignore_missing },
                ),
            decreases value.len() - i,
        {
            let k = &value[i].0;
            let v = &value[i].1;
            let ghost st = ConfigModel { fields: fields@, ignore_missing };
            proof {
                assert(pairs.take(i + 1).drop_last() =~= pairs.take(i as int));
                assert(pairs.take(i + 1).last() == (k@, v@));
            }
            let step: Result<(), PipelineError> = match k.as_str() {
                None => Err(PipelineError::KeyMustBeString { k: k.deep_copy() }),
                Some(key) => {
                    proof {
                        reveal_strlit("field");
                        reveal_strlit("fields");
                        reveal_strlit("ignore_missing");
                    }
                    if text_eq(key, FIELD_NAME) {
                        match yaml_new_field(v, FIELD_NAME) {
                            Ok(f) => {
                                fields = Fields::one(f);
                                Ok(())
                            },
                            Err(e) => Err(e),
                        }
                    } else if text_eq(key, FIELDS_NAME) {
                        match yaml_new_fields(v, FIELDS_NAME) {
                            Ok(fs) => {
                                fields = fs;
                                Ok(())
                            },
                            Err(e) => Err(e),
                        }
                    } else if text_eq(key, IGNORE_MISSING_NAME) {
                        match yaml_bool(v, IGNORE_MISSING_NAME) {
                            Ok(b) => {
                                ignore_missing = b;
                                Ok(())
                            },
                            Err(e) => Err(e),
                        }
                    } else {
                        Ok(())
                    }
                },
            };
            match step {
                Err(e) => {
                    proof {
                        assert(spec_config(pairs.take(i + 1)) == Err::<ConfigModel, PipelineErrorModel>(e@));
                        lemma_config_error_persists(pairs, i + 1);
                    }
                    return Err(e);
                },
                Ok(()) => {},
            }
            i = i + 1;
        }
        assert(pairs.take(value.len() as int) =~= pairs);
        Ok(DecolorizeProcessor { fields, ignore_missing })
    }

    /// The kind name of this processor.
    pub fn kind(&self) -> (r: &'static str)
        ensures
            r@ == PROCESSOR_DECOLORIZE@,
    {
        PROCESSOR_DECOLORIZE
    }

    /// Whether missing fields are skipped.
    pub fn ignore_missing(&self) -> (r: bool)
        ensures
            r == self@.ignore_missing,
    {
        self.ignore_missing
    }

    /// Runs the processor on an event: for each field in turn, the text at the input
    /// field is decolorized and written to the target field.
    pub fn exec_mut(&self, val: Value) -> (r: Result<Value, PipelineError>)
        ensures
            result_model(r, |v: Value| v@) == spec_exec(self@.fields, self@.ignore_missing, val@),
    {
        let ghost val0 = val@;
        let ghost fs = self@.fields;
        let mut event = val;
        let n = self.fields.len();
        let mut i: usize = 0;
        assert(fs.take(0) =~= Seq::<FieldModel>::empty());
        while i < n
            invariant
                n == fs.len(),
                i <= n,
                fs == self@.fields,
                val0 == val@,
                spec_exec(fs.take(i as int), self@.ignore_missing, val0) == Ok::<
                    ValueModel,
                    PipelineErrorModel,
                >(event@),
            decreases n - i,
        {
            let field = self.fields.get(i);
            proof {
                assert(fs.take(i + 1).drop_last() =~= fs.take(i as int));
                assert(fs.take(i + 1).last() == field@);
            }
            let ghost cur = event@;
            let mut entries = match event {
                Value::Object(e) => e,
                _ => {
                    proof {
                        assert(spec_exec(fs.take(i + 1), self@.ignore_missing, val0) == Err::<
                            ValueModel,
                            PipelineErrorModel,
                        >(PipelineErrorModel::ValueMustBeMap));
                        lemma_exec_error_persists(fs, self@.ignore_missing, val0, i + 1);
                    }
                    return Err(PipelineError::ValueMustBeMap);
                },
            };
            proof {
                lemma_object_model(entries);
            }
            let ghost m = entries_model(entries@);
            let idx = find_key(&entries, field.input_field());
            proof {
                lemma_first_match_bounds(m, key_is(field@.input));
            }
            let missing = if idx < entries.len() {
                match &entries[idx].1 {
                    Value::Null => true,
                    _ => false,
                }
            } else {
                true
            };
            if missing {
                if !self.ignore_missing {
                    let err = PipelineError::ProcessorMissingField {
                        processor: String::from_str(self.kind()),
                        field: field.input_field().clone(),
                    };
                    proof {
                        reveal_strlit("decolorize");
                        assert(cur == ValueModel::Object(m));
                        if idx < entries.len() {
                            assert(m[idx as int].1 == entries@[idx as int].1@);
                            assert(object_get(m, field@.input) == Some(ValueModel::Null));
                        } else {
                            assert(object_get(m, field@.input) == None::<ValueModel>);
                        }
                        assert(spec_exec(fs.take(i + 1), self@.ignore_missing, val0) == Err::<
                            ValueModel,
                            PipelineErrorModel,
                        >(err@));
                        lemma_exec_error_persists(fs, self@.ignore_missing, val0, i + 1);
                    }
                    return Err(err);
                }
                event = Value::Object(entries);
            } else {
                match self.process(&entries[idx].1) {
                    Err(e) => {
                        proof {
                            lemma_exec_error_persists(fs, self@.ignore_missing, val0, i + 1);
                        }
                        return Err(e);
                    },
                    Ok(result) => {
                        insert_entry(&mut entries, field.target_or_input_field().clone(), result);
                        proof {
                            lemma_object_model(entries);
                        }
                        event = Value::Object(entries);
                    },
                }
            }
            i = i + 1;
        }
        assert(fs.take(n as int) =~= fs);
        Ok(event)
    }
}

/// Once a prefix of the configuration fails to read, the whole reading fails with the same error.
pub proof fn lemma_config_error_persists(pairs: Seq<(YamlModel, YamlModel)>, n: int)
    requires
        0 <= n <= pairs.len(),
        spec_config(pairs.take(n)) is Err,
    ensures
        spec_config(pairs) == spec_config(pairs.take(n)),
    decreases pairs.len() - n,
{
    if n < pairs.len() {
        assert(pairs.drop_last().take(n) =~= pairs.take(n));
        lemma_config_error_persists(pairs.drop_last(), n);
    } else {
        assert(pairs.take(n) =~= pairs);
    }
}

/// Once the fields up to some point fail, the whole run fails with the same error.
pub proof fn lemma_exec_error_persists(
    fields: Seq<FieldModel>,
    ignore_missing: bool,
    val: ValueModel,
    n: int,
)
    requires
        0 <= n <= fields.len(),
        spec_exec(fields.take(n), ignore_missing, val) is Err,
    ensures
        spec_exec(fields, ignore_missing, val) == spec_exec(fields.take(n), ignore_missing, val),
    decreases fields.len() - n,
{
    if n < fields.len() {
        assert(fields.drop_last().take(n) =~= fields.take(n));
        lemma_exec_error_persists(fields.drop_last(), ignore_missing, val, n);
    } else {
        assert(fields.take(n) =~= fields);
    }
}

} // verus!

verus! {

/// With no fields configured, the processor hands the event back as it is.
pub proof fn law_no_fields_no_change(ignore_missing: bool, val: ValueModel)
    ensures
        spec_exec(Seq::empty(), ignore_missing, val) == Ok::<ValueModel, PipelineErrorModel>(val),
{
}

/// A field whose input holds text gets the decolorized text at its target.
pub proof fn law_text_field_decolorized(
    f: FieldModel,
    ignore_missing: bool,
    m: Seq<(Seq<char>, ValueModel)>,
    b: Seq<u8>,
)
    requires
        object_get(m, f.input) == Some(ValueModel::Bytes(b)),
    ensures
        exec_step(f, ignore_missing, ValueModel::Object(m)) matches Ok(ValueModel::Object(m2))
            && object_get(m2, target_or_input(f)) == Some(ValueModel::Bytes(decolorize_bytes(b))),
{
    crate::value::lemma_insert_get_same(m, target_or_input(f), ValueModel::Bytes(decolorize_bytes(b)));
}

/// A successful run changes no key of the event but the target fields.
pub proof fn law_only_targets_change(
    fields: Seq<FieldModel>,
    ignore_missing: bool,
    m: Seq<(Seq<char>, ValueModel)>,
    k: Seq<char>,
)
    requires
        spec_exec(fields, ignore_missing, ValueModel::Object(m)) is Ok,
        fields.len() > 0,
        forall|i: int| 0 <= i < fields.len() ==> target_or_input(#[trigger] fields[i]) != k,
    ensures
        spec_exec(fields, ignore_missing, ValueModel::Object(m)) matches Ok(ValueModel::Object(m2))
            && object_get(m2, k) == object_get(m, k),
    decreases fields.len(),
{
    let prefix = fields.drop_last();
    let f = fields.last();
    assert(target_or_input(fields[fields.len() - 1]) != k);
    if prefix.len() == 0 {
        let cur = ValueModel::Object(m);
        assert(spec_exec(prefix, ignore_missing, cur) == Ok::<ValueModel, PipelineErrorModel>(cur));
        if let Some(v) = object_get(m, f.input) {
            if !(v is Null) {
                if let Ok(r) = spec_process(v) {
                    crate::value::lemma_insert_get_other(m, target_or_input(f), r, k);
                }
            }
        }
    } else {
        assert forall|i: int| 0 <= i < prefix.len() implies target_or_input(#[trigger] prefix[i])
            != k by {
            assert(prefix[i] == fields[i]);
        }
        if let Ok(cur) = spec_exec(prefix, ignore_missing, ValueModel::Object(m)) {
            law_only_targets_change(prefix, ignore_missing, m, k);
            if let ValueModel::Object(m1) = cur {
                if let Some(v) = object_get(m1, f.input) {
                    if !(v is Null) {
                        if let Ok(r) = spec_process(v) {
                            crate::value::lemma_insert_get_other(m1, target_or_input(f), r, k);
                        }
                    }
                }
            }
        }
    }
}

} // verus!

verus! {

/// When missing fields are skipped and none of the input fields is present, the
/// event comes back as it is.
pub proof fn law_all_missing_ignored(fields: Seq<FieldModel>, m: Seq<(Seq<char>, ValueModel)>)
    requires
        forall|i: int| 0 <= i < fields.len() ==> object_get(m, (#[trigger] fields[i]).input) is None,
    ensures
        spec_exec(fields, true, ValueModel::Object(m)) == Ok::<ValueModel, PipelineErrorModel>(
            ValueModel::Object(m),
        ),
    decreases fields.len(),
{
    if fields.len() > 0 {
        let prefix = fields.drop_last();
        assert forall|i: int| 0 <= i < prefix.len() implies object_get(
            m,
            (#[trigger] prefix[i]).input,
        ) is None by {
            assert(prefix[i] == fields[i]);
        }
        law_all_missing_ignored(prefix, m);
        assert(object_get(m, fields[fields.len() - 1].input) is None);
    }
}

} // verus!

verus! {

/// The bytes that the input field of `f` holds in the object `m`.
pub open spec fn input_bytes(m: Seq<(Seq<char>, ValueModel)>, f: FieldModel) -> Seq<u8> {
    match object_get(m, f.input) {
        Some(ValueModel::Bytes(b)) => b,
        _ => Seq::empty(),
    }
}

/// Whether the input field of `f` holds text in the object `m`.
pub open spec fn input_is_text(m: Seq<(Seq<char>, ValueModel)>, f: FieldModel) -> bool {
    object_get(m, f.input) matches Some(ValueModel::Bytes(_))
}

/// The whole result of a run where every input field holds text, the targets are
/// distinct, and no field writes to another field's input: each target holds the
/// decolorized text of its input, and every other key keeps its value.
pub proof fn law_whole_run(fields: Seq<FieldModel>, ignore_missing: bool, m: Seq<(Seq<char>, ValueModel)>)
    requires
        forall|i: int| 0 <= i < fields.len() ==> input_is_text(m, #[trigger] fields[i]),
        forall|i: int, j: int|
            0 <= i < fields.len() && 0 <= j < fields.len() && i != j ==> target_or_input(
                #[trigger] fields[i],
            ) != target_or_input(#[trigger] fields[j]),
        forall|i: int, j: int|
            0 <= i < fields.len() && 0 <= j < fields.len() && i != j ==> target_or_input(
                #[trigger] fields[i],
            ) != (#[trigger] fields[j]).input,
    ensures
        spec_exec(fields, ignore_missing, ValueModel::Object(m)) matches Ok(ValueModel::Object(m2))
            && (forall|i: int|
            0 <= i < fields.len() ==> object_get(m2, target_or_input(#[trigger] fields[i])) == Some(
                ValueModel::Bytes(decolorize_bytes(input_bytes(m, fields[i]))),
            )) && (forall|k: Seq<char>|
            (forall|i: int| 0 <= i < fields.len() ==> target_or_input(#[trigger] fields[i]) != k)
                ==> object_get(m2, k) == object_get(m, k)),
    decreases fields.len(),
{
    if fields.len() > 0 {
        let n = fields.len() - 1;
        let prefix = fields.drop_last();
        let f = fields[n];
        assert forall|i: int| 0 <= i < prefix.len() implies input_is_text(m, #[trigger] prefix[i]) by {
            assert(prefix[i] == fields[i]);
        }
        assert forall|i: int, j: int|
            0 <= i < prefix.len() && 0 <= j < prefix.len() && i != j implies target_or_input(
                #[trigger] prefix[i],
            ) != target_or_input(#[trigger] prefix[j]) by {
            assert(prefix[i] == fields[i] && prefix[j] == fields[j]);
        }
        assert forall|i: int, j: int|
            0 <= i < prefix.len() && 0 <= j < prefix.len() && i != j implies target_or_input(
                #[trigger] prefix[i],
            ) != (#[trigger] prefix[j]).input by {
            assert(prefix[i] == fields[i] && prefix[j] == fields[j]);
        }
        law_whole_run(prefix, ignore_missing, m);
        if let Ok(ValueModel::Object(m1)) = spec_exec(prefix, ignore_missing, ValueModel::Object(m)) {
            // The last field's input is no earlier field's target, so it still holds its text.
            assert forall|i: int| 0 <= i < prefix.len() implies target_or_input(
                #[trigger] prefix[i],
            ) != f.input by {
                assert(prefix[i] == fields[i]);
            }
            assert(object_get(m1, f.input) == object_get(m, f.input));
            assert(input_is_text(m, fields[n]));
            let x = ValueModel::Bytes(decolorize_bytes(input_bytes(m, f)));
            let t = target_or_input(f);
            let m2 = object_insert(m1, t, x);
            assert(spec_exec(fields, ignore_missing, ValueModel::Object(m)) == Ok::<
                ValueModel,
                PipelineErrorModel,
            >(ValueModel::Object(m2)));
            crate::value::lemma_insert_get_same(m1, t, x);
            assert forall|i: int| 0 <= i < fields.len() implies object_get(
                m2,
                target_or_input(#[trigger] fields[i]),
            ) == Some(ValueModel::Bytes(decolorize_bytes(input_bytes(m, fields[i])))) by {
                if i < n {
                    assert(prefix[i] == fields[i]);
                    crate::value::lemma_insert_get_other(m1, t, x, target_or_input(fields[i]));
                }
            }
            assert forall|k: Seq<char>|
                (forall|i: int| 0 <= i < fields.len() ==> target_or_input(#[trigger] fields[i]) != k)
                    implies object_get(m2, k) == object_get(m, k) by {
                assert(target_or_input(fields[n]) != k);
                assert forall|i: int| 0 <= i < prefix.len() implies target_or_input(
                    #[trigger] prefix[i],
                ) != k by {
                    assert(prefix[i] == fields[i]);
                }
                crate::value::lemma_insert_get_other(m1, t, x, k);
            }
        }
    }
}

/// A pair whose key is a string other than the three configuration keys changes
/// nothing, wherever it stands in the configuration.
pub proof fn law_unknown_key_ignored(
    pairs: Seq<(YamlModel, YamlModel)>,
    i: int,
    k: Seq<char>,
    v: YamlModel,
)
    requires
        0 <= i <= pairs.len(),
        k != FIELD_NAME@,
        k != FIELDS_NAME@,
        k != IGNORE_MISSING_NAME@,
    ensures
        spec_config(pairs.insert(i, (YamlModel::String(k), v))) == spec_config(pairs),
    decreases pairs.len(),
{
    let p2 = pairs.insert(i, (YamlModel::String(k), v));
    if i == pairs.len() {
        assert(p2.drop_last() =~= pairs);
        assert(p2.last() == (YamlModel::String(k), v));
    } else {
        assert(p2.drop_last() =~= pairs.drop_last().insert(i, (YamlModel::String(k), v)));
        assert(p2.last() == pairs.last());
        law_unknown_key_ignored(pairs.drop_last(), i, k, v);
    }
}

/// The value of the last `ignore_missing` pair of a configuration, or `false` where
/// there is none.
pub open spec fn last_ignore_missing(pairs: Seq<(YamlModel, YamlModel)>) -> bool
    decreases pairs.len(),
{
    if pairs.len() == 0 {
        false
    } else if pairs.last().0 == YamlModel::String(IGNORE_MISSING_NAME@) {
        match spec_as_bool(pairs.last().1) {
            Some(b) => b,
            None => false,
        }
    } else {
        last_ignore_missing(pairs.drop_last())
    }
}

/// A processor built from a configuration skips missing fields exactly when the
/// last `ignore_missing` pair says so; without such a pair it does not.
pub proof fn law_ignore_missing_is_last_entry(pairs: Seq<(YamlModel, YamlModel)>)
    ensures
        spec_config(pairs) matches Ok(st) ==> st.ignore_missing == last_ignore_missing(pairs),
    decreases pairs.len(),
{
    reveal_strlit("field");
    reveal_strlit("fields");
    reveal_strlit("ignore_missing");
    if pairs.len() > 0 {
        law_ignore_missing_is_last_entry(pairs.drop_last());
        let (k, v) = pairs.last();
        if let YamlModel::String(s) = k {
            if s == IGNORE_MISSING_NAME@ {
                assert(IGNORE_MISSING_NAME@.len() == 14);
                assert(FIELD_NAME@.len() == 5);
                assert(FIELDS_NAME@.len() == 6);
            }
        }
    }
}

} // verus!

verus! {

/// A successful run on an object whose keys are distinct gives an object whose keys
/// are distinct.
pub proof fn law_run_keeps_keys_distinct(
    fields: Seq<FieldModel>,
    ignore_missing: bool,
    m: Seq<(Seq<char>, ValueModel)>,
)
    requires
        crate::value::keys_distinct(m),
    ensures
        spec_exec(fields, ignore_missing, ValueModel::Object(m)) matches Ok(r) ==> (r matches ValueModel::Object(
            m2,
        ) && crate::value::keys_distinct(m2)),
    decreases fields.len(),
{
    if fields.len() > 0 {
        let prefix = fields.drop_last();
        let f = fields.last();
        law_run_keeps_keys_distinct(prefix, ignore_missing, m);
        if let Ok(ValueModel::Object(m1)) = spec_exec(prefix, ignore_missing, ValueModel::Object(m)) {
            if let Some(v) = object_get(m1, f.input) {
                if !(v is Null) {
                    if let Ok(r) = spec_process(v) {
                        crate::value::law_insert_keeps_keys_distinct(m1, target_or_input(f), r);
                    }
                }
            }
        }
    }
}

/// A successful run on an object whose keys are in order gives an object whose keys
/// are in order: a target key that the run adds takes its place among the others.
pub proof fn law_run_keeps_keys_sorted(
    fields: Seq<FieldModel>,
    ignore_missing: bool,
    m: Seq<(Seq<char>, ValueModel)>,
)
    requires
        crate::value::keys_sorted(m),
    ensures
        spec_exec(fields, ignore_missing, ValueModel::Object(m)) matches Ok(r) ==> (r matches ValueModel::Object(
            m2,
        ) && crate::value::keys_sorted(m2)),
    decreases fields.len(),
{
    if fields.len() > 0 {
        let prefix = fields.drop_last();
        let f = fields.last();
        law_run_keeps_keys_sorted(prefix, ignore_missing, m);
        if let Ok(ValueModel::Object(m1)) = spec_exec(prefix, ignore_missing, ValueModel::Object(m)) {
            if let Some(v) = object_get(m1, f.input) {
                if !(v is Null) {
                    if let Ok(r) = spec_process(v) {
                        crate::value::law_insert_keeps_keys_sorted(m1, target_or_input(f), r);
                    }
                }
            }
        }
    }
}

/// A field whose input is present and holds neither null nor text makes the run fail
/// with a "expects a string" error that carries the value, whether or not missing
/// fields are ignored.
pub proof fn law_present_non_text_field_fails(
    prefix: Seq<FieldModel>,
    f: FieldModel,
    ignore_missing: bool,
    val: ValueModel,
    m: Seq<(Seq<char>, ValueModel)>,
    v: ValueModel,
)
    requires
        spec_exec(prefix, ignore_missing, val) == Ok::<ValueModel, PipelineErrorModel>(ValueModel::Object(m)),
        object_get(m, f.input) == Some(v),
        !(v is Null),
        !(v is Bytes),
    ensures
        spec_exec(prefix.push(f), ignore_missing, val) == Err::<ValueModel, PipelineErrorModel>(
            PipelineErrorModel::ProcessorExpectString { processor: PROCESSOR_DECOLORIZE@, v },
        ),
{
    assert(prefix.push(f).drop_last() =~= prefix);
    assert(prefix.push(f).last() == f);
}

/// Whether missing fields are ignored changes nothing for a field whose input is
/// present and not null: the flag only decides what happens to absent or null inputs.
pub proof fn law_ignore_missing_only_for_missing(
    prefix: Seq<FieldModel>,
    f: FieldModel,
    val: ValueModel,
    m: Seq<(Seq<char>, ValueModel)>,
    v: ValueModel,
)
    requires
        spec_exec(prefix, true, val) == Ok::<ValueModel, PipelineErrorModel>(ValueModel::Object(m)),
        spec_exec(prefix, false, val) == Ok::<ValueModel, PipelineErrorModel>(ValueModel::Object(m)),
        object_get(m, f.input) == Some(v),
        !(v is Null),
    ensures
        spec_exec(prefix.push(f), true, val) == spec_exec(prefix.push(f), false, val),
{
    assert(prefix.push(f).drop_last() =~= prefix);
    assert(prefix.push(f).last() == f);
}

} // verus!
