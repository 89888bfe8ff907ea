use vstd::prelude::*;
use fil_pasta_curves::Fq;
use crate::json::{Json, StepInput, field_value, find_field};
use crate::scalar::{is_decimal_numeral, parse_scalar};

verus! {

/// Which of the two accepted conventions supplied the public initializer.
#[derive(Debug, Clone, Copy, PartialEq, Eq, Structural)]
pub enum InitStrategy {
    /// A bare decimal string under `z0`.
    BareScalar,
    /// The first element of an array under `step_in`.
    ListHead,
}

#[derive(Debug, Clone, Copy, PartialEq, Eq, Structural)]
pub enum InputFormatError {
    /// There is no step 0, or neither convention matches its fields.
    MissingInitializer,
    /// The initializer's text is not a field element.
    InvalidScalar,
}

/// The first step's inputs after extraction of the public initializer.
#[derive(Debug)]
pub struct StepInputs {
    pub z0: Fq,
    pub z0_text: String,
    pub strategy: InitStrategy,
    pub steps: Vec<StepInput>,
}

pub open spec fn scalar_key() -> Seq<char> {
    seq!['z', '0']
}

pub open spec fn list_key() -> Seq<char> {
    seq!['s', 't', 'e', 'p', '_', 'i', 'n']
}

pub fn scalar_key_text() -> (r: String)
    ensures
        r@ == scalar_key(),
{
    proof {
        reveal_strlit("z0");
    }
    "z0".to_owned()
}

pub fn list_key_text() -> (r: String)
    ensures
        r@ == list_key(),
{
    proof {
        reveal_strlit("step_in");
    }
    "step_in".to_owned()
}

/// The public initializer that a step's fields carry, by the first convention
/// that matches: a bare string under `z0`, else the first element of an array
/// under `step_in` when that element is a string.
pub open spec fn initializer_of(fields: Seq<(String, Json)>) -> Option<(InitStrategy, Seq<char>)> {
    match field_value(fields, scalar_key()) {
        Some(Json::Text(s)) => Some((InitStrategy::BareScalar, s@)),
        _ => match field_value(fields, list_key()) {
            Some(Json::List(items)) => if items@.len() > 0 {
                match items@[0] {
                    Json::Text(s) => Some((InitStrategy::ListHead, s@)),
                    _ => None,
                }
            } else {
                None
            },
            _ => None,
        },
    }
}

pub open spec fn is_initializer_key(k: Seq<char>) -> bool {
    k == scalar_key() || k == list_key()
}

/// The fields that remain witness material: all but those under an initializer key.
pub open spec fn stripped(fields: Seq<(String, Json)>) -> Seq<(String, Json)> {
    fields.filter(|f: (String, Json)| !is_initializer_key(f.0@))
}

/// Finds the public initializer of a step by the two conventions, in order.
pub fn locate_initializer(step: &StepInput) -> (r: Option<(InitStrategy, String)>)
    ensures
        match r {
            Some((k, t)) => initializer_of(step.fields@) == Some((k, t@)),
            None => initializer_of(step.fields@) is None,
        },
{
    let fields = &step.fields;
    let sk = scalar_key_text();
    if let Some(i) = find_field(fields, &sk) {
        if let Json::Text(s) = &fields[i].1 {
            return Some((InitStrategy::BareScalar, s.clone()));
        }
    }
    let lk = list_key_text();
    if let Some(i) = find_field(fields, &lk) {
        if let Json::List(items) = &fields[i].1 {
            if items.len() > 0 {
                if let Json::Text(s) = &items[0] {
                    return Some((InitStrategy::ListHead, s.clone()));
                }
            }
        }
    }
    None
}

/// Drops every field under an initializer key, keeping the others in order.
pub fn strip_initializer(step: StepInput) -> (r: StepInput)
    ensures
        r.fields@ == stripped(step.fields@),
{
    let StepInput { mut fields } = step;
    let ghost orig = fields@;
    let n = fields.len();
    let sk = scalar_key_text();
    let lk = list_key_text();
    let mut out: Vec<(String, Json)> = Vec::new();
    let mut i: usize = 0;
    proof {
        reveal(Seq::filter);
        assert(orig.subrange(0, 0) =~= Seq::<(String, Json)>::empty());
    }
    while i < n
        invariant
            n == orig.len(),
            i <= n,
            fields@ == orig.subrange(i as int, n as int),
            out@ == stripped(orig.subrange(0, i as int)),
            sk@ == scalar_key(),
            lk@ == list_key(),
        decreases n - i,
    {
        let f = fields.remove(0);
        proof {
            reveal(Seq::filter);
            assert(f == orig[i as int]);
            assert(fields@ =~= orig.subrange(i + 1, n as int));
            assert(orig.subrange(0, i + 1).drop_last() =~= orig.subrange(0, i as int));
            assert(orig.subrange(0, i + 1).last() == f);
        }
        let under_key = f.0 == sk || f.0 == lk;
        if !under_key {
            out.push(f);
        }
        i = i + 1;
    }
    proof {
        assert(orig.subrange(0, n as int) =~= orig);
    }
    StepInput { fields: out }
}

/// A field list in which no entry has the name `key` yields nothing under it.
proof fn lemma_absent_key(fields: Seq<(String, Json)>, key: Seq<char>)
    requires
        forall|j: int| 0 <= j < fields.len() ==> (#[trigger] fields[j]).0@ != key,
    ensures
        field_value(fields, key) is None,
    decreases fields.len(),
{
    if fields.len() > 0 {
        assert(fields[0].0@ != key);
        assert forall|j: int| 0 <= j < fields.drop_first().len() implies (
        #[trigger] fields.drop_first()[j]).0@ != key by {
            assert(fields.drop_first()[j] == fields[j + 1]);
        }
        lemma_absent_key(fields.drop_first(), key);
    }
}

/// Once the initializer fields are removed, a step carries no public
/// initializer under either convention, and no field under either key.
pub proof fn lemma_stripped_has_no_initializer(fields: Seq<(String, Json)>)
    ensures
        initializer_of(stripped(fields)) is None,
        forall|j: int|
            0 <= j < stripped(fields).len() ==> !is_initializer_key(
                (#[trigger] stripped(fields)[j]).0@,
            ),
{
    let kept = stripped(fields);
    assert forall|j: int| 0 <= j < kept.len() implies !is_initializer_key(
        (#[trigger] kept[j]).0@,
    ) by {
        fields.lemma_filter_pred(|f: (String, Json)| !is_initializer_key(f.0@), j);
    }
    lemma_absent_key(kept, scalar_key());
    lemma_absent_key(kept, list_key());
}

/// Turns the parsed step documents, in fold order, into the initial public
/// state and the private inputs of each step. The initializer comes from
/// step 0; every step loses the fields under both initializer keys.
pub fn load_step_inputs(raw: Vec<StepInput>) -> (r: Result<StepInputs, InputFormatError>)
    ensures
        match r {
            Ok(loaded) => {
                &&& raw@.len() > 0
                &&& initializer_of(raw@[0].fields@) == Some((loaded.strategy, loaded.z0_text@))
                &&& is_decimal_numeral(loaded.z0_text@)
                &&& loaded.steps@.len() == raw@.len()
                &&& forall|i: int|
                    0 <= i < raw@.len() ==> (#[trigger] loaded.steps@[i]).fields@ == stripped(
                        raw@[i].fields@,
                    )
                &&& forall|i: int|
                    0 <= i < raw@.len() ==> initializer_of((#[trigger] loaded.steps@[i]).fields@) is None
            },
            Err(InputFormatError::MissingInitializer) => raw@.len() == 0 || initializer_of(
                raw@[0].fields@,
            ) is None,
            Err(InputFormatError::InvalidScalar) => raw@.len() > 0 && match initializer_of(
                raw@[0].fields@,
            ) {
                Some((_, t)) => !is_decimal_numeral(t),
                None => false,
            },
        },
{
    if raw.len() == 0 {
        return Err(InputFormatError::MissingInitializer);
    }
    let (strategy, z0_text) = match locate_initializer(&raw[0]) {
        Some(found) => found,
        None => return Err(InputFormatError::MissingInitializer),
    };
    let z0 = match parse_scalar(z0_text.as_str()) {
        Some(v) => v,
        None => return Err(InputFormatError::InvalidScalar),
    };
    let ghost orig = raw@;
    let mut raw = raw;
    let n = raw.len();
    let mut steps: Vec<StepInput> = Vec::new();
    let mut i: usize = 0;
    assert(orig.subrange(0, n as int) =~= orig);
    while i < n
        invariant
            n == orig.len(),
            i <= n,
            raw@ == orig.subrange(i as int, n as int),
            steps@.len() == i,
            forall|j: int|
                0 <= j < i ==> (#[trigger] steps@[j]).fields@ == stripped(orig[j].fields@),
            forall|j: int| 0 <= j < i ==> initializer_of((#[trigger] steps@[j]).fields@) is None,
        decreases n - i,
    {
        let step = raw.remove(0);
        assert(step == orig[i as int]);
        assert(raw@ =~= orig.subrange(i + 1, n as int));
        let kept = strip_initializer(step);
        proof {
            lemma_stripped_has_no_initializer(orig[i as int].fields@);
        }
        steps.push(kept);
        i = i + 1;
    }
    Ok(StepInputs { z0, z0_text, strategy, steps })
}

} // verus!
