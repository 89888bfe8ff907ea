use vstd::prelude::*;

verus! {

/// A JSON value as the input pipeline sees it: numbers keep their decimal text.
#[derive(Debug)]
pub enum Json {
    Null,
    Bool(bool),
    Number(String),
    Text(String),
    List(Vec<Json>),
    Object(Vec<(String, Json)>),
}

/// One step's input document: its top-level fields, each name with its value.
#[derive(Debug)]
pub struct StepInput {
    pub fields: Vec<(String, Json)>,
}

/// The value of the first field named `key`, if any.
pub open spec fn field_value(fields: Seq<(String, Json)>, key: Seq<char>) -> Option<Json>
    decreases fields.len(),
{
    if fields.len() == 0 {
        None
    } else if fields[0].0@ == key {
        Some(fields[0].1)
    } else {
        field_value(fields.drop_first(), key)
    }
}

/// Position of the first field named `key`.
pub fn find_field(fields: &Vec<(String, Json)>, key: &String) -> (r: Option<usize>)
    ensures
        match r {
            Some(i) => i < fields@.len() && fields@[i as int].0@ == key@
                && field_value(fields@, key@) == Some(fields@[i as int].1),
            None => field_value(fields@, key@) is None,
        },
{
    let n = fields.len();
    let mut i: usize = 0;
    assert(fields@.subrange(0, n as int) =~= fields@);
    while i < n
        invariant
            n == fields@.len(),
            i <= n,
            field_value(fields@, key@) == field_value(fields@.subrange(i as int, n as int), key@),
        decreases n - i,
    {
        let rest = Ghost(fields@.subrange(i as int, n as int));
        assert(rest@.drop_first() =~= fields@.subrange(i + 1, n as int));
        assert(rest@[0] == fields@[i as int]);
        if fields[i].0 == *key {
            return Some(i);
        }
        i = i + 1;
    }
    None
}

} // verus!
