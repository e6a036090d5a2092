use crate::args::{
    arg_type_of, clone_arg, view_type, ArgValue, ArgView, FieldType, PayloadEntry,
};
use vstd::prelude::*;

verus! {

/// One field of a parameter schema: its name, expected type, whether the
/// caller must supply it, and the value used when an optional field is
/// omitted.
#[derive(Debug)]
pub struct FieldSpec {
    pub name: String,
    pub ty: FieldType,
    pub required: bool,
    pub default: Option<ArgValue>,
}

/// A parameter schema: the fields a tool expects, in declaration order.
#[derive(Debug)]
pub struct ParamSchema {
    pub fields: Vec<FieldSpec>,
}

/// A required field carries no default; an optional field carries a default
/// of its own type.
pub open spec fn field_wf(f: FieldSpec) -> bool {
    match f.default {
        Option::Some(d) => !f.required && view_type(d@) == f.ty,
        Option::None => f.required,
    }
}

pub open spec fn schema_wf(s: ParamSchema) -> bool {
    forall|i: int| 0 <= i < s.fields@.len() ==> field_wf(#[trigger] s.fields@[i])
}

/// First-match lookup of `name` in a payload.
pub open spec fn lookup(p: Seq<PayloadEntry>, name: Seq<char>) -> Option<ArgView>
    decreases p.len(),
{
    if p.len() == 0 {
        Option::None
    } else if p[0].key@ == name {
        Option::Some(p[0].value@)
    } else {
        lookup(p.subrange(1, p.len() as int), name)
    }
}

/// The payload satisfies `f`: the value supplied for it has the expected
/// type, or the field is optional and absent.
pub open spec fn field_ok(f: FieldSpec, p: Seq<PayloadEntry>) -> bool {
    match lookup(p, f.name@) {
        Option::Some(v) => view_type(v) == f.ty,
        Option::None => !f.required,
    }
}

pub open spec fn all_fields_ok(fields: Seq<FieldSpec>, p: Seq<PayloadEntry>) -> bool {
    forall|i: int| 0 <= i < fields.len() ==> field_ok(#[trigger] fields[i], p)
}

/// The value validation resolves for `f`: the supplied value, or the default.
pub open spec fn resolved_value(f: FieldSpec, p: Seq<PayloadEntry>) -> ArgView {
    match lookup(p, f.name@) {
        Option::Some(v) => v,
        Option::None => match f.default {
            Option::Some(d) => d@,
            Option::None => vstd::pervasive::arbitrary(),
        },
    }
}

/// The type actually found in the payload for `f`, if any.
pub open spec fn found_type(f: FieldSpec, p: Seq<PayloadEntry>) -> Option<FieldType> {
    match lookup(p, f.name@) {
        Option::Some(v) => Option::Some(view_type(v)),
        Option::None => Option::None,
    }
}

/// The index of the first field the payload does not satisfy.
pub open spec fn first_bad(fields: Seq<FieldSpec>, p: Seq<PayloadEntry>) -> int
    decreases fields.len(),
{
    if fields.len() == 0 {
        0
    } else if !field_ok(fields[0], p) {
        0
    } else {
        1 + first_bad(fields.subrange(1, fields.len() as int), p)
    }
}

proof fn lemma_first_bad_at(fields: Seq<FieldSpec>, p: Seq<PayloadEntry>, i: int)
    requires
        0 <= i < fields.len(),
        forall|j: int| 0 <= j < i ==> field_ok(#[trigger] fields[j], p),
        !field_ok(fields[i], p),
    ensures
        first_bad(fields, p) == i,
    decreases i,
{
    if i == 0 {
    } else {
        let rest = fields.subrange(1, fields.len() as int);
        assert(forall|j: int| 0 <= j < i - 1 ==> #[trigger] rest[j] == fields[j + 1]);
        lemma_first_bad_at(rest, p, i - 1);
    }
}

/// The reason a payload was rejected: the offending field, the type its
/// schema entry expects, and the type found (`None` when the field was
/// missing).
#[derive(Debug)]
pub struct ValidationIssue {
    pub field: String,
    pub expected: FieldType,
    pub found: Option<FieldType>,
}

/// Looks `name` up in `payload`, first match wins.
pub fn lookup_arg(payload: &Vec<PayloadEntry>, name: &String) -> (r: Option<ArgValue>)
    ensures
        match r {
            Option::Some(v) => lookup(payload@, name@) == Option::Some(v@),
            Option::None => lookup(payload@, name@) is None,
        },
{
    let n = payload.len();
    let mut i: usize = 0;
    proof {
        assert(payload@.subrange(0, n as int) =~= payload@);
    }
    while i < n
        invariant
            i <= n,
            n == payload@.len(),
            lookup(payload@, name@) == lookup(payload@.subrange(i as int, n as int), name@),
        decreases n - i,
    {
        let ghost tail = payload@.subrange(i as int, n as int);
        proof {
            assert(tail.len() > 0);
            assert(tail[0] == payload@[i as int]);
        }
        if payload[i].key.eq(name) {
            return Option::Some(clone_arg(&payload[i].value));
        }
        proof {
            assert(tail.subrange(1, tail.len() as int) =~= payload@.subrange(
                i + 1,
                n as int,
            ));
        }
        i = i + 1;
    }
    Option::None
}

/// Validates `payload` against `schema`: applies defaults for omitted
/// optional fields, rejects a missing required field or a type mismatch,
/// and reports the first offending field in schema order.
pub fn validate(schema: &ParamSchema, payload: &Vec<PayloadEntry>) -> (r: Result<
    Vec<PayloadEntry>,
    ValidationIssue,
>)
    requires
        schema_wf(*schema),
    ensures
        (r is Ok) == all_fields_ok(schema.fields@, payload@),
        r matches Ok(out) ==> {
            &&& out@.len() == schema.fields@.len()
            &&& forall|i: int|
                0 <= i < out@.len() ==> (#[trigger] out@[i]).key@ == schema.fields@[i].name@
                    && out@[i].value@ == resolved_value(schema.fields@[i], payload@)
        },
        r matches Err(e) ==> {
            let j = first_bad(schema.fields@, payload@);
            &&& 0 <= j < schema.fields@.len()
            &&& e.field@ == schema.fields@[j].name@
            &&& e.expected == schema.fields@[j].ty
            &&& e.found == found_type(schema.fields@[j], payload@)
        },
{
    let n = schema.fields.len();
    let mut out: Vec<PayloadEntry> = Vec::new();
    let mut i: usize = 0;
    while i < n
        invariant
            i <= n,
            n == schema.fields@.len(),
            schema_wf(*schema),
            out@.len() == i as int,
            forall|j: int| 0 <= j < i ==> field_ok(#[trigger] schema.fields@[j], payload@),
            forall|j: int|
                0 <= j < i ==> (#[trigger] out@[j]).key@ == schema.fields@[j].name@
                    && out@[j].value@ == resolved_value(schema.fields@[j], payload@),
        decreases n - i,
    {
        let f = &schema.fields[i];
        match lookup_arg(payload, &f.name) {
            Option::Some(v) => {
                let t = arg_type_of(&v);
                if t == f.ty {
                    out.push(PayloadEntry { key: f.name.clone(), value: v });
                } else {
                    proof {
                        lemma_first_bad_at(schema.fields@, payload@, i as int);
                    }
                    return Result::Err(ValidationIssue {
                        field: f.name.clone(),
                        expected: f.ty,
                        found: Option::Some(t),
                    });
                }
            },
            Option::None => {
                if f.required {
                    proof {
                        lemma_first_bad_at(schema.fields@, payload@, i as int);
                    }
                    return Result::Err(ValidationIssue {
                        field: f.name.clone(),
                        expected: f.ty,
                        found: Option::None,
                    });
                } else {
                    match &f.default {
                        Option::Some(d) => {
                            out.push(PayloadEntry { key: f.name.clone(), value: clone_arg(d) });
                        },
                        Option::None => {
                            proof {
                                assert(false);
                            }
                        },
                    }
                }
            },
        }
        i = i + 1;
    }
    Result::Ok(out)
}

} // verus!
