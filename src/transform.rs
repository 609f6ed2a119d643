use vstd::prelude::*;
use crate::attrs::{parse_attribute_list, requested_fields};
use crate::definition::{fields_view, named_fields, TypeDefinition, TypeShape};
use crate::emit::{finders_text, gen_find_by_func};
use crate::error::{result_view, Failure, TransformError};
use crate::table::{get_table_name, table_name_of};

verus! {

/// The whole transformation: the definition's source text followed by the
/// finder blocks of every requested field, or the reason it is refused.
/// The shape is checked first, then the table annotation, then each request
/// in order.
pub open spec fn transformed(
    args: Seq<char>,
    name: Seq<char>,
    shape: TypeShape,
    source: Seq<char>,
) -> Result<Seq<char>, Failure> {
    match named_fields(shape) {
        None => Err(Failure::UnsupportedShape),
        Some(fs) => match table_name_of(source) {
            Err(e) => Err(e),
            Ok(tbl) => match finders_text(name, fs, tbl, requested_fields(args)) {
                Err(e) => Err(e),
                Ok(g) => Ok(source + g),
            },
        },
    }
}

/// Appends to a record definition's source text a `find_by_<field>` and a
/// `find_all_by_<field>` function for each field named in `args`, a
/// comma-separated list such as `email, "username"`.
pub fn findable_by(args: &str, def: &TypeDefinition) -> (r: Result<String, TransformError>)
    ensures
        result_view(r) == transformed(args@, def.name@, def.shape, def.source@),
{
    let fields = match &def.shape {
        TypeShape::Struct(fs) => fs,
        _ => {
            return Err(TransformError::UnsupportedShape);
        },
    };
    let ghost fs = fields_view(fields@);
    let table = match get_table_name(def.source.as_str()) {
        Ok(t) => t,
        Err(e) => {
            return Err(e);
        },
    };
    let reqs = parse_attribute_list(args);
    let ghost rq = reqs@.map_values(|s: String| s@);
    let mut out = def.source.clone();
    let mut i: usize = 0;
    while i < reqs.len()
        invariant
            i <= reqs@.len(),
            rq == reqs@.map_values(|s: String| s@),
            rq == requested_fields(args@),
            fs == fields_view(fields@),
            named_fields(def.shape) == Some(fs),
            table_name_of(def.source@) == Ok::<Seq<char>, Failure>(table@),
            finders_text(def.name@, fs, table@, rq.take(i as int)) matches Ok(g) && out@
                == def.source@ + g,
        decreases reqs.len() - i,
    {
        assert(rq.take(i + 1).drop_last() == rq.take(i as int));
        assert(rq.take(i + 1).last() == reqs@[i as int]@);
        match gen_find_by_func(def.name.as_str(), table.as_str(), &reqs[i], fields) {
            Ok(block) => {
                let ghost before = out@;
                out.append(block.as_str());
                assert(out@ =~= before + block@);
                proof {
                    let g = finders_text(def.name@, fs, table@, rq.take(i as int))->Ok_0;
                    assert(before == def.source@ + g);
                    assert(out@ =~= def.source@ + (g + block@));
                }
            },
            Err(e) => {
                proof {
                    lemma_failure_persists(def.name@, fs, table@, rq, i + 1);
                }
                return Err(e);
            },
        }
        i = i + 1;
    }
    assert(rq.take(reqs.len() as int) == rq);
    Ok(out)
}

/// Once a prefix of the requests fails, every longer prefix fails the same way.
proof fn lemma_failure_persists(
    s: Seq<char>,
    fs: Seq<(Seq<char>, Seq<char>)>,
    tbl: Seq<char>,
    reqs: Seq<Seq<char>>,
    k: int,
)
    requires
        0 <= k <= reqs.len(),
        finders_text(s, fs, tbl, reqs.take(k)) is Err,
    ensures
        finders_text(s, fs, tbl, reqs) == finders_text(s, fs, tbl, reqs.take(k)),
    decreases reqs.len() - k,
{
    if k < reqs.len() {
        assert(reqs.take(k + 1).drop_last() == reqs.take(k));
        lemma_failure_persists(s, fs, tbl, reqs, k + 1);
    } else {
        assert(reqs.take(k) == reqs);
    }
}

} // verus!
